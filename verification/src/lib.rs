//! Intercept selected C-runtime functions (`open`, `opendir`, `recv`,
//! `read`) of a freshly spawned child process without touching its binary:
//! each registered hook becomes a generated trampoline of the intercepted
//! function's exact native signature, the trampolines are assembled into a
//! scratch shared-library project, and the built artifact is handed to the
//! child through the dynamic linker's preload environment variable.
//!
//! This crate holds the interception pipeline itself — the hook registry,
//! the trampoline generator, the scratch-project assembly and the injection
//! entry.  Writing the scratch project to disk, invoking the toolchain and
//! spawning the child are left to the caller, who feeds the toolchain's
//! exit status and captured diagnostics back into [`scratch::build_outcome`].
use vstd::prelude::*;

pub mod hook;
pub mod registry;
pub mod scratch;
pub mod trampoline;

pub use hook::Hook;
pub use hook::HookFn;
pub use hook::HookView;
pub use scratch::BuildFailure;
pub use scratch::BuildPlan;
pub use scratch::Preload;

use registry::register_spec;
use registry::register_all;
use scratch::confirmation_source;
use scratch::ScratchUnit;
use trampoline::trampolines_of;
use trampoline::trampoline_spec;

verus! {

/// The struct that holds the hooks pending for one confirmation.
///
/// Hooks accumulate through [`RunHook::add_hook`] and
/// [`RunHook::add_hooks`]; [`Anchor::set_hooks`] drains them and assembles
/// the scratch project that compiles them into the preloadable shared
/// object.
pub struct Anchor {
    hooks: Vec<Hook>,
}

impl View for Anchor {
    type V = Seq<HookView>;

    closed spec fn view(&self) -> Seq<HookView> {
        self.hooks.deep_view()
    }
}

impl Anchor {
    /// An anchor with no pending hooks.
    pub fn new() -> (a: Anchor)
        ensures
            a@ == Seq::<HookView>::empty(),
    {
        let a = Anchor { hooks: Vec::new() };
        proof {
            assert(a@ =~= Seq::<HookView>::empty());
        }
        a
    }

    /// The first position among the pending hooks that intercepts `f`.
    fn find_fn(hooks: &Vec<Hook>, f: HookFn) -> (r: Option<usize>)
        ensures
            match r {
                Some(i) => {
                    &&& i < hooks@.len()
                    &&& hooks.deep_view()[i as int].fun == f
                    &&& forall|j: int| 0 <= j < i ==> hooks.deep_view()[j].fun != f
                },
                None => forall|j: int| 0 <= j < hooks@.len() ==> hooks.deep_view()[j].fun != f,
            },
    {
        let n = hooks.len();
        let mut i: usize = 0;
        while i < n
            invariant
                n == hooks@.len(),
                i <= n,
                forall|j: int| 0 <= j < i ==> hooks.deep_view()[j].fun != f,
            decreases n - i,
        {
            if hooks[i].fun() == f {
                return Some(i);
            }
            i = i + 1;
        }
        None
    }

    /// Register one hook: replace the pending hook of the same identity in
    /// place, or append if the identity is new.
    fn insert_hook(&mut self, hook: Hook)
        ensures
            final(self)@ == register_spec(old(self)@, hook@),
    {
        let ghost s = self@;
        match Self::find_fn(&self.hooks, hook.fun()) {
            Some(i) => {
                proof {
                    registry::lemma_register_replaces(s, hook@, i as int);
                }
                self.hooks[i] = hook;
                proof {
                    assert(self@ =~= s.update(i as int, hook@));
                }
            },
            None => {
                proof {
                    assert(!registry::has_fn(s, hook@.fun));
                    registry::lemma_register_fresh(s, hook@);
                }
                self.hooks.push(hook);
                proof {
                    assert(self@ =~= s.push(hook@));
                }
            },
        }
    }

    /// Register a sequence of hooks in order; later entries override
    /// earlier ones with the same identity.
    fn insert_hooks(&mut self, hooks: Vec<Hook>)
        ensures
            final(self)@ == register_all(old(self)@, hooks.deep_view()),
    {
        let ghost s0 = self@;
        let ghost hs = hooks.deep_view();
        let mut rest = hooks;
        while rest.len() > 0
            invariant
                register_all(s0, hs) == register_all(self@, rest.deep_view()),
            decreases rest.len(),
        {
            let ghost pre = self@;
            let ghost r = rest.deep_view();
            let h = rest.remove(0);
            proof {
                assert(h@ == r[0]);
                assert(rest.deep_view() =~= r.drop_first());
            }
            self.insert_hook(h);
            proof {
                assert(register_all(pre, r) == register_all(self@, rest.deep_view()));
            }
        }
        proof {
            assert(rest.deep_view() =~= Seq::<HookView>::empty());
            assert(register_all(self@, rest.deep_view()) == self@);
        }
    }

    /// Confirm the pending hooks: drain them and assemble the scratch
    /// project that compiles them — the manifest, the complete source unit
    /// (the fixed prologue followed by one trampoline per hook, in
    /// registration order), and the deterministic path the built artifact
    /// will have.
    ///
    /// The caller writes the two files, runs the toolchain over the scratch
    /// project, and hands the outcome to [`scratch::build_outcome`]; this
    /// method itself cannot fail.  Afterwards this anchor is empty, so an
    /// independent later confirmation starts from a clean registry.
    ///
    /// The scratch project is one shared, well-known location, so a caller
    /// that runs several confirmations concurrently must hold one
    /// process-wide lock from writing the plan's files until the toolchain
    /// has exited; otherwise two confirmations could interleave their
    /// source units on disk.
    pub fn set_hooks(&mut self) -> (r: BuildPlan)
        ensures
            r.manifest@ == scratch::MANIFEST@,
            r.source@ == confirmation_source(old(self)@),
            r.artifact@ == scratch::ARTIFACT_PATH@,
            final(self)@ == Seq::<HookView>::empty(),
    {
        let ghost s = self@;
        let mut unit = ScratchUnit::new();
        unit.prepare();
        let n = self.hooks.len();
        let mut i: usize = 0;
        while i < n
            invariant
                n == self.hooks@.len(),
                i <= n,
                self@ == s,
                unit@ == scratch::PROLOGUE@ + trampolines_of(s.take(i as int)),
            decreases n - i,
        {
            let ghost before = s.take(i as int);
            let t = self.hooks[i].function();
            unit.append(t.as_str());
            proof {
                let after = s.take(i as int + 1);
                assert(after.drop_last() =~= before);
                assert(after.last() == s[i as int]);
                assert(trampolines_of(after) == trampolines_of(before) + trampoline_spec(
                    s[i as int],
                ));
            }
            i = i + 1;
        }
        proof {
            assert(s.take(n as int) =~= s);
        }
        self.hooks = Vec::new();
        proof {
            assert(self@ =~= Seq::<HookView>::empty());
        }
        BuildPlan {
            manifest: scratch::MANIFEST.to_owned(),
            source: unit.into_source(),
            artifact: scratch::ARTIFACT_PATH.to_owned(),
        }
    }
}

/// Specify hooks for a pending confirmation, builder-style.
pub trait RunHook: Sized {
    /// The hooks pending on this value, in registration order.
    spec fn pending(&self) -> Seq<HookView>;

    /// Add one hook; a pending hook of the same identity is superseded.
    fn add_hook(self, hook: Hook) -> (r: Anchor)
        ensures
            r@ == register_spec(self.pending(), hook@),
    ;

    /// Add hooks in order; later entries override earlier ones with the
    /// same identity.
    fn add_hooks(self, hooks: Vec<Hook>) -> (r: Anchor)
        ensures
            r@ == register_all(self.pending(), hooks.deep_view()),
    ;
}

impl RunHook for Anchor {
    open spec fn pending(&self) -> Seq<HookView> {
        self@
    }

    fn add_hook(self, hook: Hook) -> (r: Anchor) {
        let mut a = self;
        a.insert_hook(hook);
        a
    }

    fn add_hooks(self, hooks: Vec<Hook>) -> (r: Anchor) {
        let mut a = self;
        a.insert_hooks(hooks);
        a
    }
}

} // verus!
