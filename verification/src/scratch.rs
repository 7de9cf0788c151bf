//! The build orchestrator's model: the scratch compilation project that the
//! trampolines are compiled in.
//!
//! The scratch project lives at one fixed, well-known location.  Its single
//! source unit always begins with a fixed prologue (the imports the override
//! fragments may use, the dynamic-symbol-resolution primitive, and the
//! per-process counter), followed by one trampoline per confirmed hook.  The
//! compiled shared object lands at one deterministic path under the
//! project's target directory.
use vstd::prelude::*;
use crate::hook::HookView;
use crate::trampoline::trampolines_of;
use crate::trampoline::contains_block;
use crate::trampoline::trampoline_spec;
use crate::trampoline::lemma_trampolines_contains_each;

verus! {

/// The fixed prologue of the scratch project's source unit.  Everything a
/// generated trampoline or an override fragment refers to by bare name is
/// brought into scope here; `COUNTER` is the per-process counter that every
/// override fragment may read and advance.
pub const PROLOGUE: &'static str = "#![allow(non_snake_case)]\n#![allow(non_camel_case_types)]\n#![allow(dead_code)]\n#![allow(unused_imports)]\n\nuse libc::*;\nuse std::ffi::CString;\nuse std::mem::transmute;\nuse std::mem::ManuallyDrop;\n\nstatic mut COUNTER: isize = 0;\n";

/// The scratch project's manifest: a shared-library build with the one
/// native-runtime dependency the generated trampolines need.
pub const MANIFEST: &'static str = "[package]\nname = \"rhookdyl\"\nversion = \"0.1.0\"\nedition = \"2018\"\n[lib]\ncrate-type = [\"dylib\"]\n[dependencies]\nlibc = \"0.2.92\"";

/// Root directory of the scratch project.
pub const SCRATCH_DIR: &'static str = "/tmp/rhookdyl";

/// Directory of the scratch project's source unit.
pub const SCRATCH_SRC_DIR: &'static str = "/tmp/rhookdyl/src";

/// Path of the scratch project's manifest.
pub const SCRATCH_MANIFEST_PATH: &'static str = "/tmp/rhookdyl/Cargo.toml";

/// Path of the scratch project's single source unit.
pub const SCRATCH_SOURCE_PATH: &'static str = "/tmp/rhookdyl/src/lib.rs";

/// Directory the toolchain is directed to place its build output in.
pub const SCRATCH_TARGET_DIR: &'static str = "/tmp/rhookdyl/target";

/// Deterministic path of the built shared object.
pub const ARTIFACT_PATH: &'static str = "/tmp/rhookdyl/target/debug/librhookdyl.so";

/// The initializer's effect on the source unit's content: whatever was
/// there before, afterwards the unit holds exactly the prologue.
pub open spec fn prepare_spec(content: Seq<char>) -> Seq<char> {
    PROLOGUE@
}

/// Idempotent prepare: initializing the scratch source unit twice in a row
/// leaves the same content as initializing it once — in particular the
/// prologue is never duplicated, since the unit holds exactly one copy of it
/// either way.
pub proof fn lemma_prepare_idempotent(content: Seq<char>)
    ensures
        prepare_spec(prepare_spec(content)) == prepare_spec(content),
{
}

/// The in-memory image of the scratch project's source unit while one
/// confirmation assembles it.
pub struct ScratchUnit {
    source: String,
}

impl View for ScratchUnit {
    type V = Seq<char>;

    closed spec fn view(&self) -> Seq<char> {
        self.source@
    }
}

impl ScratchUnit {
    /// An empty source unit, not yet initialized.
    pub fn new() -> (u: ScratchUnit)
        ensures
            u@ == Seq::<char>::empty(),
    {
        ScratchUnit { source: String::new() }
    }

    /// Initialize the unit: discard any prior content and write the fixed
    /// prologue.  Never fails, and repeating it changes nothing (see
    /// [`lemma_prepare_idempotent`]).
    pub fn prepare(&mut self)
        ensures
            final(self)@ == prepare_spec(old(self)@),
    {
        self.source = PROLOGUE.to_owned();
    }

    /// Append one generated trampoline's text to the unit.
    pub fn append(&mut self, trampoline: &str)
        ensures
            final(self)@ == old(self)@ + trampoline@,
    {
        self.source.append(trampoline);
    }

    /// Hand the assembled source text over for writing to disk.
    pub fn into_source(self) -> (r: String)
        ensures
            r@ == self@,
    {
        self.source
    }
}

/// The complete source unit one confirmation produces for the hooks `s`:
/// the fixed prologue followed by one trampoline per hook, in registration
/// order.
pub open spec fn confirmation_source(s: Seq<HookView>) -> Seq<char> {
    PROLOGUE@ + trampolines_of(s)
}

/// Each confirmed hook's trampoline stands whole in the confirmation's
/// source unit.
pub proof fn lemma_confirmation_source_contains_each(s: Seq<HookView>, i: int)
    requires
        0 <= i < s.len(),
    ensures
        contains_block(confirmation_source(s), trampoline_spec(s[i])),
{
    let t = trampolines_of(s);
    let b = trampoline_spec(s[i]);
    lemma_trampolines_contains_each(s, i);
    let k = choose|k: int|
        0 <= k && k + b.len() <= t.len() && #[trigger] t.subrange(k, k + b.len()) == b;
    let full = confirmation_source(s);
    let off = PROLOGUE@.len() + k;
    assert(full.subrange(off, off + b.len()) =~= t.subrange(k, k + b.len()));
}

/// A hook pending in the registry has its whole trampoline in the
/// confirmation's source unit.
pub proof fn lemma_source_contains_hook(s: Seq<HookView>, h: HookView)
    requires
        exists|i: int| 0 <= i < s.len() && s[i] == h,
    ensures
        contains_block(confirmation_source(s), trampoline_spec(h)),
{
    let i = choose|i: int| 0 <= i < s.len() && s[i] == h;
    lemma_confirmation_source_contains_each(s, i);
}

/// Dedup law, read off the generated source: registering two hooks for the
/// same function identity in sequence yields the very source unit that
/// registering only the second would have yielded — one trampoline for that
/// identity, holding the second override's fragment, with no trace of the
/// first.
pub proof fn lemma_dedup_source(s: Seq<HookView>, h1: HookView, h2: HookView)
    requires
        h1.fun == h2.fun,
    ensures
        confirmation_source(crate::registry::register_spec(crate::registry::register_spec(s, h1), h2))
            == confirmation_source(crate::registry::register_spec(s, h2)),
{
    crate::registry::lemma_register_dedup(s, h1, h2);
}

/// Order independence across identities, read off the generated source:
/// whichever of two hooks for different functions is registered first, the
/// confirmation's source unit holds both trampolines whole.
pub proof fn lemma_either_order_contains_both(s: Seq<HookView>, h1: HookView, h2: HookView)
    requires
        h1.fun != h2.fun,
    ensures
        contains_block(
            confirmation_source(
                crate::registry::register_spec(crate::registry::register_spec(s, h1), h2),
            ),
            trampoline_spec(h1),
        ),
        contains_block(
            confirmation_source(
                crate::registry::register_spec(crate::registry::register_spec(s, h1), h2),
            ),
            trampoline_spec(h2),
        ),
{
    let s1 = crate::registry::register_spec(s, h1);
    let s2 = crate::registry::register_spec(s1, h2);
    crate::registry::lemma_register_present(s, h1);
    crate::registry::lemma_register_keeps_others(s1, h2, h1);
    crate::registry::lemma_register_present(s1, h2);
    lemma_source_contains_hook(s2, h1);
    lemma_source_contains_hook(s2, h2);
}

/// Everything one confirmation asks the toolchain to do: the scratch
/// project's manifest and complete source unit, and the deterministic path
/// the built shared object will have.
pub struct BuildPlan {
    pub manifest: String,
    pub source: String,
    pub artifact: String,
}

/// A build failure: the toolchain exited with an error, and this carries
/// its diagnostic output verbatim.
pub struct BuildFailure {
    pub diagnostics: String,
}

/// The environment entry that injects the built shared object into a child
/// process: the dynamic linker's preload variable, set to the artifact's
/// path.
pub struct Preload {
    pub var: String,
    pub path: String,
}

/// The injector: turn an artifact path into the environment entry that a
/// launch specification needs for the child to load the artifact ahead of
/// the system C runtime.
pub fn inject(artifact: &str) -> (r: Preload)
    ensures
        r.var@ == "LD_PRELOAD"@,
        r.path@ == artifact@,
{
    Preload { var: String::from_str("LD_PRELOAD"), path: artifact.to_owned() }
}

/// Interpret the toolchain's exit: on success the confirmation yields the
/// preload entry for the just-built artifact; on failure it yields the
/// captured diagnostics verbatim and no artifact reference at all.
pub fn build_outcome(artifact: &str, success: bool, diagnostics: String) -> (r: Result<
    Preload,
    BuildFailure,
>)
    ensures
        success <==> r is Ok,
        r matches Ok(p) ==> p.var@ == "LD_PRELOAD"@ && p.path@ == artifact@,
        r matches Err(e) ==> e.diagnostics@ == diagnostics@,
{
    if success {
        Ok(inject(artifact))
    } else {
        Err(BuildFailure { diagnostics })
    }
}

} // verus!
