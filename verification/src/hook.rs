//! Hooks: a function identity from the closed catalogue of interceptable
//! C-runtime functions, together with the caller's override fragment.
//!
//! The override fragment is source text for a zero-argument closure that
//! returns an `Option` of the intercepted function's native return type;
//! yielding `None` means "run the original function".
use vstd::prelude::*;

verus! {

/// Identity of an interceptable C-runtime function.
///
/// The catalogue is closed: a trampoline can only be generated for a
/// function whose exact native signature is known here.
#[derive(Clone, Copy, Debug, PartialEq, Eq, Structural, Hash)]
pub enum HookFn {
    /// `open(path, flags) -> fd`
    Open,
    /// `opendir(dirname) -> handle`
    OpenDir,
    /// `recv(socket, buf, len, flags) -> ssize`
    Recv,
    /// `read(fd, buf, count) -> ssize`
    Read,
}

/// Mathematical value of a [`Hook`]: its identity and the text of its
/// override fragment.
pub ghost struct HookView {
    pub fun: HookFn,
    pub body: Seq<char>,
}

/// A pending hook: one intercepted function plus the override fragment that
/// the generated trampoline will consult before (possibly) delegating to the
/// real implementation.
///
/// A hook is immutable once constructed; its identity for registry
/// deduplication is the [`HookFn`] alone.
pub struct Hook {
    fun: HookFn,
    body: String,
}

impl View for Hook {
    type V = HookView;

    closed spec fn view(&self) -> HookView {
        HookView { fun: self.fun, body: self.body@ }
    }
}

impl DeepView for Hook {
    type V = HookView;

    open spec fn deep_view(&self) -> HookView {
        self@
    }
}

impl Hook {
    /// Hook the `open` C function with the given override fragment.
    pub fn open(fun: &str) -> (h: Hook)
        ensures
            h@ == (HookView { fun: HookFn::Open, body: fun@ }),
    {
        Hook { fun: HookFn::Open, body: fun.to_owned() }
    }

    /// Hook the `opendir` C function with the given override fragment.
    pub fn opendir(fun: &str) -> (h: Hook)
        ensures
            h@ == (HookView { fun: HookFn::OpenDir, body: fun@ }),
    {
        Hook { fun: HookFn::OpenDir, body: fun.to_owned() }
    }

    /// Hook the `recv` C function with the given override fragment.
    pub fn recv(fun: &str) -> (h: Hook)
        ensures
            h@ == (HookView { fun: HookFn::Recv, body: fun@ }),
    {
        Hook { fun: HookFn::Recv, body: fun.to_owned() }
    }

    /// Hook the `read` C function with the given override fragment.
    pub fn read(fun: &str) -> (h: Hook)
        ensures
            h@ == (HookView { fun: HookFn::Read, body: fun@ }),
    {
        Hook { fun: HookFn::Read, body: fun.to_owned() }
    }

    /// The complete trampoline this hook generates: an exported function of
    /// the intercepted function's exact native signature, wrapped around the
    /// override fragment.
    pub fn function(&self) -> (r: String)
        ensures
            r@ == crate::trampoline::trampoline_spec(self@),
    {
        match self.fun {
            HookFn::Open => crate::trampoline::open_trampoline(self.body.as_str()),
            HookFn::OpenDir => crate::trampoline::opendir_trampoline(self.body.as_str()),
            HookFn::Recv => crate::trampoline::recv_trampoline(self.body.as_str()),
            HookFn::Read => crate::trampoline::read_trampoline(self.body.as_str()),
        }
    }

    /// Identity of the intercepted function.
    pub fn fun(&self) -> (f: HookFn)
        ensures
            f == self@.fun,
    {
        self.fun
    }

    /// The override fragment's text.
    pub fn body(&self) -> (b: &str)
        ensures
            b@ == self@.body,
    {
        self.body.as_str()
    }
}

} // verus!
