//! The trampoline generator.
//!
//! For each function of the catalogue this module emits the complete text of
//! an exported, C-calling-convention function of the same name and exact
//! native signature.  The generated body resolves the real implementation
//! once per process through the dynamic linker (searching the libraries
//! loaded *after* the current one, so the lookup can never land back on the
//! trampoline itself) and caches the typed address in a per-process static,
//! so hot paths never repeat the lookup.  It exposes the cached callable to
//! the override fragment as `original_<name>`, runs the override as a
//! zero-argument closure, and either returns the value the override yielded
//! or falls through to the original with the untouched arguments.
use vstd::prelude::*;
use crate::hook::HookFn;
use crate::hook::HookView;

verus! {

/// Text of the generated `open` trampoline up to the point where the
/// override fragment is spliced in: the real implementation's address is
/// resolved through the dynamic linker on the first call only and cached in
/// a per-process static, then bound as `original_open`.
pub const OPEN_HEAD: &'static str = "\n#[no_mangle]\npub unsafe extern \"C\" fn open(path: *const c_char, oflag: c_int) -> c_int {\n    static ORIGINAL_OPEN: std::sync::OnceLock<usize> = std::sync::OnceLock::new();\n    let address = *ORIGINAL_OPEN.get_or_init(|| unsafe { dlsym(RTLD_NEXT, \"open\\0\".as_ptr() as _) as usize });\n    let original_open: extern \"C\" fn(*const c_char, c_int) -> c_int = transmute(address);\n    match (";

/// Text of the generated `open` trampoline after the override fragment: the
/// dispatch on the override's result, falling through to `original_open`.
pub const OPEN_TAIL: &'static str = ")() {\n        Some(value) => value,\n        None => original_open(path, oflag),\n    }\n}\n";

/// The full `open` trampoline for the given override fragment.
pub open spec fn open_trampoline_spec(body: Seq<char>) -> Seq<char> {
    OPEN_HEAD@ + body + OPEN_TAIL@
}

/// Emit the `open` trampoline around the override fragment `fun`.
pub fn open_trampoline(fun: &str) -> (r: String)
    ensures
        r@ == open_trampoline_spec(fun@),
{
    let mut s = OPEN_HEAD.to_owned();
    s.append(fun);
    s.append(OPEN_TAIL);
    s
}

/// Text of the generated `opendir` trampoline before the override fragment;
/// the real implementation is resolved on the first call only, cached per
/// process, and bound as `original_opendir`.
pub const OPENDIR_HEAD: &'static str = "\n#[no_mangle]\npub unsafe extern \"C\" fn opendir(dirname: *const c_char) -> *mut DIR {\n    static ORIGINAL_OPENDIR: std::sync::OnceLock<usize> = std::sync::OnceLock::new();\n    let address = *ORIGINAL_OPENDIR.get_or_init(|| unsafe { dlsym(RTLD_NEXT, \"opendir\\0\".as_ptr() as _) as usize });\n    let original_opendir: extern \"C\" fn(*const c_char) -> *mut DIR = transmute(address);\n    match (";

/// Text of the generated `opendir` trampoline after the override fragment.
pub const OPENDIR_TAIL: &'static str = ")() {\n        Some(value) => value,\n        None => original_opendir(dirname),\n    }\n}\n";

/// The full `opendir` trampoline for the given override fragment.
pub open spec fn opendir_trampoline_spec(body: Seq<char>) -> Seq<char> {
    OPENDIR_HEAD@ + body + OPENDIR_TAIL@
}

/// Emit the `opendir` trampoline around the override fragment `fun`.
pub fn opendir_trampoline(fun: &str) -> (r: String)
    ensures
        r@ == opendir_trampoline_spec(fun@),
{
    let mut s = OPENDIR_HEAD.to_owned();
    s.append(fun);
    s.append(OPENDIR_TAIL);
    s
}

/// Text of the generated `recv` trampoline before the override fragment;
/// the real implementation is resolved on the first call only, cached per
/// process, and bound as `original_recv`.
pub const RECV_HEAD: &'static str = "\n#[no_mangle]\npub unsafe extern \"C\" fn recv(socket: c_int, buf: *mut c_void, len: size_t, flags: c_int) -> ssize_t {\n    static ORIGINAL_RECV: std::sync::OnceLock<usize> = std::sync::OnceLock::new();\n    let address = *ORIGINAL_RECV.get_or_init(|| unsafe { dlsym(RTLD_NEXT, \"recv\\0\".as_ptr() as _) as usize });\n    let original_recv: extern \"C\" fn(c_int, *mut c_void, size_t, c_int) -> ssize_t = transmute(address);\n    match (";

/// Text of the generated `recv` trampoline after the override fragment.
pub const RECV_TAIL: &'static str = ")() {\n        Some(value) => value,\n        None => original_recv(socket, buf, len, flags),\n    }\n}\n";

/// The full `recv` trampoline for the given override fragment.
pub open spec fn recv_trampoline_spec(body: Seq<char>) -> Seq<char> {
    RECV_HEAD@ + body + RECV_TAIL@
}

/// Emit the `recv` trampoline around the override fragment `fun`.
pub fn recv_trampoline(fun: &str) -> (r: String)
    ensures
        r@ == recv_trampoline_spec(fun@),
{
    let mut s = RECV_HEAD.to_owned();
    s.append(fun);
    s.append(RECV_TAIL);
    s
}

/// Text of the generated `read` trampoline before the override fragment;
/// the real implementation is resolved on the first call only, cached per
/// process, and bound as `original_read`.
pub const READ_HEAD: &'static str = "\n#[no_mangle]\npub unsafe extern \"C\" fn read(fd: c_int, buf: *mut c_void, count: size_t) -> ssize_t {\n    static ORIGINAL_READ: std::sync::OnceLock<usize> = std::sync::OnceLock::new();\n    let address = *ORIGINAL_READ.get_or_init(|| unsafe { dlsym(RTLD_NEXT, \"read\\0\".as_ptr() as _) as usize });\n    let original_read: extern \"C\" fn(c_int, *mut c_void, size_t) -> ssize_t = transmute(address);\n    match (";

/// Text of the generated `read` trampoline after the override fragment.
pub const READ_TAIL: &'static str = ")() {\n        Some(value) => value,\n        None => original_read(fd, buf, count),\n    }\n}\n";

/// The full `read` trampoline for the given override fragment.
pub open spec fn read_trampoline_spec(body: Seq<char>) -> Seq<char> {
    READ_HEAD@ + body + READ_TAIL@
}

/// Emit the `read` trampoline around the override fragment `fun`.
pub fn read_trampoline(fun: &str) -> (r: String)
    ensures
        r@ == read_trampoline_spec(fun@),
{
    let mut s = READ_HEAD.to_owned();
    s.append(fun);
    s.append(READ_TAIL);
    s
}

/// The trampoline a hook generates: chosen by the hook's identity, wrapped
/// around its override fragment.
pub open spec fn trampoline_spec(h: HookView) -> Seq<char> {
    match h.fun {
        HookFn::Open => open_trampoline_spec(h.body),
        HookFn::OpenDir => opendir_trampoline_spec(h.body),
        HookFn::Recv => recv_trampoline_spec(h.body),
        HookFn::Read => read_trampoline_spec(h.body),
    }
}

/// The concatenation of the trampolines of `s`, in registration order.
pub open spec fn trampolines_of(s: Seq<HookView>) -> Seq<char>
    decreases s.len(),
{
    if s.len() == 0 {
        Seq::empty()
    } else {
        trampolines_of(s.drop_last()) + trampoline_spec(s.last())
    }
}

/// `b` occurs in `t` as one contiguous block.
pub open spec fn contains_block(t: Seq<char>, b: Seq<char>) -> bool {
    exists|k: int| 0 <= k && k + b.len() <= t.len() && #[trigger] t.subrange(k, k + b.len()) == b
}

/// Every registered hook's trampoline stands whole somewhere in the emitted
/// concatenation, whatever the emission order.
pub proof fn lemma_trampolines_contains_each(s: Seq<HookView>, i: int)
    requires
        0 <= i < s.len(),
    ensures
        contains_block(trampolines_of(s), trampoline_spec(s[i])),
    decreases s.len(),
{
    let t = trampolines_of(s);
    let head = trampolines_of(s.drop_last());
    let b = trampoline_spec(s[i]);
    if i == s.len() - 1 {
        let k = head.len() as int;
        assert(t.subrange(k, k + b.len()) =~= b);
    } else {
        lemma_trampolines_contains_each(s.drop_last(), i);
        let k = choose|k: int|
            0 <= k && k + b.len() <= head.len() && #[trigger] head.subrange(k, k + b.len()) == b;
        assert(t.subrange(k, k + b.len()) =~= head.subrange(k, k + b.len()));
    }
}

/// What a generated trampoline does once the override fragment has run:
/// either return the value the override yielded, without ever calling the
/// real implementation, or fall through and call the original with the
/// untouched arguments.
#[derive(Debug, PartialEq, Eq, Structural)]
pub enum OverrideOutcome<T> {
    /// The override yielded a value; the trampoline returns it and the
    /// original function is never invoked.
    Value(T),
    /// The override yielded no value; the trampoline calls the original
    /// implementation with the original arguments and returns its result.
    PassThrough,
}

/// The dispatch rule of every generated trampoline, as a function of the
/// override's result.
pub open spec fn dispatch_spec<T>(yielded: Option<T>) -> OverrideOutcome<T> {
    match yielded {
        Some(v) => OverrideOutcome::Value(v),
        None => OverrideOutcome::PassThrough,
    }
}

/// Decide, from the override's result, whether the trampoline returns the
/// override's value or delegates to the real implementation.  This is
/// the same dispatch that the generated trampoline text performs on the
/// override closure's result.
pub fn dispatch<T>(yielded: Option<T>) -> (r: OverrideOutcome<T>)
    ensures
        r == dispatch_spec(yielded),
{
    match yielded {
        Some(v) => OverrideOutcome::Value(v),
        None => OverrideOutcome::PassThrough,
    }
}

/// The value a trampoline returns, given the override's result and the value
/// the real implementation would return for the same arguments.
pub open spec fn trampoline_result<T>(yielded: Option<T>, original: T) -> T {
    match yielded {
        Some(v) => v,
        None => original,
    }
}

/// Whether the trampoline itself invokes the real implementation.
pub open spec fn calls_original<T>(yielded: Option<T>) -> bool {
    yielded is None
}

/// Pass-through law: a trampoline whose override yields no value returns,
/// for every input, exactly what the real implementation returns for
/// that input, and it does invoke the original (so the original's side
/// effects happen exactly as in an unhooked call).
pub proof fn lemma_pass_through<T>(original: T)
    ensures
        trampoline_result(None::<T>, original) == original,
        calls_original(None::<T>),
        dispatch_spec(None::<T>) == OverrideOutcome::<T>::PassThrough,
{
}

/// Override precedence law: a trampoline whose override yields a fixed value
/// returns that value for every input, and never invokes the original
/// implementation as a side effect.
pub proof fn lemma_override_precedence<T>(v: T, original: T)
    ensures
        trampoline_result(Some(v), original) == v,
        !calls_original(Some(v)),
        dispatch_spec(Some(v)) == OverrideOutcome::Value(v),
{
}

} // verus!
