use rhook::Hook;
use rhook::trampoline::{dispatch, OverrideOutcome};
use rhook::trampoline::{OPEN_HEAD, OPEN_TAIL, OPENDIR_HEAD, OPENDIR_TAIL, RECV_HEAD, RECV_TAIL,
    READ_HEAD, READ_TAIL};

#[test]
fn open_trampoline_exact_text() {
    let generated = Hook::open("|| Some(3)").function();
    let expected = "\n#[no_mangle]\npub unsafe extern \"C\" fn open(path: *const c_char, oflag: c_int) -> c_int {\n    static ORIGINAL_OPEN: std::sync::OnceLock<usize> = std::sync::OnceLock::new();\n    let address = *ORIGINAL_OPEN.get_or_init(|| unsafe { dlsym(RTLD_NEXT, \"open\\0\".as_ptr() as _) as usize });\n    let original_open: extern \"C\" fn(*const c_char, c_int) -> c_int = transmute(address);\n    match (|| Some(3))() {\n        Some(value) => value,\n        None => original_open(path, oflag),\n    }\n}\n";
    assert_eq!(generated, expected);
}

#[test]
fn opendir_trampoline_wraps_fragment() {
    let fragment = "|| None";
    let generated = Hook::opendir(fragment).function();
    assert_eq!(generated, format!("{}{}{}", OPENDIR_HEAD, fragment, OPENDIR_TAIL));
    assert!(generated.contains("pub unsafe extern \"C\" fn opendir(dirname: *const c_char) -> *mut DIR {"));
    assert!(generated.contains("original_opendir(dirname)"));
    assert!(generated.contains("dlsym(RTLD_NEXT, \"opendir\\0\".as_ptr() as _)"));
}

#[test]
fn recv_trampoline_wraps_fragment() {
    let fragment = "|| { COUNTER += 1; None }";
    let generated = Hook::recv(fragment).function();
    assert_eq!(generated, format!("{}{}{}", RECV_HEAD, fragment, RECV_TAIL));
    assert!(generated.contains(
        "pub unsafe extern \"C\" fn recv(socket: c_int, buf: *mut c_void, len: size_t, flags: c_int) -> ssize_t {",
    ));
    assert!(generated.contains("original_recv(socket, buf, len, flags)"));
}

#[test]
fn read_trampoline_wraps_fragment() {
    let fragment = "|| Some(0)";
    let generated = Hook::read(fragment).function();
    assert_eq!(generated, format!("{}{}{}", READ_HEAD, fragment, READ_TAIL));
    assert!(generated.contains("pub unsafe extern \"C\" fn read(fd: c_int, buf: *mut c_void, count: size_t) -> ssize_t {"));
    assert!(generated.contains("original_read(fd, buf, count)"));
}

#[test]
fn every_trampoline_resolves_once_and_dispatches() {
    for (head, tail, name, cache) in [
        (OPEN_HEAD, OPEN_TAIL, "open", "ORIGINAL_OPEN"),
        (OPENDIR_HEAD, OPENDIR_TAIL, "opendir", "ORIGINAL_OPENDIR"),
        (RECV_HEAD, RECV_TAIL, "recv", "ORIGINAL_RECV"),
        (READ_HEAD, READ_TAIL, "read", "ORIGINAL_READ"),
    ] {
        let static_cache = format!("static {}: std::sync::OnceLock<usize> = std::sync::OnceLock::new();", cache);
        assert!(head.contains(&static_cache), "missing per-process cache for {}", name);
        let resolve_once = format!(
            "let address = *{}.get_or_init(|| unsafe {{ dlsym(RTLD_NEXT, \"{}\\0\".as_ptr() as _) as usize }});",
            cache, name
        );
        assert!(head.contains(&resolve_once), "missing first-call-only resolution for {}", name);
        assert_eq!(head.matches("dlsym").count(), 1, "the lookup must stand only in the cache initializer for {}", name);
        assert!(head.contains(&format!("let original_{}:", name)), "missing typed binding for {}", name);
        assert!(head.ends_with("match ("), "missing dispatch head for {}", name);
        assert!(tail.starts_with(")() {"), "override must be called with no arguments for {}", name);
        assert!(tail.contains("Some(value) => value"), "missing override value case for {}", name);
        assert!(
            tail.contains(&format!("None => original_{}(", name)),
            "missing pass-through case for {}",
            name
        );
    }
}

#[test]
fn dispatch_returns_override_value_without_original() {
    assert_eq!(dispatch(Some(42i64)), OverrideOutcome::Value(42i64));
}

#[test]
fn dispatch_falls_through_on_no_value() {
    assert_eq!(dispatch(None::<i64>), OverrideOutcome::PassThrough);
}
