use rhook::{Anchor, Hook, HookFn, RunHook};
use rhook::scratch::PROLOGUE;

fn source_of(anchor: Anchor) -> String {
    let mut anchor = anchor;
    anchor.set_hooks().source
}

#[test]
fn dedup_same_identity_keeps_second() {
    let first = "|| Some(1)";
    let second = "|| Some(2)";
    let anchor = Anchor::new().add_hook(Hook::open(first)).add_hook(Hook::open(second));
    let source = source_of(anchor);

    let expected = format!("{}{}", PROLOGUE, Hook::open(second).function());
    assert_eq!(source, expected);
    assert!(!source.contains(first));
}

#[test]
fn layering_add_hooks_last_writer_wins() {
    let anchor = Anchor::new().add_hooks(vec![
        Hook::open("|| Some(1)"),
        Hook::read("|| None"),
        Hook::open("|| Some(3)"),
    ]);
    let source = source_of(anchor);

    let expected = format!(
        "{}{}{}",
        PROLOGUE,
        Hook::open("|| Some(3)").function(),
        Hook::read("|| None").function(),
    );
    assert_eq!(source, expected);
}

#[test]
fn order_independence_across_identities() {
    let open_fragment = "|| { COUNTER += 1; None }";
    let read_fragment = "|| Some(0)";

    let open_first = source_of(
        Anchor::new().add_hook(Hook::open(open_fragment)).add_hook(Hook::read(read_fragment)),
    );
    let read_first = source_of(
        Anchor::new().add_hook(Hook::read(read_fragment)).add_hook(Hook::open(open_fragment)),
    );

    let open_trampoline = Hook::open(open_fragment).function();
    let read_trampoline = Hook::read(read_fragment).function();
    for source in [&open_first, &read_first] {
        assert!(source.starts_with(PROLOGUE));
        assert!(source.contains(&open_trampoline));
        assert!(source.contains(&read_trampoline));
    }
    assert_eq!(open_first, format!("{}{}{}", PROLOGUE, open_trampoline, read_trampoline));
    assert_eq!(read_first, format!("{}{}{}", PROLOGUE, read_trampoline, open_trampoline));
}

#[test]
fn confirmation_drains_the_registry() {
    let mut anchor = Anchor::new().add_hook(Hook::opendir("|| None"));
    let first = anchor.set_hooks();
    assert_ne!(first.source, PROLOGUE);

    let second = anchor.set_hooks();
    assert_eq!(second.source, PROLOGUE);
}

#[test]
fn hook_accessors_report_identity_and_body() {
    let hook = Hook::recv("|| None");
    assert_eq!(hook.fun(), HookFn::Recv);
    assert_eq!(hook.body(), "|| None");
}
