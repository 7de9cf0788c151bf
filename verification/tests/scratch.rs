use rhook::{Anchor, Hook, RunHook};
use rhook::scratch::{build_outcome, inject, ScratchUnit};
use rhook::scratch::{ARTIFACT_PATH, MANIFEST, PROLOGUE, SCRATCH_DIR, SCRATCH_MANIFEST_PATH,
    SCRATCH_SOURCE_PATH, SCRATCH_SRC_DIR};

#[test]
fn prepare_is_idempotent() {
    let mut once = ScratchUnit::new();
    once.prepare();
    let mut twice = ScratchUnit::new();
    twice.prepare();
    twice.prepare();
    assert_eq!(once.into_source(), twice.into_source());
}

#[test]
fn prepare_writes_exactly_the_prologue() {
    let mut unit = ScratchUnit::new();
    unit.prepare();
    let source = unit.into_source();
    assert_eq!(source, PROLOGUE);
    assert_eq!(source.matches("static mut COUNTER").count(), 1);
}

#[test]
fn prepare_discards_prior_trampolines() {
    let mut unit = ScratchUnit::new();
    unit.prepare();
    unit.append(&Hook::open("|| None").function());
    unit.prepare();
    assert_eq!(unit.into_source(), PROLOGUE);
}

#[test]
fn append_accumulates_in_order() {
    let mut unit = ScratchUnit::new();
    unit.prepare();
    unit.append("first");
    unit.append("second");
    assert_eq!(unit.into_source(), format!("{}firstsecond", PROLOGUE));
}

#[test]
fn successful_build_yields_preload_entry() {
    let outcome = build_outcome(ARTIFACT_PATH, true, String::new());
    let preload = outcome.ok().expect("successful build must yield a preload entry");
    assert_eq!(preload.var, "LD_PRELOAD");
    assert_eq!(preload.path, "/tmp/rhookdyl/target/debug/librhookdyl.so");
}

#[test]
fn failed_build_carries_diagnostics_verbatim_and_no_artifact() {
    let diagnostics = "error[E0425]: cannot find value `path_name` in this scope";
    let outcome = build_outcome(ARTIFACT_PATH, false, diagnostics.to_string());
    match outcome {
        Ok(_) => panic!("a failed build must not yield a preload entry"),
        Err(failure) => assert_eq!(failure.diagnostics, diagnostics),
    }
}

#[test]
fn inject_sets_the_preload_variable_to_the_artifact() {
    let preload = inject("/some/where/libother.so");
    assert_eq!(preload.var, "LD_PRELOAD");
    assert_eq!(preload.path, "/some/where/libother.so");
}

#[test]
fn scratch_layout_is_fixed_and_consistent() {
    assert_eq!(SCRATCH_DIR, "/tmp/rhookdyl");
    assert!(SCRATCH_SRC_DIR.starts_with(SCRATCH_DIR));
    assert!(SCRATCH_MANIFEST_PATH.starts_with(SCRATCH_DIR));
    assert!(SCRATCH_SOURCE_PATH.starts_with(SCRATCH_SRC_DIR));
    assert!(ARTIFACT_PATH.starts_with(SCRATCH_DIR));
    assert!(MANIFEST.contains("crate-type = [\"dylib\"]"));
    assert!(MANIFEST.contains("name = \"rhookdyl\""));
}

#[test]
fn confirmation_produces_the_whole_plan() {
    let mut anchor = Anchor::new().add_hook(Hook::read("|| None"));
    let plan = anchor.set_hooks();
    assert_eq!(plan.manifest, MANIFEST);
    assert_eq!(plan.artifact, ARTIFACT_PATH);
    assert_eq!(plan.source, format!("{}{}", PROLOGUE, Hook::read("|| None").function()));
}
