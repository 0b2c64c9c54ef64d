use chibiwasm_shim::error::ShimError;
use chibiwasm_shim::instance::{
    delete_step, ChibiwasmInstance, DeleteEvent, DeleteOutcome, DeleteStep, InstanceConfigView,
};
use chibiwasm_shim::rootdir::ConfigSource;
use chibiwasm_shim::Engine;

fn config_with_bundle(bundle: Option<&str>) -> InstanceConfigView {
    InstanceConfigView {
        bundle: bundle.map(|b| b.to_string()),
        namespace: "test_namespace".to_string(),
        stdin: None,
        stdout: Some("/tmp/out".to_string()),
        stderr: Some("/tmp/err".to_string()),
    }
}

#[test]
fn new_requires_a_bundle_path() {
    let cfg = config_with_bundle(None);
    let r = ChibiwasmInstance::new("test".to_string(), &cfg, &ConfigSource::Absent);
    assert_eq!(r.unwrap_err(), ShimError::MissingBundle);
}

#[test]
fn new_captures_configuration_and_resolves_root() {
    let cfg = config_with_bundle(Some("/bundle"));
    let src = ConfigSource::Found(r#"{"root":{"path":"/a/b"}}"#.to_string());
    let inst = ChibiwasmInstance::new("test".to_string(), &cfg, &src).unwrap();
    assert_eq!(inst.id, "test");
    assert_eq!(inst.bundle, "/bundle");
    assert_eq!(inst.rootdir, "/a/b/test_namespace");
    assert_eq!(inst.stdin, "");
    assert_eq!(inst.stdout, "/tmp/out");
    assert_eq!(inst.stderr, "/tmp/err");
}

#[test]
fn new_fails_on_malformed_config() {
    let cfg = config_with_bundle(Some("/bundle"));
    let src = ConfigSource::Found("nonsense".to_string());
    let r = ChibiwasmInstance::new("test".to_string(), &cfg, &src);
    assert_eq!(r.unwrap_err(), ShimError::ConfigError);
}

#[test]
fn delete_of_missing_state_is_idempotent() {
    // Never-started or already-deleted: the existence probe reports missing
    // state both times, and both runs finish successfully at once.
    let first = delete_step(&DeleteEvent::StateMissing);
    let second = delete_step(&DeleteEvent::StateMissing);
    assert_eq!(first, DeleteStep::Finished(Ok(DeleteOutcome::AlreadyAbsent)));
    assert_eq!(second, DeleteStep::Finished(Ok(DeleteOutcome::AlreadyAbsent)));
}

#[test]
fn delete_after_successful_delete_succeeds_again() {
    // First run: state present, loadable, removed.
    assert_eq!(delete_step(&DeleteEvent::FoundState), DeleteStep::LoadState);
    assert_eq!(delete_step(&DeleteEvent::StateLoaded), DeleteStep::RemoveState);
    assert_eq!(
        delete_step(&DeleteEvent::Removed),
        DeleteStep::Finished(Ok(DeleteOutcome::Deleted))
    );
    // Second run: the state is gone now.
    assert_eq!(
        delete_step(&DeleteEvent::StateMissing),
        DeleteStep::Finished(Ok(DeleteOutcome::AlreadyAbsent))
    );
}

#[test]
fn unreadable_state_is_skipped_not_failed() {
    assert_eq!(
        delete_step(&DeleteEvent::CheckFailed),
        DeleteStep::Finished(Ok(DeleteOutcome::SkippedUnreadable))
    );
    assert_eq!(
        delete_step(&DeleteEvent::LoadFailed),
        DeleteStep::Finished(Ok(DeleteOutcome::SkippedUnreadable))
    );
}

#[test]
fn failed_removal_propagates_the_error() {
    assert_eq!(
        delete_step(&DeleteEvent::RemoveFailed),
        DeleteStep::Finished(Err(ShimError::DeleteFailed))
    );
}

#[test]
fn unresolvable_state_root_propagates_the_error() {
    assert_eq!(
        delete_step(&DeleteEvent::RootUnresolvable),
        DeleteStep::Finished(Err(ShimError::DeleteFailed))
    );
}

#[test]
fn engine_handle_is_constructible() {
    let engine = Engine::new_engine();
    let other = engine.clone();
    let _ = other;
    let _ = Engine::default();
}
