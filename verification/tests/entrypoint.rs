use chibiwasm_shim::entrypoint::{
    invocation_exit_code, parse_entry_point, ChibiwasmExecutor, INTERPRETER_FAILURE_CODE,
};
use chibiwasm_shim::error::ShimError;

#[test]
fn entry_point_with_named_entry() {
    let (module, entry) = parse_entry_point("./hello.wasm#run");
    assert_eq!(module, "./hello.wasm");
    assert_eq!(entry, "run");
}

#[test]
fn entry_point_defaults_to_start_symbol() {
    let (module, entry) = parse_entry_point("./hello.wasm");
    assert_eq!(module, "./hello.wasm");
    assert_eq!(entry, "_start");
}

#[test]
fn entry_point_strips_one_leading_separator() {
    let (module, entry) = parse_entry_point("/hello.wasm#run");
    assert_eq!(module, "hello.wasm");
    assert_eq!(entry, "run");
}

#[test]
fn entry_point_strips_only_one_separator() {
    let (module, entry) = parse_entry_point("//nested/mod.wasm#go");
    assert_eq!(module, "/nested/mod.wasm");
    assert_eq!(entry, "go");
}

#[test]
fn entry_point_keeps_later_hashes() {
    let (module, entry) = parse_entry_point("mod.wasm#a#b");
    assert_eq!(module, "mod.wasm");
    assert_eq!(entry, "a#b");
}

#[test]
fn entry_point_after_trailing_hash_is_empty() {
    let (module, entry) = parse_entry_point("mod.wasm#");
    assert_eq!(module, "mod.wasm");
    assert_eq!(entry, "");
}

#[test]
fn entry_point_of_empty_argument() {
    let (module, entry) = parse_entry_point("");
    assert_eq!(module, "");
    assert_eq!(entry, "_start");
}

#[test]
fn plan_rejects_empty_argument_list() {
    let executor = ChibiwasmExecutor { stdin: None, stdout: None, stderr: None };
    let args: Vec<String> = Vec::new();
    let r = executor.plan(&args);
    assert_eq!(r.unwrap_err(), ShimError::InvalidArgument);
}

#[test]
fn plan_resolves_module_entry_and_descriptors() {
    let executor = ChibiwasmExecutor { stdin: Some(7), stdout: Some(8), stderr: None };
    let args = vec!["./hello.wasm#run".to_string()];
    let plan = executor.plan(&args).unwrap();
    assert_eq!(plan.module, "./hello.wasm");
    assert_eq!(plan.entry_point, "run");
    assert_eq!(plan.stdin_fd, 7);
    assert_eq!(plan.stdout_fd, 8);
    assert_eq!(plan.stderr_fd, 2);
}

#[test]
fn plan_inherits_unset_descriptors() {
    let executor = ChibiwasmExecutor { stdin: None, stdout: None, stderr: None };
    let args = vec!["m.wasm".to_string()];
    let plan = executor.plan(&args).unwrap();
    assert_eq!(plan.stdin_fd, 0);
    assert_eq!(plan.stdout_fd, 1);
    assert_eq!(plan.stderr_fd, 2);
}

#[test]
fn invocation_outcome_maps_to_exit_code() {
    assert_eq!(invocation_exit_code(true), 0);
    assert_eq!(invocation_exit_code(false), 137);
    assert_eq!(INTERPRETER_FAILURE_CODE, 137);
}
