use wrun::wasmtime::{run_on_engine, update_export, RunError};

/// The run's outcome without the record of the call.
fn run_instance(wasm: Vec<u8>, method: String) -> Result<(), RunError> {
    wrun::wasmtime::run_instance(wasm, method).map(|_| ())
}

/// A module that exports `canister_update <name>` as a function `() -> ()`
/// whose body is `body` (without the final `end`).
fn module_exporting(name: &str, body: &[u8]) -> Vec<u8> {
    let export = format!("canister_update {}", name);
    let mut m = vec![0x00, 0x61, 0x73, 0x6d, 0x01, 0x00, 0x00, 0x00];
    m.extend_from_slice(&[0x01, 0x04, 0x01, 0x60, 0x00, 0x00]);
    m.extend_from_slice(&[0x03, 0x02, 0x01, 0x00]);
    let mut exp = vec![0x01, export.len() as u8];
    exp.extend_from_slice(export.as_bytes());
    exp.extend_from_slice(&[0x00, 0x00]);
    m.push(0x07);
    m.push(exp.len() as u8);
    m.extend_from_slice(&exp);
    let mut code_body = vec![0x00];
    code_body.extend_from_slice(body);
    code_body.push(0x0b);
    let mut code = vec![0x01, code_body.len() as u8];
    code.extend_from_slice(&code_body);
    m.push(0x0a);
    m.push(code.len() as u8);
    m.extend_from_slice(&code);
    m
}

#[test]
fn export_name() {
    assert_eq!(update_export("inc"), "canister_update inc");
    assert_eq!(update_export(""), "canister_update ");
}

#[test]
fn runs_noop_method() {
    assert_eq!(run_instance(module_exporting("noop", &[]), "noop".to_string()), Ok(()));
}

#[test]
fn trap_is_not_reported() {
    // `unreachable` traps when called.
    assert_eq!(run_instance(module_exporting("boom", &[0x00]), "boom".to_string()), Ok(()));
}

#[test]
fn missing_method_is_a_lookup_error() {
    let r = run_instance(module_exporting("noop", &[]), "inc".to_string());
    assert_eq!(r, Err(RunError::FunctionLookup));
    assert_eq!(RunError::FunctionLookup.message(), "Wasmtime: failed to get function");
    assert_eq!(
        RunError::FunctionLookup.report("inc"),
        "Wasmtime: failed to get function: canister_update inc"
    );
    assert_eq!(RunError::ModuleCreation.report("inc"), "Wasmtime: failed to create module");
}

#[test]
fn invalid_bytes_are_a_module_error() {
    let r = run_instance(vec![1, 2, 3, 4], "noop".to_string());
    assert_eq!(r, Err(RunError::ModuleCreation));
    assert_eq!(RunError::ModuleCreation.message(), "Wasmtime: failed to create module");
}

#[test]
fn imports_are_not_provided() {
    // (module (import "ic0" "msg_reply" (func)))
    let mut m = vec![0x00, 0x61, 0x73, 0x6d, 0x01, 0x00, 0x00, 0x00];
    m.extend_from_slice(&[0x01, 0x04, 0x01, 0x60, 0x00, 0x00]);
    let mut imp = vec![0x01, 0x03];
    imp.extend_from_slice(b"ic0");
    imp.push(0x09);
    imp.extend_from_slice(b"msg_reply");
    imp.extend_from_slice(&[0x00, 0x00]);
    m.push(0x02);
    m.push(imp.len() as u8);
    m.extend_from_slice(&imp);
    assert_eq!(run_instance(m, "noop".to_string()), Err(RunError::Instantiation));
    assert_eq!(RunError::Instantiation.message(), "Wasmtime: failed to instantiate module");
}

#[test]
fn bytes_without_module_header_are_refused() {
    // Version 2 of the binary format is unknown.
    let r = run_instance(vec![0x00, 0x61, 0x73, 0x6d, 0x02, 0x00, 0x00, 0x00], "noop".to_string());
    assert_eq!(r, Err(RunError::ModuleCreation));
    // A component header is not a core module.
    let r = run_instance(vec![0x00, 0x61, 0x73, 0x6d, 0x0d, 0x00, 0x01, 0x00], "noop".to_string());
    assert_eq!(r, Err(RunError::ModuleCreation));
    // Too short to hold a header.
    assert_eq!(run_instance(vec![0x00, 0x61, 0x73], "noop".to_string()), Err(RunError::ModuleCreation));
    // The header alone is an empty module, which has no such export.
    let r = run_instance(vec![0x00, 0x61, 0x73, 0x6d, 0x01, 0x00, 0x00, 0x00], "noop".to_string());
    assert_eq!(r, Err(RunError::FunctionLookup));
}

#[test]
fn readme_examples_through_text() {
    let noop = wrun::wat_source::module_from_source(
        br#"(module (func $noop) (export "canister_update noop" (func $noop)))"#,
    )
    .unwrap();
    assert_eq!(run_instance(noop, "noop".to_string()), Ok(()));
    let counter = wrun::wat_source::module_from_source(
        br#"(module
  (import "ic0" "msg_reply" (func $msg_reply))
  (memory (export "memory") 1)
  (func $inc (call $msg_reply))
  (export "canister_update inc" (func $inc)))"#,
    )
    .unwrap();
    assert_eq!(run_instance(counter, "inc".to_string()), Err(RunError::Instantiation));
    let typed = wrun::wat_source::module_from_source(
        br#"(module (func $f (param i32)) (export "canister_update f" (func $f)))"#,
    )
    .unwrap();
    assert_eq!(run_instance(typed, "f".to_string()), Err(RunError::FunctionLookup));
}

#[test]
fn text_modules_are_compiled_first() {
    let text = br#"(module (func $noop) (export "canister_update noop" (func $noop)))"#.to_vec();
    assert_eq!(run_instance(text, "noop".to_string()), Ok(()));
    assert_eq!(run_instance(b"(module (func".to_vec(), "noop".to_string()), Err(RunError::ModuleCreation));
}

#[test]
fn engine_failure_is_reported_as_such() {
    let failed: Result<wasmtime::Engine, wasmtime::Error> = Err(wasmtime::Error::msg("no engine"));
    assert!(matches!(
        run_on_engine(failed, module_exporting("noop", &[]), "noop".to_string()),
        Err(RunError::EngineCreation)
    ));
    let engine = wasmtime::Engine::new(&wasmtime::Config::default());
    assert!(engine.is_ok());
    assert!(matches!(
        run_on_engine(engine, vec![0x00, 0x61, 0x73, 0x6d, 0x09, 0x00, 0x00, 0x00], "noop".to_string()),
        Err(RunError::ModuleCreation)
    ));
    let engine = wasmtime::Engine::new(&wasmtime::Config::default());
    assert!(matches!(
        run_on_engine(engine, vec![0xff, 0xfe, 0xfd], "noop".to_string()),
        Err(RunError::ModuleCreation)
    ));
}
