use wrun::wat_source::module_from_source;

#[test]
fn text_is_compiled() {
    let text = br#"(module (func $noop) (export "canister_update noop" (func $noop)))"#;
    let binary = module_from_source(text).unwrap();
    assert_eq!(&binary[0..8], &[0x00, 0x61, 0x73, 0x6d, 0x01, 0x00, 0x00, 0x00]);
    assert!(wrun::wasmtime::run_instance(binary, "noop".to_string()).is_ok());
    let again = module_from_source(text).unwrap();
    assert_eq!(&again[0..8], &[0x00, 0x61, 0x73, 0x6d, 0x01, 0x00, 0x00, 0x00]);
}

#[test]
fn binary_is_kept() {
    let binary = vec![0x00, 0x61, 0x73, 0x6d, 0x01, 0x00, 0x00, 0x00];
    assert_eq!(module_from_source(&binary), Ok(binary.clone()));
    // Only the magic number is looked at.
    let odd = vec![0x00, 0x61, 0x73, 0x6d, 0x09];
    assert_eq!(module_from_source(&odd), Ok(odd.clone()));
}

#[test]
fn bad_text_is_an_error() {
    assert!(module_from_source(b"(module (func").is_err());
    assert!(module_from_source(&[0xff, 0xfe, 0x00]).is_err());
}
