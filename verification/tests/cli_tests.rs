use wrun::cli::{launch_mode, select_runner, str_eq, InstanceType, LaunchMode, Runner, DEFAULT_TESTNET_URL};

#[test]
fn runners_without_url() {
    assert!(matches!(select_runner(InstanceType::Wasmtime, None), Runner::Wasmtime));
    assert!(matches!(select_runner(InstanceType::Embedder, None), Runner::Embedder));
    assert!(matches!(select_runner(InstanceType::Execenv, None), Runner::Execenv));
    assert!(matches!(select_runner(InstanceType::PocketIc, Some("x".to_string())), Runner::PocketIc));
}

#[test]
fn testnet_url_given_or_default() {
    match select_runner(InstanceType::Testnet, Some("https://[::1]:4943".to_string())) {
        Runner::Testnet { url, use_mainnet } => {
            assert_eq!(url, "https://[::1]:4943");
            assert!(!use_mainnet);
        }
        _ => panic!("testnet runner expected"),
    }
    match select_runner(InstanceType::Testnet, None) {
        Runner::Testnet { url, use_mainnet } => {
            assert_eq!(url, DEFAULT_TESTNET_URL);
            assert_eq!(url, "https://[::1]:8080");
            assert!(!use_mainnet);
        }
        _ => panic!("testnet runner expected"),
    }
}

#[test]
fn launch_modes() {
    let args = |v: &[&str]| v.iter().map(|s| s.to_string()).collect::<Vec<String>>();
    assert_eq!(launch_mode(&args(&["wrun", "a.wat", "inc"]), "--c", "--l", "--p"), LaunchMode::Cli);
    assert_eq!(launch_mode(&args(&["wrun", "--p"]), "--c", "--l", "--p"), LaunchMode::CompilerSandbox);
    assert_eq!(launch_mode(&args(&["wrun", "--p", "--l"]), "--c", "--l", "--p"), LaunchMode::SandboxLauncher);
    assert_eq!(launch_mode(&args(&["--l", "--c"]), "--c", "--l", "--p"), LaunchMode::CanisterSandbox);
    assert_eq!(launch_mode(&args(&["--cc"]), "--c", "--l", "--p"), LaunchMode::Cli);
}

#[test]
fn string_equality() {
    assert!(str_eq("abc", "abc"));
    assert!(!str_eq("abc", "abd"));
    assert!(!str_eq("abc", "ab"));
    assert!(str_eq("", ""));
}
