use wrun::testnet::{
    copy_bytes, module_hash, wasm_chunks, Action, DeployError, Deployment, Event, InstallMode, Phase,
    CANISTER_CYCLES, CHUNK_SIZE,
};

fn hex(b: &[u8]) -> String {
    b.iter().map(|x| format!("{:02x}", x)).collect()
}

#[test]
fn chunks_of_empty_module() {
    assert!(wasm_chunks(&[]).is_empty());
}

#[test]
fn chunks_split_at_chunk_size() {
    let wasm: Vec<u8> = (0..(2 * CHUNK_SIZE + 1)).map(|i| (i % 251) as u8).collect();
    let chunks = wasm_chunks(&wasm);
    assert_eq!(chunks.len(), 3);
    assert_eq!(chunks[0].len(), 900_000);
    assert_eq!(chunks[1].len(), 900_000);
    assert_eq!(chunks[2].len(), 1);
    assert_eq!(chunks.concat(), wasm);
    let exact: Vec<u8> = vec![7; CHUNK_SIZE];
    assert_eq!(wasm_chunks(&exact).len(), 1);
    assert_eq!(wasm_chunks(&[1, 2, 3]), vec![vec![1, 2, 3]]);
}

#[test]
fn module_hash_is_sha256() {
    assert_eq!(hex(&module_hash(b"abc")), "ba7816bf8f01cfea414140de5dae2223b00361a396177a9cb410ff61f20015ad");
    assert_eq!(hex(&module_hash(b"")), "e3b0c44298fc1c149afbf4c8996fb92427ae41e4649b934ca495991b7852b855");
    assert_eq!(copy_bytes(&[4, 5]), vec![4, 5]);
}

#[test]
fn successful_deployment_on_testnet() {
    let wasm = vec![0u8, 97, 115, 109, 1, 0, 0, 0];
    let (mut d, a) = Deployment::start(wasm.clone(), "inc".to_string(), false);
    assert!(matches!(a, Action::FetchRootKey));
    let a = d.advance(Event::RootKeyFetched { ok: true });
    assert!(matches!(a, Action::CreateCanister { cycles } if cycles == u64::MAX / 2));
    assert_eq!(CANISTER_CYCLES, u64::MAX / 2);
    match d.advance(Event::CanisterCreated { canister: Some(vec![1, 2, 3]) }) {
        Action::UploadChunks { canister, chunks } => {
            assert_eq!(canister, vec![1, 2, 3]);
            assert_eq!(chunks, vec![wasm.clone()]);
        }
        _ => panic!("upload expected"),
    }
    match d.advance(Event::ChunksUploaded { hashes: Some(vec![vec![9; 32]]) }) {
        Action::InstallCode { args } => {
            assert_eq!(args.mode, InstallMode::Reinstall);
            assert_eq!(args.target_canister, vec![1, 2, 3]);
            assert_eq!(args.store_canister, Some(vec![1, 2, 3]));
            assert_eq!(args.chunk_hashes_list, vec![vec![9; 32]]);
            assert_eq!(args.wasm_module_hash, module_hash(&wasm));
            assert!(args.arg.is_empty());
            assert_eq!(args.sender_canister_version, None);
        }
        _ => panic!("install expected"),
    }
    match d.advance(Event::CodeInstalled { ok: true }) {
        Action::CallMethod { canister, method } => {
            assert_eq!(canister, vec![1, 2, 3]);
            assert_eq!(method, "inc");
        }
        _ => panic!("call expected"),
    }
    assert!(matches!(d.advance(Event::MethodCalled), Action::Done));
    assert!(matches!(d.phase, Phase::Finished));
    assert!(matches!(d.advance(Event::MethodCalled), Action::Done));
}

#[test]
fn mainnet_skips_root_key() {
    let (d, a) = Deployment::start(vec![], "m".to_string(), true);
    assert!(matches!(a, Action::CreateCanister { .. }));
    assert!(matches!(d.phase, Phase::CreatingCanister));
}

#[test]
fn failures_abort() {
    let (mut d, _) = Deployment::start(vec![1], "m".to_string(), false);
    assert!(matches!(d.advance(Event::RootKeyFetched { ok: false }), Action::Abort { error: DeployError::RootKey }));
    assert!(matches!(d.advance(Event::RootKeyFetched { ok: true }), Action::Abort { error: DeployError::RootKey }));

    let (mut d, _) = Deployment::start(vec![1], "m".to_string(), true);
    assert!(matches!(d.advance(Event::CanisterCreated { canister: None }), Action::Abort { error: DeployError::CanisterCreation }));

    let (mut d, _) = Deployment::start(vec![1], "m".to_string(), true);
    d.advance(Event::CanisterCreated { canister: Some(vec![5]) });
    assert!(matches!(d.advance(Event::ChunksUploaded { hashes: None }), Action::Abort { error: DeployError::ChunkUpload }));

    let (mut d, _) = Deployment::start(vec![1], "m".to_string(), true);
    d.advance(Event::CanisterCreated { canister: Some(vec![5]) });
    d.advance(Event::ChunksUploaded { hashes: Some(vec![]) });
    assert!(matches!(d.advance(Event::CodeInstalled { ok: false }), Action::Abort { error: DeployError::Installation }));
    assert!(matches!(d.phase, Phase::Failed { error: DeployError::Installation }));
}

#[test]
fn unexpected_event_aborts() {
    let (mut d, _) = Deployment::start(vec![1], "m".to_string(), false);
    assert!(matches!(d.advance(Event::MethodCalled), Action::Abort { error: DeployError::UnexpectedEvent }));
}
