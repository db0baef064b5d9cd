//! Deployment of a Wasm module to a testnet canister, as a state machine.
//!
//! The caller performs each returned action against the network and hands
//! the outcome back as an event. The steps are: fetch the root key (not on
//! mainnet), create a canister with cycles, upload the module in chunks,
//! install the chunked code, and call the method.
use vstd::prelude::*;

verus! {

/// The largest chunk, in bytes, in which a module is uploaded.
pub const CHUNK_SIZE: usize = 900_000;

/// The cycles with which the canister is created: half of `u64::MAX`.
pub const CANISTER_CYCLES: u64 = 9_223_372_036_854_775_807;

/// A name for the SHA-256 digest of `data`.
pub uninterp spec fn sha256_of(data: Seq<u8>) -> Seq<u8>;

/// Trusted: `<sha2::Sha256 as sha2::Digest>::digest`, the SHA-256 digest
/// of `data`; its output type holds 32 bytes.
#[verifier::external_body]
fn sha256(data: &[u8]) -> (res: Vec<u8>)
    ensures
        res@ == sha256_of(data@),
        res@.len() == 32,
{
    <::sha2::Sha256 as ::sha2::Digest>::digest(data).to_vec()
}

/// The SHA-256 digest of a module, as the install call carries it.
pub fn module_hash(wasm: &[u8]) -> (res: Vec<u8>)
    ensures
        res@ == sha256_of(wasm@),
        res@.len() == 32,
{
    sha256(wasm)
}

/// `s` cut into pieces of `n` bytes, the last one shorter when `n` does
/// not divide the length; no piece when `s` is empty.
pub open spec fn chunked(s: Seq<u8>, n: nat) -> Seq<Seq<u8>>
    decreases s.len(),
{
    if s.len() == 0 || n == 0 {
        Seq::empty()
    } else if s.len() <= n {
        seq![s]
    } else {
        seq![s.take(n as int)] + chunked(s.skip(n as int), n)
    }
}

/// The pieces of `chunks` put back together.
pub open spec fn concat_chunks(chunks: Seq<Seq<u8>>) -> Seq<u8>
    decreases chunks.len(),
{
    if chunks.len() == 0 {
        Seq::empty()
    } else {
        chunks[0] + concat_chunks(chunks.skip(1))
    }
}

/// The byte strings held in `v`.
pub open spec fn byte_seqs(v: Seq<Vec<u8>>) -> Seq<Seq<u8>> {
    Seq::new(v.len(), |i: int| v[i]@)
}

/// A copy of `s`.
pub fn copy_bytes(s: &[u8]) -> (res: Vec<u8>)
    ensures
        res@ == s@,
{
    let mut out: Vec<u8> = Vec::new();
    let mut i: usize = 0;
    while i < s.len()
        invariant
            i <= s@.len(),
            out@ == s@.take(i as int),
        decreases s.len() - i,
    {
        out.push(s[i]);
        i = i + 1;
        assert(out@ =~= s@.take(i as int));
    }
    assert(s@.take(i as int) =~= s@);
    out
}

/// The bytes `s[from..to]`.
fn copy_range(s: &[u8], from: usize, to: usize) -> (res: Vec<u8>)
    requires
        from <= to <= s@.len(),
    ensures
        res@ == s@.subrange(from as int, to as int),
{
    let mut out: Vec<u8> = Vec::new();
    let mut i: usize = from;
    while i < to
        invariant
            from <= i <= to,
            to <= s@.len(),
            out@ == s@.subrange(from as int, i as int),
        decreases to - i,
    {
        out.push(s[i]);
        i = i + 1;
        assert(out@ =~= s@.subrange(from as int, i as int));
    }
    out
}

proof fn lemma_chunked_from(s: Seq<u8>, n: nat, start: nat)
    requires
        n > 0,
        start <= s.len(),
        start % n == 0,
    ensures
        chunked(s.skip(start as int), n).len() > 0 ==> chunked(s.skip(start as int), n)[0]
            == s.subrange(start as int, if start + n <= s.len() { (start + n) as int } else { s.len() as int }),
        start + n < s.len() ==> chunked(s.skip(start as int), n) == seq![
            s.subrange(start as int, (start + n) as int),
        ] + chunked(s.skip((start + n) as int), n),
{
    let t = s.skip(start as int);
    if t.len() > 0 {
        if t.len() <= n {
            assert(t =~= s.subrange(start as int, s.len() as int));
        } else {
            assert(t.take(n as int) =~= s.subrange(start as int, (start + n) as int));
            assert(t.skip(n as int) =~= s.skip((start + n) as int));
        }
    }
}

/// The module cut into upload chunks of `CHUNK_SIZE` bytes, in order.
pub fn wasm_chunks(wasm: &[u8]) -> (chunks: Vec<Vec<u8>>)
    ensures
        byte_seqs(chunks@) == chunked(wasm@, CHUNK_SIZE as nat),
{
    let mut chunks: Vec<Vec<u8>> = Vec::new();
    let mut start: usize = 0;
    let len = wasm.len();
    let ghost n = CHUNK_SIZE as nat;
    assert(wasm@.skip(0) =~= wasm@);
    assert(byte_seqs(chunks@) =~= Seq::<Seq<u8>>::empty());
    while start < len
        invariant
            len == wasm@.len(),
            n == CHUNK_SIZE as nat,
            start <= len,
            start % CHUNK_SIZE == 0 || start == len,
            byte_seqs(chunks@) + chunked(wasm@.skip(start as int), n) == chunked(wasm@, n),
        decreases len - start,
    {
        proof {
            lemma_chunked_from(wasm@, n, start as nat);
        }
        let end = if len - start > CHUNK_SIZE { start + CHUNK_SIZE } else { len };
        let piece = copy_range(wasm, start, end);
        let ghost before = byte_seqs(chunks@);
        chunks.push(piece);
        proof {
            assert(byte_seqs(chunks@) =~= before.push(wasm@.subrange(start as int, end as int)));
            if end < len {
                assert(chunked(wasm@.skip(start as int), n) == seq![
                    wasm@.subrange(start as int, end as int),
                ] + chunked(wasm@.skip(end as int), n));
                assert(before.push(wasm@.subrange(start as int, end as int)) + chunked(
                    wasm@.skip(end as int),
                    n,
                ) =~= before + chunked(wasm@.skip(start as int), n));
            } else {
                assert(wasm@.skip(start as int).len() <= n);
                assert(wasm@.skip(start as int) =~= wasm@.subrange(start as int, end as int));
                assert(wasm@.skip(end as int) =~= Seq::<u8>::empty());
                assert(chunked(wasm@.skip(end as int), n) =~= Seq::<Seq<u8>>::empty());
                assert(before.push(wasm@.subrange(start as int, end as int)) + chunked(
                    wasm@.skip(end as int),
                    n,
                ) =~= before + chunked(wasm@.skip(start as int), n));
            }
        }
        proof {
            if end < len {
                let a = start as int;
                assert((a + 900_000) % 900_000 == 0) by (nonlinear_arith)
                    requires
                        a % 900_000 == 0,
                ;
            }
        }
        start = end;
    }
    proof {
        assert(wasm@.skip(len as int) =~= Seq::<u8>::empty());
        assert(byte_seqs(chunks@) + Seq::<Seq<u8>>::empty() =~= byte_seqs(chunks@));
    }
    chunks
}

} // verus!

verus! {

/// Why a deployment stopped.
#[derive(Clone, Copy, Debug, PartialEq, Eq, Structural)]
pub enum DeployError {
    /// The root key of the testnet could not be fetched.
    RootKey,
    /// The canister could not be created.
    CanisterCreation,
    /// A chunk could not be uploaded.
    ChunkUpload,
    /// The chunked code could not be installed.
    Installation,
    /// An event came that does not answer the pending action.
    UnexpectedEvent,
}

/// How the code is installed.
#[derive(Clone, Copy, Debug, PartialEq, Eq, Structural)]
pub enum InstallMode {
    Install,
    Reinstall,
    Upgrade,
}

/// The arguments of an `install_chunked_code` call; canister ids are
/// given by the bytes of their principals.
pub struct InstallChunkedCode {
    pub mode: InstallMode,
    pub target_canister: Vec<u8>,
    pub store_canister: Option<Vec<u8>>,
    pub chunk_hashes_list: Vec<Vec<u8>>,
    pub wasm_module_hash: Vec<u8>,
    pub arg: Vec<u8>,
    pub sender_canister_version: Option<u64>,
}

/// Where a deployment stands.
pub enum Phase {
    FetchingRootKey,
    CreatingCanister,
    UploadingChunks { canister: Vec<u8> },
    Installing { canister: Vec<u8> },
    Calling,
    Finished,
    Failed { error: DeployError },
}

/// A deployment of `wasm` whose method `method` is called once installed.
pub struct Deployment {
    pub wasm: Vec<u8>,
    pub method: String,
    pub phase: Phase,
}

/// The outcome of the last action, as the network answered it.
pub enum Event {
    /// Whether the root key was fetched.
    RootKeyFetched { ok: bool },
    /// The principal bytes of the created canister, or `None` on failure.
    CanisterCreated { canister: Option<Vec<u8>> },
    /// The hashes of the uploaded chunks in upload order, or `None` when an
    /// upload failed.
    ChunksUploaded { hashes: Option<Vec<Vec<u8>>> },
    /// Whether the code was installed.
    CodeInstalled { ok: bool },
    /// The method was called; its outcome does not matter.
    MethodCalled,
}

/// What the caller does next.
pub enum Action {
    FetchRootKey,
    CreateCanister { cycles: u64 },
    UploadChunks { canister: Vec<u8>, chunks: Vec<Vec<u8>> },
    InstallCode { args: InstallChunkedCode },
    CallMethod { canister: Vec<u8>, method: String },
    Done,
    Abort { error: DeployError },
}

/// The arguments of an install call, over plain sequences.
pub struct InstallModel {
    pub mode: InstallMode,
    pub target_canister: Seq<u8>,
    pub store_canister: Option<Seq<u8>>,
    pub chunk_hashes_list: Seq<Seq<u8>>,
    pub wasm_module_hash: Seq<u8>,
    pub arg: Seq<u8>,
    pub sender_canister_version: Option<u64>,
}

/// A phase over plain sequences.
pub enum PhaseModel {
    FetchingRootKey,
    CreatingCanister,
    UploadingChunks { canister: Seq<u8> },
    Installing { canister: Seq<u8> },
    Calling,
    Finished,
    Failed { error: DeployError },
}

/// A deployment over plain sequences.
pub struct DeploymentModel {
    pub wasm: Seq<u8>,
    pub method: Seq<char>,
    pub phase: PhaseModel,
}

/// An event over plain sequences.
pub enum EventModel {
    RootKeyFetched { ok: bool },
    CanisterCreated { canister: Option<Seq<u8>> },
    ChunksUploaded { hashes: Option<Seq<Seq<u8>>> },
    CodeInstalled { ok: bool },
    MethodCalled,
}

/// An action over plain sequences.
pub enum ActionModel {
    FetchRootKey,
    CreateCanister { cycles: u64 },
    UploadChunks { canister: Seq<u8>, chunks: Seq<Seq<u8>> },
    InstallCode { args: InstallModel },
    CallMethod { canister: Seq<u8>, method: Seq<char> },
    Done,
    Abort { error: DeployError },
}

/// The bytes held in an optional byte vector.
pub open spec fn opt_bytes(o: Option<Vec<u8>>) -> Option<Seq<u8>> {
    match o {
        Some(v) => Some(v@),
        None => None,
    }
}

impl View for InstallChunkedCode {
    type V = InstallModel;

    open spec fn view(&self) -> InstallModel {
        InstallModel {
            mode: self.mode,
            target_canister: self.target_canister@,
            store_canister: opt_bytes(self.store_canister),
            chunk_hashes_list: byte_seqs(self.chunk_hashes_list@),
            wasm_module_hash: self.wasm_module_hash@,
            arg: self.arg@,
            sender_canister_version: self.sender_canister_version,
        }
    }
}

impl View for Phase {
    type V = PhaseModel;

    open spec fn view(&self) -> PhaseModel {
        match self {
            Phase::FetchingRootKey => PhaseModel::FetchingRootKey,
            Phase::CreatingCanister => PhaseModel::CreatingCanister,
            Phase::UploadingChunks { canister } => PhaseModel::UploadingChunks {
                canister: canister@,
            },
            Phase::Installing { canister } => PhaseModel::Installing { canister: canister@ },
            Phase::Calling => PhaseModel::Calling,
            Phase::Finished => PhaseModel::Finished,
            Phase::Failed { error } => PhaseModel::Failed { error: *error },
        }
    }
}

impl View for Deployment {
    type V = DeploymentModel;

    open spec fn view(&self) -> DeploymentModel {
        DeploymentModel { wasm: self.wasm@, method: self.method@, phase: self.phase@ }
    }
}

impl View for Event {
    type V = EventModel;

    open spec fn view(&self) -> EventModel {
        match self {
            Event::RootKeyFetched { ok } => EventModel::RootKeyFetched { ok: *ok },
            Event::CanisterCreated { canister } => EventModel::CanisterCreated {
                canister: opt_bytes(*canister),
            },
            Event::ChunksUploaded { hashes } => EventModel::ChunksUploaded {
                hashes: match hashes {
                    Some(h) => Some(byte_seqs(h@)),
                    None => None,
                },
            },
            Event::CodeInstalled { ok } => EventModel::CodeInstalled { ok: *ok },
            Event::MethodCalled => EventModel::MethodCalled,
        }
    }
}

impl View for Action {
    type V = ActionModel;

    open spec fn view(&self) -> ActionModel {
        match self {
            Action::FetchRootKey => ActionModel::FetchRootKey,
            Action::CreateCanister { cycles } => ActionModel::CreateCanister { cycles: *cycles },
            Action::UploadChunks { canister, chunks } => ActionModel::UploadChunks {
                canister: canister@,
                chunks: byte_seqs(chunks@),
            },
            Action::InstallCode { args } => ActionModel::InstallCode { args: args@ },
            Action::CallMethod { canister, method } => ActionModel::CallMethod {
                canister: canister@,
                method: method@,
            },
            Action::Done => ActionModel::Done,
            Action::Abort { error } => ActionModel::Abort { error: *error },
        }
    }
}

/// The install arguments for `wasm` on `canister`: reinstall the code
/// from chunks stored on the canister itself, listed by `hashes` in
/// upload order, with the module's hash and an empty argument.
pub open spec fn install_model(canister: Seq<u8>, hashes: Seq<Seq<u8>>, wasm: Seq<u8>) -> InstallModel {
    InstallModel {
        mode: InstallMode::Reinstall,
        target_canister: canister,
        store_canister: Some(canister),
        chunk_hashes_list: hashes,
        wasm_module_hash: sha256_of(wasm),
        arg: Seq::empty(),
        sender_canister_version: None,
    }
}

/// The first step of a deployment: on mainnet the root key is known and
/// the canister is created at once; elsewhere the root key is fetched
/// first.
pub open spec fn start_model(wasm: Seq<u8>, method: Seq<char>, use_mainnet: bool) -> (
    DeploymentModel,
    ActionModel,
) {
    if use_mainnet {
        (
            DeploymentModel { wasm, method, phase: PhaseModel::CreatingCanister },
            ActionModel::CreateCanister { cycles: CANISTER_CYCLES },
        )
    } else {
        (
            DeploymentModel { wasm, method, phase: PhaseModel::FetchingRootKey },
            ActionModel::FetchRootKey,
        )
    }
}

/// The step of a deployment `d` on `event`: the next deployment and what
/// to do next. A failed answer aborts; an event that does not answer the
/// pending action aborts too; a finished or failed deployment stays as it
/// is.
pub open spec fn step_model(d: DeploymentModel, event: EventModel) -> (DeploymentModel, ActionModel) {
    let fail = |e: DeployError|
        (
            DeploymentModel { phase: PhaseModel::Failed { error: e }, ..d },
            ActionModel::Abort { error: e },
        );
    match d.phase {
        PhaseModel::FetchingRootKey => match event {
            EventModel::RootKeyFetched { ok } => if ok {
                (
                    DeploymentModel { phase: PhaseModel::CreatingCanister, ..d },
                    ActionModel::CreateCanister { cycles: CANISTER_CYCLES },
                )
            } else {
                fail(DeployError::RootKey)
            },
            _ => fail(DeployError::UnexpectedEvent),
        },
        PhaseModel::CreatingCanister => match event {
            EventModel::CanisterCreated { canister } => match canister {
                Some(c) => (
                    DeploymentModel { phase: PhaseModel::UploadingChunks { canister: c }, ..d },
                    ActionModel::UploadChunks {
                        canister: c,
                        chunks: chunked(d.wasm, CHUNK_SIZE as nat),
                    },
                ),
                None => fail(DeployError::CanisterCreation),
            },
            _ => fail(DeployError::UnexpectedEvent),
        },
        PhaseModel::UploadingChunks { canister } => match event {
            EventModel::ChunksUploaded { hashes } => match hashes {
                Some(h) => (
                    DeploymentModel { phase: PhaseModel::Installing { canister }, ..d },
                    ActionModel::InstallCode { args: install_model(canister, h, d.wasm) },
                ),
                None => fail(DeployError::ChunkUpload),
            },
            _ => fail(DeployError::UnexpectedEvent),
        },
        PhaseModel::Installing { canister } => match event {
            EventModel::CodeInstalled { ok } => if ok {
                (
                    DeploymentModel { phase: PhaseModel::Calling, ..d },
                    ActionModel::CallMethod { canister, method: d.method },
                )
            } else {
                fail(DeployError::Installation)
            },
            _ => fail(DeployError::UnexpectedEvent),
        },
        PhaseModel::Calling => match event {
            EventModel::MethodCalled => (
                DeploymentModel { phase: PhaseModel::Finished, ..d },
                ActionModel::Done,
            ),
            _ => fail(DeployError::UnexpectedEvent),
        },
        PhaseModel::Finished => (d, ActionModel::Done),
        PhaseModel::Failed { error } => (d, ActionModel::Abort { error }),
    }
}

impl Deployment {
    /// Starts deploying `wasm` and calling `method` on a testnet (or on
    /// mainnet, where the root key need not be fetched).
    pub fn start(wasm: Vec<u8>, method: String, use_mainnet: bool) -> (res: (Deployment, Action))
        ensures
            (res.0@, res.1@) == start_model(wasm@, method@, use_mainnet),
    {
        if use_mainnet {
            (
                Deployment { wasm, method, phase: Phase::CreatingCanister },
                Action::CreateCanister { cycles: CANISTER_CYCLES },
            )
        } else {
            (Deployment { wasm, method, phase: Phase::FetchingRootKey }, Action::FetchRootKey)
        }
    }

    fn fail(&mut self, error: DeployError) -> (res: Action)
        ensures
            final(self)@ == (DeploymentModel {
                phase: PhaseModel::Failed { error },
                ..old(self)@
            }),
            res@ == (ActionModel::Abort { error }),
    {
        self.phase = Phase::Failed { error };
        Action::Abort { error }
    }

    /// Takes the outcome of the last action and returns the next one.
    pub fn advance(&mut self, event: Event) -> (res: Action)
        ensures
            (final(self)@, res@) == step_model(old(self)@, event@),
    {
        match &self.phase {
            Phase::FetchingRootKey => match event {
                Event::RootKeyFetched { ok } => {
                    if ok {
                        self.phase = Phase::CreatingCanister;
                        Action::CreateCanister { cycles: CANISTER_CYCLES }
                    } else {
                        self.fail(DeployError::RootKey)
                    }
                },
                _ => self.fail(DeployError::UnexpectedEvent),
            },
            Phase::CreatingCanister => match event {
                Event::CanisterCreated { canister } => match canister {
                    Some(c) => {
                        let chunks = wasm_chunks(self.wasm.as_slice());
                        let kept = copy_bytes(c.as_slice());
                        self.phase = Phase::UploadingChunks { canister: kept };
                        Action::UploadChunks { canister: c, chunks }
                    },
                    None => self.fail(DeployError::CanisterCreation),
                },
                _ => self.fail(DeployError::UnexpectedEvent),
            },
            Phase::UploadingChunks { canister } => match event {
                Event::ChunksUploaded { hashes } => match hashes {
                    Some(h) => {
                        let target = copy_bytes(canister.as_slice());
                        let store = copy_bytes(canister.as_slice());
                        let kept = copy_bytes(canister.as_slice());
                        let wasm_module_hash = module_hash(self.wasm.as_slice());
                        let args = InstallChunkedCode {
                            mode: InstallMode::Reinstall,
                            target_canister: target,
                            store_canister: Some(store),
                            chunk_hashes_list: h,
                            wasm_module_hash,
                            arg: Vec::new(),
                            sender_canister_version: None,
                        };
                        self.phase = Phase::Installing { canister: kept };
                        proof {
                            assert(args@.arg =~= Seq::<u8>::empty());
                        }
                        Action::InstallCode { args }
                    },
                    None => self.fail(DeployError::ChunkUpload),
                },
                _ => self.fail(DeployError::UnexpectedEvent),
            },
            Phase::Installing { canister } => match event {
                Event::CodeInstalled { ok } => {
                    if ok {
                        let target = copy_bytes(canister.as_slice());
                        let method = self.method.clone();
                        self.phase = Phase::Calling;
                        Action::CallMethod { canister: target, method }
                    } else {
                        self.fail(DeployError::Installation)
                    }
                },
                _ => self.fail(DeployError::UnexpectedEvent),
            },
            Phase::Calling => match event {
                Event::MethodCalled => {
                    self.phase = Phase::Finished;
                    Action::Done
                },
                _ => self.fail(DeployError::UnexpectedEvent),
            },
            Phase::Finished => Action::Done,
            Phase::Failed { error } => Action::Abort { error: *error },
        }
    }
}

} // verus!

verus! {

/// Cutting `s` into chunks of `n > 0` bytes loses and reorders nothing:
/// the chunks put back together give `s`; every chunk but the last has
/// exactly `n` bytes, the last one between 1 and `n`; and there is no chunk
/// only when `s` is empty.
pub proof fn law_chunks_reassemble(s: Seq<u8>, n: nat)
    requires
        n > 0,
    ensures
        concat_chunks(chunked(s, n)) == s,
        forall|i: int| 0 <= i < chunked(s, n).len() - 1 ==> (#[trigger] chunked(s, n)[i]).len() == n,
        chunked(s, n).len() > 0 ==> 0 < chunked(s, n).last().len() <= n,
        (chunked(s, n).len() == 0) == (s.len() == 0),
    decreases s.len(),
{
    let c = chunked(s, n);
    if s.len() == 0 {
    } else if s.len() <= n {
        assert(c.skip(1) =~= Seq::<Seq<u8>>::empty());
        assert(concat_chunks(c.skip(1)) == Seq::<u8>::empty());
        assert(s + Seq::<u8>::empty() =~= s);
    } else {
        let rest = s.skip(n as int);
        law_chunks_reassemble(rest, n);
        let r = chunked(rest, n);
        assert(c == seq![s.take(n as int)] + r);
        assert(c.skip(1) =~= r);
        assert(s.take(n as int) + rest =~= s);
        assert forall|i: int| 0 <= i < c.len() - 1 implies (#[trigger] c[i]).len() == n by {
            if i > 0 {
                assert(c[i] == r[i - 1]);
            }
        }
        assert(c.last() == r.last());
    }
}

/// A deployment never changes its module or its method.
pub proof fn law_deployment_keeps_module(d: DeploymentModel, event: EventModel)
    ensures
        step_model(d, event).0.wasm == d.wasm,
        step_model(d, event).0.method == d.method,
{
}

/// A finished deployment stays finished and answers every event with
/// `Done`; a failed one stays failed and answers every event by aborting
/// with the same error.
pub proof fn law_terminal_phases_absorb(d: DeploymentModel, event: EventModel)
    ensures
        d.phase is Finished ==> step_model(d, event) == (d, ActionModel::Done),
        d.phase matches PhaseModel::Failed { error } ==> step_model(d, event) == (
            d,
            ActionModel::Abort { error },
        ),
{
}

/// When every action succeeds, a deployment fetches the root key (unless
/// on mainnet), creates a canister with half of `u64::MAX` cycles, uploads
/// the module cut into chunks, installs the code from those chunks by the
/// hashes that the upload returned with the module's SHA-256 digest, calls
/// the method on the new canister, and finishes.
pub proof fn law_successful_deployment(
    wasm: Seq<u8>,
    method: Seq<char>,
    use_mainnet: bool,
    canister: Seq<u8>,
    hashes: Seq<Seq<u8>>,
)
    ensures
        !use_mainnet ==> start_model(wasm, method, use_mainnet).1 == ActionModel::FetchRootKey,
        ({
            let s0 = start_model(wasm, method, use_mainnet);
            let s1 = if use_mainnet {
                s0
            } else {
                step_model(s0.0, EventModel::RootKeyFetched { ok: true })
            };
            let s2 = step_model(s1.0, EventModel::CanisterCreated { canister: Some(canister) });
            let s3 = step_model(s2.0, EventModel::ChunksUploaded { hashes: Some(hashes) });
            let s4 = step_model(s3.0, EventModel::CodeInstalled { ok: true });
            let s5 = step_model(s4.0, EventModel::MethodCalled);
            &&& s1.1 == ActionModel::CreateCanister { cycles: CANISTER_CYCLES }
            &&& s2.1 == ActionModel::UploadChunks {
                canister,
                chunks: chunked(wasm, CHUNK_SIZE as nat),
            }
            &&& s3.1 == ActionModel::InstallCode { args: install_model(canister, hashes, wasm) }
            &&& s4.1 == ActionModel::CallMethod { canister, method }
            &&& s5.1 == ActionModel::Done
            &&& s5.0.phase == PhaseModel::Finished
        }),
{
}

/// A failed answer stops the deployment: whatever the phase, an event that
/// reports a failure leaves it failed and the next action aborts.
pub proof fn law_failure_aborts(d: DeploymentModel, event: EventModel)
    requires
        !(d.phase is Finished),
        (event matches EventModel::RootKeyFetched { ok } && !ok) || (event matches EventModel::CanisterCreated { canister } && canister is None)
            || (event matches EventModel::ChunksUploaded { hashes } && hashes is None) || (
        event matches EventModel::CodeInstalled { ok } && !ok),
    ensures
        step_model(d, event).0.phase is Failed,
        step_model(d, event).1 is Abort,
{
}

} // verus!
