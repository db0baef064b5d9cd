//! Choosing what the `wrun` command does from its arguments.
use vstd::prelude::*;

verus! {

/// The execution environment in which a method is run.
#[derive(Clone, Copy, Debug, PartialEq, Eq, Structural)]
pub enum InstanceType {
    /// The wasmtime engine directly.
    Wasmtime,
    /// The IC wasmtime embedder.
    Embedder,
    /// The IC execution environment.
    Execenv,
    /// PocketIc.
    PocketIc,
    /// A testnet.
    Testnet,
}

/// The runner that handles a request, with what it needs.
pub enum Runner {
    Wasmtime,
    Embedder,
    Execenv,
    PocketIc,
    /// Deploy to the testnet at `url`; `use_mainnet` says whether the root
    /// key is the mainnet's, so that it need not be fetched.
    Testnet { url: String, use_mainnet: bool },
}

/// The testnet used when no URL is given: a replica listening on the
/// local host.
pub const DEFAULT_TESTNET_URL: &'static str = "https://[::1]:8080";

/// What the process does, chosen by the flags among its arguments.
#[derive(Clone, Copy, Debug, PartialEq, Eq, Structural)]
pub enum LaunchMode {
    /// Run as a canister sandbox.
    CanisterSandbox,
    /// Run as the sandbox launcher.
    SandboxLauncher,
    /// Run as a compiler sandbox.
    CompilerSandbox,
    /// Run the command line tool.
    Cli,
}

/// Whether some string of `args` is `flag`.
pub open spec fn has_arg(args: Seq<String>, flag: Seq<char>) -> bool {
    exists|i: int| 0 <= i < args.len() && #[trigger] args[i]@ == flag
}

/// The launch mode for `args`: the canister sandbox flag wins over the
/// launcher flag, which wins over the compiler flag; with none of them the
/// command line tool runs.
pub open spec fn launch_mode_of(
    args: Seq<String>,
    canister_flag: Seq<char>,
    launcher_flag: Seq<char>,
    compiler_flag: Seq<char>,
) -> LaunchMode {
    if has_arg(args, canister_flag) {
        LaunchMode::CanisterSandbox
    } else if has_arg(args, launcher_flag) {
        LaunchMode::SandboxLauncher
    } else if has_arg(args, compiler_flag) {
        LaunchMode::CompilerSandbox
    } else {
        LaunchMode::Cli
    }
}

/// Whether `a` and `b` hold the same characters.
pub fn str_eq(a: &str, b: &str) -> (res: bool)
    ensures
        res == (a@ == b@),
{
    let n = a.unicode_len();
    if n != b.unicode_len() {
        return false;
    }
    let mut i: usize = 0;
    while i < n
        invariant
            n == a@.len(),
            n == b@.len(),
            i <= n,
            forall|j: int| 0 <= j < i ==> a@[j] == b@[j],
        decreases n - i,
    {
        if a.get_char(i) != b.get_char(i) {
            return false;
        }
        i = i + 1;
    }
    assert(a@ =~= b@);
    true
}

/// Whether some string of `args` is `flag`.
pub fn contains_arg(args: &[String], flag: &str) -> (res: bool)
    ensures
        res == has_arg(args@, flag@),
{
    let mut i: usize = 0;
    while i < args.len()
        invariant
            i <= args@.len(),
            forall|j: int| 0 <= j < i ==> #[trigger] args@[j]@ != flag@,
        decreases args.len() - i,
    {
        if str_eq(args[i].as_str(), flag) {
            return true;
        }
        i = i + 1;
    }
    false
}

/// The launch mode for the process arguments `args`, given the three
/// sandbox flags.
pub fn launch_mode(args: &[String], canister_flag: &str, launcher_flag: &str, compiler_flag: &str) -> (res: LaunchMode)
    ensures
        res == launch_mode_of(args@, canister_flag@, launcher_flag@, compiler_flag@),
        (exists|i: int| 0 <= i < args@.len() && #[trigger] args@[i]@ == canister_flag@) <==> res
            == LaunchMode::CanisterSandbox,
        res == LaunchMode::SandboxLauncher <==> (exists|i: int|
            0 <= i < args@.len() && #[trigger] args@[i]@ == launcher_flag@) && !(exists|i: int|
            0 <= i < args@.len() && #[trigger] args@[i]@ == canister_flag@),
        res == LaunchMode::Cli <==> (forall|i: int|
            0 <= i < args@.len() ==> #[trigger] args@[i]@ != canister_flag@ && args@[i]@
                != launcher_flag@ && args@[i]@ != compiler_flag@),
{
    if contains_arg(args, canister_flag) {
        LaunchMode::CanisterSandbox
    } else if contains_arg(args, launcher_flag) {
        LaunchMode::SandboxLauncher
    } else if contains_arg(args, compiler_flag) {
        LaunchMode::CompilerSandbox
    } else {
        LaunchMode::Cli
    }
}

/// The runner for `instance_type`. The testnet is the one at `url`, or at
/// `DEFAULT_TESTNET_URL` when no URL is given; its root key is fetched, as
/// for any network other than mainnet.
pub fn select_runner(instance_type: InstanceType, url: Option<String>) -> (res: Runner)
    ensures
        match instance_type {
            InstanceType::Wasmtime => res is Wasmtime,
            InstanceType::Embedder => res is Embedder,
            InstanceType::Execenv => res is Execenv,
            InstanceType::PocketIc => res is PocketIc,
            InstanceType::Testnet => res matches Runner::Testnet { url: v, use_mainnet } && !use_mainnet
                && v@ == match url {
                Some(u) => u@,
                None => DEFAULT_TESTNET_URL@,
            },
        },
{
    match instance_type {
        InstanceType::Wasmtime => Runner::Wasmtime,
        InstanceType::Embedder => Runner::Embedder,
        InstanceType::Execenv => Runner::Execenv,
        InstanceType::PocketIc => Runner::PocketIc,
        InstanceType::Testnet => match url {
            Some(u) => Runner::Testnet { url: u, use_mainnet: false },
            None => {
                let mut u = String::new();
                u.append(DEFAULT_TESTNET_URL);
                Runner::Testnet { url: u, use_mainnet: false }
            },
        },
    }
}

proof fn lemma_has_arg_insert(args: Seq<String>, at: int, extra: String, flag: Seq<char>)
    requires
        0 <= at <= args.len(),
        extra@ != flag,
    ensures
        has_arg(args.insert(at, extra), flag) == has_arg(args, flag),
{
    let longer = args.insert(at, extra);
    if has_arg(args, flag) {
        let i = choose|i: int| 0 <= i < args.len() && #[trigger] args[i]@ == flag;
        let j = if i < at { i } else { i + 1 };
        assert(longer[j] == args[i]);
    }
    if has_arg(longer, flag) {
        let j = choose|j: int| 0 <= j < longer.len() && #[trigger] longer[j]@ == flag;
        assert(j != at);
        let i = if j < at { j } else { j - 1 };
        assert(longer[j] == args[i]);
    }
}

/// Only the flags among the arguments decide the launch mode: putting an
/// argument that is none of the three flags anywhere among the others
/// leaves the mode as it was.
pub proof fn law_other_arguments_do_not_matter(
    args: Seq<String>,
    at: int,
    extra: String,
    canister_flag: Seq<char>,
    launcher_flag: Seq<char>,
    compiler_flag: Seq<char>,
)
    requires
        0 <= at <= args.len(),
        extra@ != canister_flag,
        extra@ != launcher_flag,
        extra@ != compiler_flag,
    ensures
        launch_mode_of(args.insert(at, extra), canister_flag, launcher_flag, compiler_flag)
            == launch_mode_of(args, canister_flag, launcher_flag, compiler_flag),
{
    lemma_has_arg_insert(args, at, extra, canister_flag);
    lemma_has_arg_insert(args, at, extra, launcher_flag);
    lemma_has_arg_insert(args, at, extra, compiler_flag);
}

/// A flag anywhere among the arguments selects its mode: the canister
/// sandbox flag wins, then the launcher flag, then the compiler flag; with
/// none of them the command line tool runs.
pub proof fn law_flag_anywhere_selects(
    args: Seq<String>,
    i: int,
    canister_flag: Seq<char>,
    launcher_flag: Seq<char>,
    compiler_flag: Seq<char>,
)
    requires
        0 <= i < args.len(),
    ensures
        args[i]@ == canister_flag ==> launch_mode_of(args, canister_flag, launcher_flag, compiler_flag)
            == LaunchMode::CanisterSandbox,
        (args[i]@ == launcher_flag && launch_mode_of(args, canister_flag, launcher_flag, compiler_flag)
            != LaunchMode::CanisterSandbox) ==> launch_mode_of(args, canister_flag, launcher_flag, compiler_flag)
            == LaunchMode::SandboxLauncher,
        args[i]@ == compiler_flag ==> launch_mode_of(args, canister_flag, launcher_flag, compiler_flag)
            != LaunchMode::Cli,
{
}

} // verus!
