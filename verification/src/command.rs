//! The command lines with which the compiler and the wallet tool are run, and
//! what is read out of their output.

use crate::artifact::{account_path, account_path_of, keystore_path, keystore_path_of};
use crate::text::{split, split_str, trim, trim_str};
use vstd::prelude::*;
use vstd::string::*;

verus! {

/// One run of an external tool: its name, its arguments in order, and the
/// directory in which it runs.
#[derive(Clone, Debug, PartialEq, Eq)]
pub struct Invocation {
    pub tool: String,
    pub args: Vec<String>,
    pub working_dir: String,
}

/// An [`Invocation`] as plain sequences of characters.
pub ghost struct InvocationModel {
    pub tool: Seq<char>,
    pub args: Seq<Seq<char>>,
    pub working_dir: Seq<char>,
}

impl View for Invocation {
    type V = InvocationModel;

    open spec fn view(&self) -> InvocationModel {
        InvocationModel {
            tool: self.tool@,
            args: self.args.deep_view(),
            working_dir: self.working_dir@,
        }
    }
}

/// What a finished tool run left behind.
#[derive(Clone, Debug, PartialEq, Eq)]
pub struct StageResult {
    pub stdout: String,
    pub stderr: String,
    pub exit_code: i32,
}

/// A [`StageResult`] as plain values.
pub ghost struct StageResultModel {
    pub stdout: Seq<char>,
    pub stderr: Seq<char>,
    pub exit_code: int,
}

impl View for StageResult {
    type V = StageResultModel;

    open spec fn view(&self) -> StageResultModel {
        StageResultModel {
            stdout: self.stdout@,
            stderr: self.stderr@,
            exit_code: self.exit_code as int,
        }
    }
}

impl StageResult {
    /// Whether the tool reported success, that is exit code 0.
    pub fn is_success(&self) -> (ok: bool)
        ensures
            ok == (self@.exit_code == 0),
    {
        self.exit_code == 0
    }
}

/// Name of the contract compiler.
pub open spec fn compiler_tool() -> Seq<char> {
    "scarb"@
}

/// Name of the wallet and deployment tool.
pub open spec fn wallet_tool() -> Seq<char> {
    "starkli"@
}

/// The directory from which the pipeline itself was started.
pub open spec fn current_dir() -> Seq<char> {
    "."@
}

/// Compiling: `build`, run in the project directory.
pub open spec fn compile_invocation(project_path: Seq<char>) -> InvocationModel {
    InvocationModel { tool: compiler_tool(), args: seq!["build"@], working_dir: project_path }
}

/// Creating the keystore: `signer keystore from-key <keystore>`.
pub open spec fn keystore_invocation(working_dir: Seq<char>) -> InvocationModel {
    InvocationModel {
        tool: wallet_tool(),
        args: seq!["signer"@, "keystore"@, "from-key"@, keystore_path_of(working_dir)],
        working_dir: current_dir(),
    }
}

/// Fetching the account: `account fetch <address> --rpc <url> --output <account>`.
pub open spec fn fetch_invocation(
    wallet_address: Seq<char>,
    rpc_endpoint: Seq<char>,
    working_dir: Seq<char>,
) -> InvocationModel {
    InvocationModel {
        tool: wallet_tool(),
        args: seq![
            "account"@,
            "fetch"@,
            wallet_address,
            "--rpc"@,
            rpc_endpoint,
            "--output"@,
            account_path_of(working_dir),
        ],
        working_dir: current_dir(),
    }
}

/// Declaring: `declare <artifact> --rpc <url> --account <account> --keystore <keystore>`.
pub open spec fn declare_invocation(
    artifact: Seq<char>,
    rpc_endpoint: Seq<char>,
    working_dir: Seq<char>,
) -> InvocationModel {
    InvocationModel {
        tool: wallet_tool(),
        args: seq![
            "declare"@,
            artifact,
            "--rpc"@,
            rpc_endpoint,
            "--account"@,
            account_path_of(working_dir),
            "--keystore"@,
            keystore_path_of(working_dir),
        ],
        working_dir: current_dir(),
    }
}

/// Deploying: `deploy <class hash> <tokens...> --account <account> --rpc <url>
/// --keystore <keystore>`, run in the working directory, so that the two files
/// are named without it. Every token is an argument of its own, in order.
pub open spec fn deploy_invocation(
    class_hash: Seq<char>,
    tokens: Seq<Seq<char>>,
    rpc_endpoint: Seq<char>,
    working_dir: Seq<char>,
) -> InvocationModel {
    InvocationModel {
        tool: wallet_tool(),
        args: seq!["deploy"@, class_hash] + tokens + seq![
            "--account"@,
            "account0_account.json"@,
            "--rpc"@,
            rpc_endpoint,
            "--keystore"@,
            "account0_keystore.json"@,
        ],
        working_dir: working_dir,
    }
}

/// Appends a copy of `text` to `args`.
fn push_text(args: &mut Vec<String>, text: &str)
    ensures
        final(args).deep_view() == old(args).deep_view().push(text@),
{
    let ghost before = args.deep_view();
    args.push(text.to_owned());
    assert(args.deep_view() =~= before.push(text@));
}

/// A fresh, empty argument list.
fn no_args() -> (args: Vec<String>)
    ensures
        args.deep_view() == Seq::<Seq<char>>::empty(),
{
    let args: Vec<String> = Vec::new();
    assert(args.deep_view() =~= Seq::<Seq<char>>::empty());
    args
}

/// The command line that compiles the project at `project_path`.
pub fn compile_command(project_path: &str) -> (inv: Invocation)
    ensures
        inv@ == compile_invocation(project_path@),
{
    let mut args = no_args();
    push_text(&mut args, "build");
    assert(args.deep_view() =~= seq!["build"@]);
    Invocation { tool: "scarb".to_owned(), args, working_dir: project_path.to_owned() }
}

/// The command line that creates the keystore below `working_dir`.
pub fn keystore_command(working_dir: &str) -> (inv: Invocation)
    ensures
        inv@ == keystore_invocation(working_dir@),
{
    let keystore = keystore_path(working_dir);
    let mut args = no_args();
    push_text(&mut args, "signer");
    push_text(&mut args, "keystore");
    push_text(&mut args, "from-key");
    push_text(&mut args, keystore.as_str());
    assert(args.deep_view() =~= keystore_invocation(working_dir@).args);
    Invocation { tool: "starkli".to_owned(), args, working_dir: ".".to_owned() }
}

/// The command line that fetches the account of `wallet_address` from the
/// network and writes its descriptor below `working_dir`.
pub fn fetch_command(wallet_address: &str, rpc_endpoint: &str, working_dir: &str) -> (inv:
    Invocation)
    ensures
        inv@ == fetch_invocation(wallet_address@, rpc_endpoint@, working_dir@),
{
    let account = account_path(working_dir);
    let mut args = no_args();
    push_text(&mut args, "account");
    push_text(&mut args, "fetch");
    push_text(&mut args, wallet_address);
    push_text(&mut args, "--rpc");
    push_text(&mut args, rpc_endpoint);
    push_text(&mut args, "--output");
    push_text(&mut args, account.as_str());
    assert(args.deep_view() =~= fetch_invocation(
        wallet_address@,
        rpc_endpoint@,
        working_dir@,
    ).args);
    Invocation { tool: "starkli".to_owned(), args, working_dir: ".".to_owned() }
}

/// The command line that declares the compiled artifact at `artifact`.
pub fn declare_command(artifact: &str, rpc_endpoint: &str, working_dir: &str) -> (inv: Invocation)
    ensures
        inv@ == declare_invocation(artifact@, rpc_endpoint@, working_dir@),
{
    let account = account_path(working_dir);
    let keystore = keystore_path(working_dir);
    let mut args = no_args();
    push_text(&mut args, "declare");
    push_text(&mut args, artifact);
    push_text(&mut args, "--rpc");
    push_text(&mut args, rpc_endpoint);
    push_text(&mut args, "--account");
    push_text(&mut args, account.as_str());
    push_text(&mut args, "--keystore");
    push_text(&mut args, keystore.as_str());
    assert(args.deep_view() =~= declare_invocation(artifact@, rpc_endpoint@, working_dir@).args);
    Invocation { tool: "starkli".to_owned(), args, working_dir: ".".to_owned() }
}

/// The command line that deploys an instance of the class `class_hash` with
/// the constructor tokens `tokens`.
pub fn deploy_command(
    class_hash: &str,
    tokens: &Vec<String>,
    rpc_endpoint: &str,
    working_dir: &str,
) -> (inv: Invocation)
    ensures
        inv@ == deploy_invocation(class_hash@, tokens.deep_view(), rpc_endpoint@, working_dir@),
{
    let mut args = no_args();
    push_text(&mut args, "deploy");
    push_text(&mut args, class_hash);
    let ghost head = args.deep_view();
    let n = tokens.len();
    let mut i: usize = 0;
    assert(tokens.deep_view().take(0) =~= Seq::<Seq<char>>::empty());
    assert(head + Seq::<Seq<char>>::empty() =~= head);
    while i < n
        invariant
            i <= n,
            n == tokens.len(),
            args.deep_view() == head + tokens.deep_view().take(i as int),
        decreases n - i,
    {
        push_text(&mut args, tokens[i].as_str());
        proof {
            assert(tokens.deep_view()[i as int] == tokens@[i as int]@);
            assert(tokens.deep_view().take(i + 1) =~= tokens.deep_view().take(i as int).push(
                tokens@[i as int]@,
            ));
        }
        i += 1;
    }
    assert(tokens.deep_view().take(n as int) =~= tokens.deep_view());
    push_text(&mut args, "--account");
    push_text(&mut args, "account0_account.json");
    push_text(&mut args, "--rpc");
    push_text(&mut args, rpc_endpoint);
    push_text(&mut args, "--keystore");
    push_text(&mut args, "account0_keystore.json");
    assert(args.deep_view() =~= deploy_invocation(
        class_hash@,
        tokens.deep_view(),
        rpc_endpoint@,
        working_dir@,
    ).args);
    Invocation { tool: "starkli".to_owned(), args, working_dir: working_dir.to_owned() }
}

/// The first of `lines` that is not blank, trimmed.
pub open spec fn first_meaningful(lines: Seq<Seq<char>>) -> Option<Seq<char>>
    decreases lines.len(),
{
    if lines.len() == 0 {
        None
    } else if trim(lines[0]).len() > 0 {
        Some(trim(lines[0]))
    } else {
        first_meaningful(lines.drop_first())
    }
}

/// The class hash that the output of a declare run reports: its first line
/// that is not blank, without surrounding whitespace.
pub open spec fn class_hash_in(stdout: Seq<char>) -> Option<Seq<char>> {
    first_meaningful(split(stdout, '\n'))
}

/// Reads the class hash out of the output of a declare run. `None` when the
/// output holds nothing but whitespace.
pub fn extract_class_hash(stdout: &str) -> (hash: Option<String>)
    ensures
        hash.deep_view() == class_hash_in(stdout@),
        hash matches Some(h) ==> h@.len() > 0,
{
    let lines = split_str(stdout, '\n');
    let n = lines.len();
    let mut i: usize = 0;
    assert(lines.deep_view().skip(0) =~= lines.deep_view());
    while i < n
        invariant
            i <= n,
            n == lines.len(),
            lines.deep_view() == split(stdout@, '\n'),
            class_hash_in(stdout@) == first_meaningful(lines.deep_view().skip(i as int)),
        decreases n - i,
    {
        let line = trim_str(lines[i].as_str());
        proof {
            let rest = lines.deep_view().skip(i as int);
            assert(rest[0] == lines@[i as int]@);
            assert(rest.drop_first() =~= lines.deep_view().skip(i + 1));
        }
        if !line.is_empty() {
            return Some(line.to_owned());
        }
        i += 1;
    }
    None
}

} // verus!
