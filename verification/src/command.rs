//! Command lines of the node binary, and the names of the files the harness
//! reads and writes in the network's working directory.

use vstd::prelude::*;
use vstd::string::*;
use crate::error::HarnessError;
use crate::text::{decimal, push_decimal};

verus! {

/// Environment variable that overrides where the node binary is looked for.
pub const BINARY_ENV_VAR: &'static str = "MYSO_BINARY";

/// Name under which the node binary is looked up on the search path.
pub const BINARY_NAME: &'static str = "myso";

/// Program that looks a name up on the search path.
pub const LOOKUP_PROGRAM: &'static str = "which";

/// The generated network configuration, inside the working directory.
pub const NETWORK_CONFIG_FILE: &'static str = "network.yaml";

/// The generated client configuration, inside the working directory.
pub const CLIENT_CONFIG_FILE: &'static str = "client.yaml";

/// Where the node's standard output goes, inside the working directory.
pub const STDOUT_FILE: &'static str = "out.stdout";

/// Where the node's standard error goes, inside the working directory.
pub const STDERR_FILE: &'static str = "out.stderr";

/// One argument of a command line. Paths are named, not spelled out: the
/// caller, which knows the directories, puts them in.
#[derive(Clone, Debug, PartialEq, Eq)]
pub enum CliArg {
    /// The text itself.
    Literal(String),
    /// The network's working directory.
    WorkingDir,
    /// The file of this name inside the working directory.
    WorkingDirFile(String),
    /// The source directory of the package to build.
    PackageDir,
}

/// A command-line argument as a mathematical value.
pub enum Arg {
    Literal(Seq<char>),
    WorkingDir,
    WorkingDirFile(Seq<char>),
    PackageDir,
}

impl View for CliArg {
    type V = Arg;

    open spec fn view(&self) -> Arg {
        match *self {
            CliArg::Literal(text) => Arg::Literal(text@),
            CliArg::WorkingDir => Arg::WorkingDir,
            CliArg::WorkingDirFile(name) => Arg::WorkingDirFile(name@),
            CliArg::PackageDir => Arg::PackageDir,
        }
    }
}

/// The arguments that a list of `CliArg` stands for.
pub open spec fn args_of(args: Seq<CliArg>) -> Seq<Arg> {
    args.map_values(|arg: CliArg| arg@)
}

/// `genesis --working-dir <dir> --epoch-duration-ms <n> --committee-size <n>
/// --with-faucet`
pub open spec fn genesis_line(epoch_duration_ms: u64, num_validators: usize) -> Seq<Arg> {
    seq![
        Arg::Literal("genesis"@),
        Arg::Literal("--working-dir"@),
        Arg::WorkingDir,
        Arg::Literal("--epoch-duration-ms"@),
        Arg::Literal(decimal(epoch_duration_ms as nat)),
        Arg::Literal("--committee-size"@),
        Arg::Literal(decimal(num_validators as nat)),
        Arg::Literal("--with-faucet"@),
    ]
}

/// `start --network.config <dir> --fullnode-rpc-port <port>`
pub open spec fn start_line(rpc_port: u16) -> Seq<Arg> {
    seq![
        Arg::Literal("start"@),
        Arg::Literal("--network.config"@),
        Arg::WorkingDir,
        Arg::Literal("--fullnode-rpc-port"@),
        Arg::Literal(decimal(rpc_port as nat)),
    ]
}

/// `move --client.config <dir>/client.yaml -p <package> build -e testnet
/// --dump-bytecode-as-base64`
pub open spec fn build_line() -> Seq<Arg> {
    seq![
        Arg::Literal("move"@),
        Arg::Literal("--client.config"@),
        Arg::WorkingDirFile(CLIENT_CONFIG_FILE@),
        Arg::Literal("-p"@),
        Arg::PackageDir,
        Arg::Literal("build"@),
        Arg::Literal("-e"@),
        Arg::Literal("testnet"@),
        Arg::Literal("--dump-bytecode-as-base64"@),
    ]
}

/// The address at which a node started on `rpc_port` answers.
pub open spec fn rpc_url_text(rpc_port: u16) -> Seq<char> {
    "http://127.0.0.1:"@ + decimal(rpc_port as nat)
}

fn literal(text: &str) -> (arg: CliArg)
    ensures
        arg@ == Arg::Literal(text@),
{
    CliArg::Literal(text.to_owned())
}

fn number(n: u64) -> (arg: CliArg)
    ensures
        arg@ == Arg::Literal(decimal(n as nat)),
{
    let mut text = String::new();
    push_decimal(&mut text, n);
    assert(text@ =~= decimal(n as nat));
    CliArg::Literal(text)
}

/// Arguments of the genesis subcommand.
pub fn genesis_args(epoch_duration_ms: u64, num_validators: usize) -> (args: Vec<CliArg>)
    ensures
        args_of(args@) == genesis_line(epoch_duration_ms, num_validators),
{
    let mut args: Vec<CliArg> = Vec::new();
    args.push(literal("genesis"));
    args.push(literal("--working-dir"));
    args.push(CliArg::WorkingDir);
    args.push(literal("--epoch-duration-ms"));
    args.push(number(epoch_duration_ms));
    args.push(literal("--committee-size"));
    args.push(number(num_validators as u64));
    args.push(literal("--with-faucet"));
    assert(args_of(args@) =~= genesis_line(epoch_duration_ms, num_validators));
    args
}

/// Arguments of the subcommand that starts the network on `rpc_port`.
pub fn start_args(rpc_port: u16) -> (args: Vec<CliArg>)
    ensures
        args_of(args@) == start_line(rpc_port),
{
    let mut args: Vec<CliArg> = Vec::new();
    args.push(literal("start"));
    args.push(literal("--network.config"));
    args.push(CliArg::WorkingDir);
    args.push(literal("--fullnode-rpc-port"));
    args.push(number(rpc_port as u64));
    assert(args_of(args@) =~= start_line(rpc_port));
    args
}

/// Arguments of the subcommand that compiles a package and prints its
/// modules in Base64.
pub fn build_package_args() -> (args: Vec<CliArg>)
    ensures
        args_of(args@) == build_line(),
{
    let mut args: Vec<CliArg> = Vec::new();
    args.push(literal("move"));
    args.push(literal("--client.config"));
    args.push(CliArg::WorkingDirFile(CLIENT_CONFIG_FILE.to_owned()));
    args.push(literal("-p"));
    args.push(CliArg::PackageDir);
    args.push(literal("build"));
    args.push(literal("-e"));
    args.push(literal("testnet"));
    args.push(literal("--dump-bytecode-as-base64"));
    assert(args_of(args@) =~= build_line());
    args
}

/// The address of the node's RPC endpoint on the loopback interface.
pub fn rpc_url(rpc_port: u16) -> (url: String)
    ensures
        url@ == rpc_url_text(rpc_port),
{
    let mut url = "http://127.0.0.1:".to_owned();
    push_decimal(&mut url, rpc_port as u64);
    url
}

/// Judges the exit status of the genesis subcommand.
pub fn genesis_status(success: bool) -> (outcome: Result<(), HarnessError>)
    ensures
        outcome is Ok <==> success,
        outcome matches Err(e) ==> e == HarnessError::GenesisFailure,
{
    if success {
        Ok(())
    } else {
        Err(HarnessError::GenesisFailure)
    }
}

/// The error for a node process that could not be started, with the
/// operating system's reason.
pub fn spawn_failure(reason: String) -> (e: HarnessError)
    ensures
        e matches HarnessError::ProcessSpawnFailure { reason: r } && r@ == reason@,
{
    HarnessError::ProcessSpawnFailure { reason }
}

} // verus!
