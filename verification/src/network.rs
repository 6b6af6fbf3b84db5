//! The network under test: how it is asked for, the order in which it is
//! brought up, and what the harness knows of it once it runs.

use std::path::PathBuf;
use vstd::prelude::*;
use crate::address::Address;
use crate::command::{build_line, genesis_line, start_line, args_of, CliArg};
use crate::error::{Flow, HarnessError};
use crate::keys::PrivateKey;
use crate::package::{decode_build_output, package_outcome, Digest, MoveBuildOutput, Publish};
use crate::transaction::{
    fund_steps, funding_plan, steps_of, upgrade_plan, upgrade_steps, TransactionPlan,
    FINALITY_TIMEOUT_SECS,
};
use crate::validators::{ValidatorKey, ValidatorKeys};

verus! {

/// Number of validators unless asked otherwise.
pub const DEFAULT_NUM_VALIDATORS: usize = 1;

/// Length of an epoch in milliseconds unless asked otherwise.
pub const DEFAULT_EPOCH_DURATION_MS: u64 = 60_000;

/// What every validator account is funded with when the network comes up.
pub const VALIDATOR_GRANT: u64 = 1_000_000 * 1_000_000_000;

/// `std::path::PathBuf`, carried through as it is: nothing is known or
/// claimed of what a path holds.
#[verifier::external_type_specification]
#[verifier::external_body]
pub struct ExPathBuf(std::path::PathBuf);

/// What a network is asked for.
pub struct SuiNetworkBuilder {
    pub num_validators: usize,
    pub epoch_duration_ms: u64,
    /// A node binary to use in place of the one found on the machine.
    pub myso_binary_path: Option<PathBuf>,
}

impl Default for SuiNetworkBuilder {
    fn default() -> (builder: SuiNetworkBuilder)
        ensures
            builder.num_validators == DEFAULT_NUM_VALIDATORS,
            builder.epoch_duration_ms == DEFAULT_EPOCH_DURATION_MS,
            builder.myso_binary_path is None,
    {
        SuiNetworkBuilder {
            num_validators: DEFAULT_NUM_VALIDATORS,
            epoch_duration_ms: DEFAULT_EPOCH_DURATION_MS,
            myso_binary_path: None,
        }
    }
}

impl SuiNetworkBuilder {
    /// Asks for `n` validators.
    pub fn with_num_validators(self, n: usize) -> (builder: SuiNetworkBuilder)
        ensures
            builder.num_validators == n,
            builder.epoch_duration_ms == self.epoch_duration_ms,
            builder.myso_binary_path == self.myso_binary_path,
    {
        let mut builder = self;
        builder.num_validators = n;
        builder
    }

    /// Asks for epochs of `ms` milliseconds.
    pub fn with_epoch_duration_ms(self, ms: u64) -> (builder: SuiNetworkBuilder)
        ensures
            builder.num_validators == self.num_validators,
            builder.epoch_duration_ms == ms,
            builder.myso_binary_path == self.myso_binary_path,
    {
        let mut builder = self;
        builder.epoch_duration_ms = ms;
        builder
    }

    /// Asks for the node binary at `path`.
    pub fn with_binary(self, path: PathBuf) -> (builder: SuiNetworkBuilder)
        ensures
            builder.num_validators == self.num_validators,
            builder.epoch_duration_ms == self.epoch_duration_ms,
            builder.myso_binary_path == Some(path),
    {
        let mut builder = self;
        builder.myso_binary_path = Some(path);
        builder
    }

    /// Arguments of the genesis subcommand for this request.
    pub fn generate_genesis(&self) -> (args: Vec<CliArg>)
        ensures
            args_of(args@) == genesis_line(self.epoch_duration_ms, self.num_validators),
    {
        crate::command::genesis_args(self.epoch_duration_ms, self.num_validators)
    }

    /// Arguments of the subcommand that starts the network on `rpc_port`.
    pub fn start_network(&self, rpc_port: u16) -> (args: Vec<CliArg>)
        ensures
            args_of(args@) == start_line(rpc_port),
    {
        crate::command::start_args(rpc_port)
    }

    /// Begins bringing the network up: the first thing to do is to check
    /// that the node binary is there.
    pub fn build(&self) -> (bootstrap: Bootstrap)
        ensures
            bootstrap.stage == Stage::CheckBinary,
    {
        Bootstrap { stage: Stage::CheckBinary }
    }
}

/// The steps of bringing a network up, in the order in which they are taken,
/// and the two ways in which it ends.
#[derive(Clone, Copy, Debug, PartialEq, Eq)]
pub enum Stage {
    CheckBinary,
    CreateWorkDir,
    Genesis,
    LoadKeys,
    AllocatePort,
    SpawnNetwork,
    Connect,
    AwaitReady,
    UpgradeSystemState,
    FundValidators,
    Done,
    Failed,
}

/// What the caller does next.
#[derive(Clone, Copy, Debug, PartialEq, Eq)]
pub enum BootstrapAction {
    /// Take this step and report how it went.
    Perform(Stage),
    /// Everything succeeded: hand the network to the test.
    Finish,
    /// A step failed: release what was acquired, then report the failure.
    Abort { kill_process: bool, remove_dir: bool },
}

/// Where bringing the network up stands: the step that is being taken.
#[derive(Clone, Copy, Debug, PartialEq, Eq)]
pub struct Bootstrap {
    pub stage: Stage,
}

impl Stage {
    /// The place of a stage in the order of steps.
    pub open spec fn ordinal(self) -> int {
        match self {
            Stage::CheckBinary => 0,
            Stage::CreateWorkDir => 1,
            Stage::Genesis => 2,
            Stage::LoadKeys => 3,
            Stage::AllocatePort => 4,
            Stage::SpawnNetwork => 5,
            Stage::Connect => 6,
            Stage::AwaitReady => 7,
            Stage::UpgradeSystemState => 8,
            Stage::FundValidators => 9,
            Stage::Done => 10,
            Stage::Failed => 11,
        }
    }

    /// Whether the stage is a step to take, not an end.
    pub open spec fn is_step(self) -> bool {
        self.ordinal() < 10
    }

    /// The stage that follows a step that succeeded.
    pub open spec fn following(self) -> Stage {
        match self {
            Stage::CheckBinary => Stage::CreateWorkDir,
            Stage::CreateWorkDir => Stage::Genesis,
            Stage::Genesis => Stage::LoadKeys,
            Stage::LoadKeys => Stage::AllocatePort,
            Stage::AllocatePort => Stage::SpawnNetwork,
            Stage::SpawnNetwork => Stage::Connect,
            Stage::Connect => Stage::AwaitReady,
            Stage::AwaitReady => Stage::UpgradeSystemState,
            Stage::UpgradeSystemState => Stage::FundValidators,
            Stage::FundValidators => Stage::Done,
            Stage::Done => Stage::Done,
            Stage::Failed => Stage::Failed,
        }
    }

    /// Whether the working directory exists while this step is taken.
    pub open spec fn holds_dir(self) -> bool {
        Stage::CreateWorkDir.ordinal() < self.ordinal() < Stage::Done.ordinal()
    }

    /// Whether the node process runs while this step is taken.
    pub open spec fn holds_process(self) -> bool {
        Stage::SpawnNetwork.ordinal() < self.ordinal() < Stage::Done.ordinal()
    }

    /// The stage and the action that follow the outcome of a step.
    pub open spec fn step(self, succeeded: bool) -> (Stage, BootstrapAction) {
        match self {
            Stage::Done => (Stage::Done, BootstrapAction::Finish),
            Stage::Failed => (
                Stage::Failed,
                BootstrapAction::Abort { kill_process: false, remove_dir: false },
            ),
            _ => if !succeeded {
                (
                    Stage::Failed,
                    BootstrapAction::Abort {
                        kill_process: self.holds_process(),
                        remove_dir: self.holds_dir(),
                    },
                )
            } else if self == Stage::FundValidators {
                (Stage::Done, BootstrapAction::Finish)
            } else {
                (self.following(), BootstrapAction::Perform(self.following()))
            },
        }
    }

    /// The stage reached from `self` by a run of outcomes.
    pub open spec fn run(self, outcomes: Seq<bool>) -> Stage
        decreases outcomes.len(),
    {
        if outcomes.len() == 0 {
            self
        } else {
            self.run(outcomes.drop_last()).step(outcomes.last()).0
        }
    }

    fn next(self) -> (stage: Stage)
        ensures
            stage == self.following(),
    {
        match self {
            Stage::CheckBinary => Stage::CreateWorkDir,
            Stage::CreateWorkDir => Stage::Genesis,
            Stage::Genesis => Stage::LoadKeys,
            Stage::LoadKeys => Stage::AllocatePort,
            Stage::AllocatePort => Stage::SpawnNetwork,
            Stage::SpawnNetwork => Stage::Connect,
            Stage::Connect => Stage::AwaitReady,
            Stage::AwaitReady => Stage::UpgradeSystemState,
            Stage::UpgradeSystemState => Stage::FundValidators,
            Stage::FundValidators => Stage::Done,
            Stage::Done => Stage::Done,
            Stage::Failed => Stage::Failed,
        }
    }

    fn owns(self) -> (held: (bool, bool))
        ensures
            held.0 == self.holds_process(),
            held.1 == self.holds_dir(),
    {
        match self {
            Stage::CheckBinary | Stage::CreateWorkDir | Stage::Done | Stage::Failed => (
                false,
                false,
            ),
            Stage::Genesis | Stage::LoadKeys | Stage::AllocatePort | Stage::SpawnNetwork => (
                false,
                true,
            ),
            _ => (true, true),
        }
    }
}

impl Bootstrap {
    /// Takes the outcome of the step in progress and says what to do next.
    /// A success leads to the next step, and after the last one to the end.
    /// A failure ends the bootstrap and says what has to be released: the
    /// working directory once it was made, the node process once it was
    /// started.
    pub fn advance(&mut self, succeeded: bool) -> (action: BootstrapAction)
        ensures
            (final(self).stage, action) == old(self).stage.step(succeeded),
    {
        match self.stage {
            Stage::Done => BootstrapAction::Finish,
            Stage::Failed => BootstrapAction::Abort { kill_process: false, remove_dir: false },
            stage => {
                if !succeeded {
                    let (kill_process, remove_dir) = stage.owns();
                    self.stage = Stage::Failed;
                    BootstrapAction::Abort { kill_process, remove_dir }
                } else {
                    let next = stage.next();
                    self.stage = next;
                    match next {
                        Stage::Done => BootstrapAction::Finish,
                        _ => BootstrapAction::Perform(next),
                    }
                }
            },
        }
    }
}

/// A step is reached only by the success of every step before it: the run
/// that leads to it from the start has one outcome for each earlier step,
/// and all of them are successes.
pub proof fn lemma_step_reached_in_order(outcomes: Seq<bool>)
    requires
        Stage::CheckBinary.run(outcomes).is_step(),
    ensures
        Stage::CheckBinary.run(outcomes).ordinal() == outcomes.len(),
        forall|i: int| 0 <= i < outcomes.len() ==> #[trigger] outcomes[i],
    decreases outcomes.len(),
{
    if outcomes.len() > 0 {
        let front = outcomes.drop_last();
        lemma_step_reached_in_order(front);
        assert forall|i: int| 0 <= i < outcomes.len() implies #[trigger] outcomes[i] by {
            if i < front.len() {
                assert(outcomes[i] == front[i]);
            }
        }
    }
}

/// The validators are funded only after the system state was upgraded, and
/// the network is handed over only after both: the bootstrap is done exactly
/// after ten successes in a row.
pub proof fn lemma_done_after_all_steps(outcomes: Seq<bool>)
    requires
        Stage::CheckBinary.run(outcomes) == Stage::Done,
    ensures
        outcomes.len() >= 10,
        forall|i: int| 0 <= i < 10 ==> #[trigger] outcomes[i],
        Stage::CheckBinary.run(outcomes.take(8)) == Stage::UpgradeSystemState,
        Stage::CheckBinary.run(outcomes.take(9)) == Stage::FundValidators,
    decreases outcomes.len(),
{
    if outcomes.len() > 0 {
        let front = outcomes.drop_last();
        if Stage::CheckBinary.run(front) == Stage::Done {
            lemma_done_after_all_steps(front);
            assert forall|i: int| 0 <= i < 10 implies #[trigger] outcomes[i] by {
                assert(outcomes[i] == front[i]);
            }
            assert(outcomes.take(8) =~= front.take(8));
            assert(outcomes.take(9) =~= front.take(9));
        } else {
            assert(Stage::CheckBinary.run(front) == Stage::FundValidators);
            lemma_step_reached_in_order(front);
            assert(outcomes.take(9) =~= front);
            let earlier = front.drop_last();
            assert(outcomes.take(8) =~= earlier);
            assert(Stage::CheckBinary.run(earlier).is_step());
            assert forall|i: int| 0 <= i < 10 implies #[trigger] outcomes[i] by {
                if i < 9 {
                    assert(outcomes[i] == front[i]);
                }
            }
        }
    }
}

/// No failure leaks the node process or the working directory. A bootstrap
/// that failed did so at one step; the action given for that failure was to
/// abort, and it named the process for killing if the process had been
/// started, and the directory for removal if the directory had been made.
pub proof fn lemma_failure_releases(outcomes: Seq<bool>)
    requires
        Stage::CheckBinary.run(outcomes) == Stage::Failed,
    ensures
        exists|k: int|
            {
                &&& 0 <= k < outcomes.len() && k < 10
                &&& !#[trigger] outcomes[k]
                &&& forall|i: int| 0 <= i < k ==> #[trigger] outcomes[i]
                &&& Stage::CheckBinary.run(outcomes.take(k)).ordinal() == k
                &&& Stage::CheckBinary.run(outcomes.take(k)).step(false).1 == (
                BootstrapAction::Abort {
                    kill_process: k > Stage::SpawnNetwork.ordinal(),
                    remove_dir: k > Stage::CreateWorkDir.ordinal(),
                })
            },
    decreases outcomes.len(),
{
    if outcomes.len() > 0 {
        let front = outcomes.drop_last();
        if Stage::CheckBinary.run(front) == Stage::Failed {
            lemma_failure_releases(front);
            let k = choose|k: int|
                {
                    &&& 0 <= k < front.len() && k < 10
                    &&& !#[trigger] front[k]
                    &&& forall|i: int| 0 <= i < k ==> #[trigger] front[i]
                    &&& Stage::CheckBinary.run(front.take(k)).ordinal() == k
                    &&& Stage::CheckBinary.run(front.take(k)).step(false).1 == (
                    BootstrapAction::Abort {
                        kill_process: k > Stage::SpawnNetwork.ordinal(),
                        remove_dir: k > Stage::CreateWorkDir.ordinal(),
                    })
                };
            assert(outcomes[k] == front[k]);
            assert(outcomes.take(k) =~= front.take(k));
            assert forall|i: int| 0 <= i < k implies #[trigger] outcomes[i] by {
                assert(outcomes[i] == front[i]);
            }
        } else {
            let k = front.len() as int;
            assert(Stage::CheckBinary.run(front).is_step());
            lemma_step_reached_in_order(front);
            assert(outcomes.take(k) =~= front);
            assert(!outcomes[k]);
            assert forall|i: int| 0 <= i < k implies #[trigger] outcomes[i] by {
                assert(outcomes[i] == front[i]);
            }
        }
    }
}

/// What the harness knows of a running network. The node process, the
/// working directory and the RPC client belong to the caller, which keeps
/// them beside this value and releases them with it.
pub struct SuiNetworkHandle {
    /// Address of the node's RPC endpoint.
    pub rpc_url: String,
    pub num_validators: usize,
    pub epoch_duration_ms: u64,
    /// The private key of each validator, by the validator's address.
    pub validator_keys: ValidatorKeys,
    /// The keys of the accounts that genesis funded, in the order of the
    /// generated configuration. The first of them pays for funding.
    pub user_keys: Vec<PrivateKey>,
}

/// The grants due to a list of validators: the standard grant for each, in
/// the order of the list.
pub open spec fn grants(entries: Seq<ValidatorKey>) -> Seq<(Address, u64)> {
    entries.map_values(|entry: ValidatorKey| (entry.address, VALIDATOR_GRANT))
}

impl SuiNetworkHandle {
    /// Puts together what is known of a network that was just started.
    pub fn new(
        builder: &SuiNetworkBuilder,
        rpc_port: u16,
        validator_keys: ValidatorKeys,
        user_keys: Vec<PrivateKey>,
    ) -> (handle: SuiNetworkHandle)
        ensures
            handle.rpc_url@ == crate::command::rpc_url_text(rpc_port),
            handle.num_validators == builder.num_validators,
            handle.epoch_duration_ms == builder.epoch_duration_ms,
            handle.validator_keys == validator_keys,
            handle.user_keys == user_keys,
    {
        SuiNetworkHandle {
            rpc_url: crate::command::rpc_url(rpc_port),
            num_validators: builder.num_validators,
            epoch_duration_ms: builder.epoch_duration_ms,
            validator_keys,
            user_keys,
        }
    }

    /// The transaction that funds `requests`: one coin of the requested
    /// amount for each request, in order, paid for and signed by the first
    /// user account.
    pub fn fund(&self, requests: &[(Address, u64)]) -> (plan: TransactionPlan)
        requires
            self.user_keys@.len() > 0,
            3 * requests@.len() <= usize::MAX,
        ensures
            plan.flow == Flow::Fund,
            plan.signer == self.user_keys@[0],
            plan.finality_timeout_secs == FINALITY_TIMEOUT_SECS,
            steps_of(plan.commands@) == fund_steps(requests@),
    {
        funding_plan(self.user_keys[0], requests)
    }

    /// The transaction that brings the system state to its current
    /// representation, signed by the first user account.
    pub fn upgrade_myso_system_state(&self) -> (plan: TransactionPlan)
        requires
            self.user_keys@.len() > 0,
        ensures
            plan.flow == Flow::SystemStateUpgrade,
            plan.signer == self.user_keys@[0],
            plan.finality_timeout_secs == FINALITY_TIMEOUT_SECS,
            steps_of(plan.commands@) == upgrade_steps(),
    {
        upgrade_plan(self.user_keys[0])
    }

    /// The funding requests that give every validator its grant, in
    /// ascending order of the validators' addresses.
    pub fn validator_grants(&self) -> (requests: Vec<(Address, u64)>)
        ensures
            requests@ == grants(self.validator_keys.ordered()),
    {
        let entries = self.validator_keys.entries();
        let mut requests: Vec<(Address, u64)> = Vec::new();
        let mut i: usize = 0;
        while i < entries.len()
            invariant
                i <= entries@.len(),
                requests@ == grants(entries@.take(i as int)),
            decreases entries@.len() - i,
        {
            requests.push((entries[i].address, VALIDATOR_GRANT));
            assert(requests@ =~= grants(entries@.take(i + 1)));
            i += 1;
        }
        assert(entries@.take(entries@.len() as int) =~= entries@);
        requests
    }

    /// Arguments of the subcommand that compiles a package against this
    /// network's client configuration.
    pub fn build_package_args(&self) -> (args: Vec<CliArg>)
        ensures
            args_of(args@) == build_line(),
    {
        crate::command::build_package_args()
    }

    /// Turns the parsed output of a successful package build into the
    /// package to publish and its digest.
    pub fn build_package(&self, output: MoveBuildOutput) -> (package: Result<
        (Publish, Digest),
        HarnessError,
    >)
        ensures
            package_outcome(output, package),
    {
        decode_build_output(output)
    }
}

} // verus!
