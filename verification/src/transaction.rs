//! The two transactions the harness issues for itself, as lists of builder
//! commands, and what a funding transaction hands to each recipient.

use vstd::prelude::*;
use crate::address::Address;
use crate::error::{Flow, HarnessError};
use crate::keys::PrivateKey;

verus! {

/// Seconds to wait for an executed transaction to reach a checkpoint.
pub const FINALITY_TIMEOUT_SECS: u64 = 10;

/// Field mask sent with every execution request: all fields.
pub const READ_MASK: &'static str = "*";

/// Low byte of the address of the system package.
pub const SYSTEM_PACKAGE: u8 = 3;

/// Low byte of the address of the system state object.
pub const SYSTEM_STATE_OBJECT: u8 = 5;

/// One call on the transaction builder. A command refers to the result of an
/// earlier command by that command's position in the list.
#[derive(Clone, Debug, PartialEq, Eq)]
pub enum BuilderCommand {
    /// A pure input holding an address.
    Pure(Address),
    /// A coin of the native currency with exactly this balance.
    CoinWithBalance(u64),
    /// An object input, by the object's address.
    Object(Address),
    /// Transfers the results at `objects` to the address at `recipient`.
    TransferObjects { objects: Vec<usize>, recipient: usize },
    /// Calls `package::module::function` on the results at `arguments`.
    MoveCall { package: Address, module: String, function: String, arguments: Vec<usize> },
}

/// A builder command as a mathematical value.
pub enum Step {
    Pure(Seq<u8>),
    CoinWithBalance(u64),
    Object(Seq<u8>),
    TransferObjects { objects: Seq<usize>, recipient: usize },
    MoveCall { package: Seq<u8>, module: Seq<char>, function: Seq<char>, arguments: Seq<usize> },
}

impl View for BuilderCommand {
    type V = Step;

    open spec fn view(&self) -> Step {
        match *self {
            BuilderCommand::Pure(address) => Step::Pure(address@),
            BuilderCommand::CoinWithBalance(amount) => Step::CoinWithBalance(amount),
            BuilderCommand::Object(address) => Step::Object(address@),
            BuilderCommand::TransferObjects { objects, recipient } => Step::TransferObjects {
                objects: objects@,
                recipient,
            },
            BuilderCommand::MoveCall { package, module, function, arguments } => Step::MoveCall {
                package: package@,
                module: module@,
                function: function@,
                arguments: arguments@,
            },
        }
    }
}

/// The steps that a list of commands stands for.
pub open spec fn steps_of(commands: Seq<BuilderCommand>) -> Seq<Step> {
    commands.map_values(|command: BuilderCommand| command@)
}

/// A transaction for the application to build, sign, submit and await.
#[derive(Clone, Debug, PartialEq, Eq)]
pub struct TransactionPlan {
    /// Which of the two flows this is; names the failure if it fails.
    pub flow: Flow,
    /// The key that signs; the sender is the address derived from it.
    pub signer: PrivateKey,
    /// The builder calls, in order.
    pub commands: Vec<BuilderCommand>,
    /// Seconds to wait for the transaction to reach a checkpoint.
    pub finality_timeout_secs: u64,
}

/// The three steps that fund one request, `base` steps into the list: the
/// recipient, the coin, and the transfer of that coin to that recipient.
pub open spec fn request_steps(base: nat, request: (Address, u64)) -> Seq<Step> {
    seq![
        Step::Pure(request.0@),
        Step::CoinWithBalance(request.1),
        Step::TransferObjects { objects: seq![(base + 1) as usize], recipient: base as usize },
    ]
}

/// The steps of a funding transaction: for each request in order, its three
/// steps.
pub open spec fn fund_steps(requests: Seq<(Address, u64)>) -> Seq<Step>
    decreases requests.len(),
{
    if requests.len() == 0 {
        Seq::empty()
    } else {
        fund_steps(requests.drop_last()) + request_steps(
            (3 * (requests.len() - 1)) as nat,
            requests.last(),
        )
    }
}

/// The steps of the system-state upgrade: the system state object, and the
/// call that reads the active validator addresses from it.
pub open spec fn upgrade_steps() -> Seq<Step> {
    seq![
        Step::Object(Address::small(SYSTEM_STATE_OBJECT)),
        Step::MoveCall {
            package: Address::small(SYSTEM_PACKAGE),
            module: "myso_system"@,
            function: "active_validator_addresses"@,
            arguments: seq![0usize],
        },
    ]
}

/// The sum of the amounts that `requests` ask for `who`.
pub open spec fn requested(requests: Seq<(Address, u64)>, who: Seq<u8>) -> nat
    decreases requests.len(),
{
    if requests.len() == 0 {
        0
    } else {
        requested(requests.drop_last(), who) + if requests.last().0@ == who {
            requests.last().1 as nat
        } else {
            0
        }
    }
}

/// The number of requests among `requests` that are for `who`.
pub open spec fn requests_for(requests: Seq<(Address, u64)>, who: Seq<u8>) -> nat
    decreases requests.len(),
{
    if requests.len() == 0 {
        0
    } else {
        requests_for(requests.drop_last(), who) + if requests.last().0@ == who {
            1nat
        } else {
            0
        }
    }
}

/// The balance of the coin that the step at `at` makes; zero where that step
/// makes no coin.
pub open spec fn coin_value(steps: Seq<Step>, at: int) -> nat {
    if 0 <= at < steps.len() {
        match steps[at] {
            Step::CoinWithBalance(amount) => amount as nat,
            _ => 0,
        }
    } else {
        0
    }
}

/// The sum of the balances of the coins made at the positions `objects`.
pub open spec fn coins_value(steps: Seq<Step>, objects: Seq<usize>) -> nat
    decreases objects.len(),
{
    if objects.len() == 0 {
        0
    } else {
        coins_value(steps, objects.drop_last()) + coin_value(steps, objects.last() as int)
    }
}

/// Whether the step at `at` transfers to `who`.
pub open spec fn transfers_to(steps: Seq<Step>, at: int, who: Seq<u8>) -> bool {
    &&& 0 <= at < steps.len()
    &&& steps[at] matches Step::TransferObjects { recipient, .. }
    &&& recipient < steps.len()
    &&& steps[recipient as int] == Step::Pure(who)
}

/// The value that the first `upto` steps hand to `who`.
pub open spec fn delivered(steps: Seq<Step>, upto: nat, who: Seq<u8>) -> nat
    decreases upto,
{
    if upto == 0 {
        0
    } else {
        delivered(steps, (upto - 1) as nat, who) + if transfers_to(steps, upto - 1, who) {
            coins_value(steps, steps[upto - 1]->TransferObjects_objects)
        } else {
            0
        }
    }
}

/// The number of objects that the first `upto` steps hand to `who`.
pub open spec fn objects_delivered(steps: Seq<Step>, upto: nat, who: Seq<u8>) -> nat
    decreases upto,
{
    if upto == 0 {
        0
    } else {
        objects_delivered(steps, (upto - 1) as nat, who) + if transfers_to(steps, upto - 1, who) {
            steps[upto - 1]->TransferObjects_objects.len()
        } else {
            0
        }
    }
}

/// Whether every reference in the first `upto` steps points at an earlier
/// step.
pub open spec fn backward(steps: Seq<Step>, upto: nat) -> bool {
    forall|at: int|
        0 <= at < upto && at < steps.len() ==> (#[trigger] steps[at] matches Step::TransferObjects {
            objects,
            recipient,
        } ==> recipient < at && forall|k: int|
            0 <= k < objects.len() ==> (#[trigger] objects[k]) < at)
}

/// A funding transaction has three steps for each request.
pub proof fn lemma_fund_steps_len(requests: Seq<(Address, u64)>)
    ensures
        fund_steps(requests).len() == 3 * requests.len(),
    decreases requests.len(),
{
    if requests.len() > 0 {
        lemma_fund_steps_len(requests.drop_last());
    }
}

/// The three steps of the request at position `i` of a funding transaction.
pub proof fn lemma_fund_steps_at(requests: Seq<(Address, u64)>, i: int)
    requires
        0 <= i < requests.len(),
        3 * requests.len() <= usize::MAX,
    ensures
        fund_steps(requests).len() == 3 * requests.len(),
        fund_steps(requests)[3 * i] == Step::Pure(requests[i].0@),
        fund_steps(requests)[3 * i + 1] == Step::CoinWithBalance(requests[i].1),
        fund_steps(requests)[3 * i + 2] == (Step::TransferObjects {
            objects: seq![(3 * i + 1) as usize],
            recipient: (3 * i) as usize,
        }),
    decreases requests.len(),
{
    lemma_fund_steps_len(requests);
    lemma_fund_steps_len(requests.drop_last());
    if i < requests.len() - 1 {
        lemma_fund_steps_at(requests.drop_last(), i);
    }
}

/// What steps hand out is decided by those steps and the earlier ones that
/// they point at: steps appended later change nothing.
pub proof fn lemma_delivered_prefix(steps: Seq<Step>, more: Seq<Step>, upto: nat, who: Seq<u8>)
    requires
        upto <= steps.len(),
        backward(steps, upto),
    ensures
        delivered(steps + more, upto, who) == delivered(steps, upto, who),
        objects_delivered(steps + more, upto, who) == objects_delivered(steps, upto, who),
    decreases upto,
{
    if upto > 0 {
        lemma_delivered_prefix(steps, more, (upto - 1) as nat, who);
        let all = steps + more;
        let at = upto - 1;
        assert(all[at] == steps[at]);
        if steps[at] is TransferObjects {
            let objects = steps[at]->TransferObjects_objects;
            let recipient = steps[at]->TransferObjects_recipient;
            assert(all[recipient as int] == steps[recipient as int]);
            lemma_coins_prefix(steps, more, objects, at);
        }
    }
}

/// The coins at positions inside a list have the same value in a longer
/// list.
pub proof fn lemma_coins_prefix(steps: Seq<Step>, more: Seq<Step>, objects: Seq<usize>, bound: int)
    requires
        bound <= steps.len(),
        forall|k: int| 0 <= k < objects.len() ==> (#[trigger] objects[k]) < bound,
    ensures
        coins_value(steps + more, objects) == coins_value(steps, objects),
    decreases objects.len(),
{
    if objects.len() > 0 {
        lemma_coins_prefix(steps, more, objects.drop_last(), bound);
        let at = objects.last() as int;
        assert(objects[objects.len() - 1] < bound);
        assert((steps + more)[at] == steps[at]);
    }
}

/// Every reference in a funding transaction points at an earlier step.
pub proof fn lemma_fund_steps_backward(requests: Seq<(Address, u64)>)
    requires
        3 * requests.len() <= usize::MAX,
    ensures
        backward(fund_steps(requests), 3 * requests.len()),
{
    let steps = fund_steps(requests);
    lemma_fund_steps_len(requests);
    assert forall|at: int| 0 <= at < 3 * requests.len() && at < steps.len() implies (
    #[trigger] steps[at] matches Step::TransferObjects { objects, recipient } ==> recipient < at
        && forall|k: int| 0 <= k < objects.len() ==> (#[trigger] objects[k]) < at) by {
        let i = at / 3;
        lemma_fund_steps_at(requests, i);
    }
}

/// A funding transaction hands each address exactly what the requests ask
/// for it: one object for each request that names the address, and in value
/// the sum of the amounts of those requests.
pub proof fn lemma_fund_delivers_requested(requests: Seq<(Address, u64)>, who: Seq<u8>)
    requires
        3 * requests.len() <= usize::MAX,
    ensures
        delivered(fund_steps(requests), 3 * requests.len(), who) == requested(requests, who),
        objects_delivered(fund_steps(requests), 3 * requests.len(), who) == requests_for(
            requests,
            who,
        ),
    decreases requests.len(),
{
    if requests.len() > 0 {
        let front = requests.drop_last();
        let base = 3 * front.len();
        let tail = request_steps(base, requests.last());
        let steps = fund_steps(requests);
        lemma_fund_delivers_requested(front, who);
        lemma_fund_steps_len(front);
        lemma_fund_steps_backward(front);
        lemma_delivered_prefix(fund_steps(front), tail, base, who);
        assert(steps == fund_steps(front) + tail);
        assert(steps[base as int] == tail[0]);
        assert(steps[(base + 1) as int] == tail[1]);
        assert(steps[(base + 2) as int] == tail[2]);
        let objects = seq![(base + 1) as usize];
        assert(objects.drop_last() =~= Seq::<usize>::empty());
        assert(coins_value(steps, objects) == coins_value(steps, objects.drop_last()) + coin_value(
            steps,
            objects.last() as int,
        ));
        assert(coins_value(steps, objects) == requests.last().1);
        assert(delivered(steps, base + 1, who) == delivered(steps, base, who));
        assert(delivered(steps, base + 2, who) == delivered(steps, base + 1, who));
        assert(objects_delivered(steps, base + 1, who) == objects_delivered(steps, base, who));
        assert(objects_delivered(steps, base + 2, who) == objects_delivered(steps, base + 1, who));
        assert(transfers_to(steps, (base + 2) as int, who) <==> requests.last().0@ == who);
    }
}

/// What requests ask for an address adds up over lists put end to end.
pub proof fn lemma_requested_additive(
    first: Seq<(Address, u64)>,
    second: Seq<(Address, u64)>,
    who: Seq<u8>,
)
    ensures
        requested(first + second, who) == requested(first, who) + requested(second, who),
        requests_for(first + second, who) == requests_for(first, who) + requests_for(second, who),
    decreases second.len(),
{
    if second.len() == 0 {
        assert(first + second =~= first);
    } else {
        lemma_requested_additive(first, second.drop_last(), who);
        assert((first + second).drop_last() =~= first + second.drop_last());
        assert((first + second).last() == second.last());
    }
}

/// Funding is additive over calls: what two funding transactions hand to an
/// address is what their requests, taken together, ask for it. Nothing is
/// merged or left out when an address is named again.
pub proof fn lemma_funding_additive(
    first: Seq<(Address, u64)>,
    second: Seq<(Address, u64)>,
    who: Seq<u8>,
)
    requires
        3 * first.len() <= usize::MAX,
        3 * second.len() <= usize::MAX,
    ensures
        delivered(fund_steps(first), 3 * first.len(), who) + delivered(
            fund_steps(second),
            3 * second.len(),
            who,
        ) == requested(first + second, who),
        objects_delivered(fund_steps(first), 3 * first.len(), who) + objects_delivered(
            fund_steps(second),
            3 * second.len(),
            who,
        ) == requests_for(first + second, who),
{
    lemma_fund_delivers_requested(first, who);
    lemma_fund_delivers_requested(second, who);
    lemma_requested_additive(first, second, who);
}

/// The transaction that funds `requests` from the account of `signer`: for
/// each request a coin of the requested amount, made and transferred to the
/// requested address, all in one transaction.
pub fn funding_plan(signer: PrivateKey, requests: &[(Address, u64)]) -> (plan: TransactionPlan)
    requires
        3 * requests@.len() <= usize::MAX,
    ensures
        plan.flow == Flow::Fund,
        plan.signer == signer,
        plan.finality_timeout_secs == FINALITY_TIMEOUT_SECS,
        steps_of(plan.commands@) == fund_steps(requests@),
{
    let mut commands: Vec<BuilderCommand> = Vec::new();
    let mut i: usize = 0;
    assert(requests@.take(0) =~= Seq::<(Address, u64)>::empty());
    assert(steps_of(commands@) =~= fund_steps(requests@.take(0)));
    while i < requests.len()
        invariant
            i <= requests@.len(),
            3 * requests@.len() <= usize::MAX,
            commands@.len() == 3 * i,
            steps_of(commands@) == fund_steps(requests@.take(i as int)),
        decreases requests@.len() - i,
    {
        let (address, amount) = requests[i];
        let base = commands.len();
        let ghost before = commands@;
        commands.push(BuilderCommand::Pure(address));
        commands.push(BuilderCommand::CoinWithBalance(amount));
        let mut objects: Vec<usize> = Vec::new();
        objects.push(base + 1);
        commands.push(BuilderCommand::TransferObjects { objects, recipient: base });
        proof {
            let next = requests@.take(i + 1);
            assert(next.drop_last() =~= requests@.take(i as int));
            assert(next.last() == requests@[i as int]);
            assert(objects@ =~= seq![(base + 1) as usize]);
            assert(steps_of(commands@) =~= steps_of(before) + request_steps(
                (3 * i) as nat,
                requests@[i as int],
            ));
        }
        i += 1;
    }
    assert(requests@.take(requests@.len() as int) =~= requests@);
    TransactionPlan {
        flow: Flow::Fund,
        signer,
        commands,
        finality_timeout_secs: FINALITY_TIMEOUT_SECS,
    }
}

/// The transaction that brings the system state to its current
/// representation: one call on the system state object.
pub fn upgrade_plan(signer: PrivateKey) -> (plan: TransactionPlan)
    ensures
        plan.flow == Flow::SystemStateUpgrade,
        plan.signer == signer,
        plan.finality_timeout_secs == FINALITY_TIMEOUT_SECS,
        steps_of(plan.commands@) == upgrade_steps(),
{
    let mut commands: Vec<BuilderCommand> = Vec::new();
    commands.push(BuilderCommand::Object(Address::from_u8(SYSTEM_STATE_OBJECT)));
    let mut arguments: Vec<usize> = Vec::new();
    arguments.push(0);
    commands.push(
        BuilderCommand::MoveCall {
            package: Address::from_u8(SYSTEM_PACKAGE),
            module: "myso_system".to_owned(),
            function: "active_validator_addresses".to_owned(),
            arguments,
        },
    );
    assert(arguments@ =~= seq![0usize]);
    assert(steps_of(commands@) =~= upgrade_steps());
    TransactionPlan {
        flow: Flow::SystemStateUpgrade,
        signer,
        commands,
        finality_timeout_secs: FINALITY_TIMEOUT_SECS,
    }
}

/// Judges the status that the network reported for an executed transaction.
/// A failure names the flow that failed.
pub fn confirm_execution(flow: Flow, success: bool) -> (outcome: Result<(), HarnessError>)
    ensures
        outcome is Ok <==> success,
        outcome matches Err(e) ==> e == HarnessError::TransactionExecutionFailure(flow),
{
    if success {
        Ok(())
    } else {
        Err(HarnessError::TransactionExecutionFailure(flow))
    }
}

} // verus!
