//! The readiness gate: poll the network at a fixed interval until it reports
//! enough progress, and give up when the time allowed is used up.

use vstd::prelude::*;
use crate::error::HarnessError;
use crate::text::decimal;

verus! {

/// Seconds within which the network has to become ready.
pub const NETWORK_STARTUP_TIMEOUT_SECS: u64 = 30;

/// Seconds between two polls.
pub const NETWORK_STARTUP_POLL_INTERVAL_SECS: u64 = 1;

/// The checkpoint height that the network has to exceed to count as ready.
pub const READY_CHECKPOINT_HEIGHT: u64 = 5;

/// A gate's state: how many polls were answered, and whether one of the
/// answers opened it.
#[derive(Clone, Copy, Debug, PartialEq, Eq)]
pub struct ReadinessGate {
    pub timeout_secs: u64,
    pub poll_interval_secs: u64,
    pub polls: u64,
    pub done: bool,
}

/// What the caller does after a poll.
#[derive(Clone, Copy, Debug, PartialEq, Eq)]
pub enum Readiness {
    /// The network is ready.
    Ready,
    /// Not ready yet: sleep this long, then poll again.
    Retry { after_secs: u64 },
}

/// Whether the answer to a poll shows a ready network. A poll that failed
/// has no answer and shows nothing.
pub open spec fn is_ready(reply: Option<u64>) -> bool {
    reply matches Some(height) && height > READY_CHECKPOINT_HEIGHT
}

impl ReadinessGate {
    /// A gate is valid when its interval is positive.
    pub open spec fn wf(self) -> bool {
        self.poll_interval_secs > 0
    }

    /// The number of polls that fit into the time allowed.
    pub open spec fn max_polls(self) -> int {
        self.timeout_secs as int / self.poll_interval_secs as int
    }

    /// Whether the time allowed is used up without this gate having opened.
    pub open spec fn is_expired(self) -> bool {
        !self.done && self.polls >= self.max_polls()
    }

    /// This gate after the answer to one more poll.
    pub open spec fn after(self, reply: Option<u64>) -> ReadinessGate {
        if self.done || self.is_expired() {
            self
        } else {
            ReadinessGate { polls: (self.polls + 1) as u64, done: is_ready(reply), ..self }
        }
    }

    /// This gate after the answers to a run of polls, in order.
    pub open spec fn fed(self, replies: Seq<Option<u64>>) -> ReadinessGate
        decreases replies.len(),
    {
        if replies.len() == 0 {
            self
        } else {
            self.fed(replies.drop_last()).after(replies.last())
        }
    }

    /// A fresh gate with the given limits.
    pub open spec fn fresh(timeout_secs: u64, poll_interval_secs: u64) -> ReadinessGate {
        ReadinessGate { timeout_secs, poll_interval_secs, polls: 0, done: false }
    }

    /// A gate with the standard limits.
    pub fn new() -> (gate: ReadinessGate)
        ensures
            gate == ReadinessGate::fresh(
                NETWORK_STARTUP_TIMEOUT_SECS,
                NETWORK_STARTUP_POLL_INTERVAL_SECS,
            ),
            gate.wf(),
    {
        ReadinessGate {
            timeout_secs: NETWORK_STARTUP_TIMEOUT_SECS,
            poll_interval_secs: NETWORK_STARTUP_POLL_INTERVAL_SECS,
            polls: 0,
            done: false,
        }
    }

    /// A gate with limits of the caller's choice. There is none for an
    /// interval of zero seconds.
    pub fn with_limits(timeout_secs: u64, poll_interval_secs: u64) -> (gate: Option<ReadinessGate>)
        ensures
            gate is Some <==> poll_interval_secs > 0,
            gate matches Some(g) ==> g == ReadinessGate::fresh(timeout_secs, poll_interval_secs)
                && g.wf(),
    {
        if poll_interval_secs == 0 {
            None
        } else {
            Some(ReadinessGate { timeout_secs, poll_interval_secs, polls: 0, done: false })
        }
    }

    /// Tells whether the time allowed is used up, so that no further poll is
    /// to be made.
    pub fn expired(&self) -> (expired: bool)
        requires
            self.wf(),
        ensures
            expired == self.is_expired(),
    {
        !self.done && self.polls >= self.timeout_secs / self.poll_interval_secs
    }

    /// The error of a gate that did not open in time. It names the bound.
    pub fn timeout_error(&self) -> (e: HarnessError)
        ensures
            e == (HarnessError::ReadinessTimeout { timeout_secs: self.timeout_secs }),
    {
        HarnessError::ReadinessTimeout { timeout_secs: self.timeout_secs }
    }
}

/// Takes the answer to one poll: the reported checkpoint height, or nothing
/// where the poll failed. This gate opens on the first answer above the
/// required height. Until then the caller is told to sleep and poll again,
/// as long as the time allowed is not used up; once it is, every call gives
/// the timeout error.
pub fn wait_for_ready(gate: &mut ReadinessGate, reply: Option<u64>) -> (step: Result<
    Readiness,
    HarnessError,
>)
    requires
        old(gate).wf(),
    ensures
        *final(gate) == old(gate).after(reply),
        final(gate).wf(),
        step is Err <==> old(gate).is_expired(),
        step matches Err(e) ==> e == (HarnessError::ReadinessTimeout {
            timeout_secs: old(gate).timeout_secs,
        }),
        step == Ok::<Readiness, HarnessError>(Readiness::Ready) <==> final(gate).done,
        step matches Ok(Readiness::Retry { after_secs }) ==> after_secs
            == old(gate).poll_interval_secs,
        step == Ok::<Readiness, HarnessError>(Readiness::Ready) && !old(gate).done ==> is_ready(
            reply,
        ),
{
    if gate.done {
        return Ok(Readiness::Ready);
    }
    if gate.expired() {
        return Err(gate.timeout_error());
    }
    gate.polls = gate.polls + 1;
    match reply {
        Some(height) => {
            if height > READY_CHECKPOINT_HEIGHT {
                gate.done = true;
                return Ok(Readiness::Ready);
            }
        },
        None => {},
    }
    Ok(Readiness::Retry { after_secs: gate.poll_interval_secs })
}

/// Feeding a gate never makes it invalid, nor lets it count more polls than
/// fit into the time allowed; so the time slept between polls stays within
/// the bound.
pub proof fn lemma_fed_bounded(gate: ReadinessGate, replies: Seq<Option<u64>>)
    requires
        gate.wf(),
        gate.polls <= gate.max_polls(),
    ensures
        gate.fed(replies).wf(),
        gate.fed(replies).timeout_secs == gate.timeout_secs,
        gate.fed(replies).poll_interval_secs == gate.poll_interval_secs,
        gate.polls <= gate.fed(replies).polls <= gate.max_polls(),
        gate.fed(replies).polls <= gate.polls + replies.len(),
        gate.fed(replies).polls * gate.poll_interval_secs <= gate.timeout_secs,
    decreases replies.len(),
{
    if replies.len() > 0 {
        lemma_fed_bounded(gate, replies.drop_last());
    }
    let polls = gate.fed(replies).polls as int;
    let interval = gate.poll_interval_secs as int;
    let timeout = gate.timeout_secs as int;
    assert(polls * interval <= timeout) by (nonlinear_arith)
        requires
            interval > 0,
            0 <= polls <= timeout / interval,
    ;
}

/// A gate opens only on an answer that shows more progress than required:
/// if a fresh gate is open after a run of polls, one of the answers within
/// the time allowed was above the required height.
pub proof fn lemma_open_only_when_ready(gate: ReadinessGate, replies: Seq<Option<u64>>)
    requires
        gate.wf(),
        !gate.done,
        gate.polls == 0,
        gate.fed(replies).done,
    ensures
        exists|i: int|
            0 <= i < replies.len() && i < gate.max_polls() && is_ready(#[trigger] replies[i]),
    decreases replies.len(),
{
    if replies.len() > 0 {
        let front = replies.drop_last();
        lemma_fed_bounded(gate, front);
        if gate.fed(front).done {
            lemma_open_only_when_ready(gate, front);
            let i = choose|i: int|
                0 <= i < front.len() && i < gate.max_polls() && is_ready(#[trigger] front[i]);
            assert(replies[i] == front[i]);
        } else {
            let i = replies.len() - 1;
            assert(is_ready(replies[i]));
            lemma_polls_counted(gate, front);
        }
    }
}

/// A gate that has not opened and has time left has counted every answer.
pub proof fn lemma_polls_counted(gate: ReadinessGate, replies: Seq<Option<u64>>)
    requires
        gate.wf(),
        !gate.done,
        gate.polls == 0,
        !gate.fed(replies).done,
    ensures
        gate.fed(replies).polls == if replies.len() <= gate.max_polls() {
            replies.len() as int
        } else {
            gate.max_polls()
        },
        forall|i: int|
            0 <= i < replies.len() && i < gate.max_polls() ==> !is_ready(#[trigger] replies[i]),
    decreases replies.len(),
{
    if replies.len() > 0 {
        let front = replies.drop_last();
        lemma_fed_bounded(gate, front);
        lemma_polls_counted(gate, front);
        assert forall|i: int| 0 <= i < replies.len() && i < gate.max_polls() implies !is_ready(
            #[trigger] replies[i],
        ) by {
            if i < front.len() {
                assert(replies[i] == front[i]);
            }
        }
    }
}

/// A gate times out when no answer within the time allowed shows a ready
/// network: after that many polls it is expired, whatever the later answers
/// are.
pub proof fn lemma_times_out(gate: ReadinessGate, replies: Seq<Option<u64>>)
    requires
        gate.wf(),
        !gate.done,
        gate.polls == 0,
        replies.len() >= gate.max_polls(),
        forall|i: int| 0 <= i < gate.max_polls() ==> !is_ready(#[trigger] replies[i]),
    ensures
        gate.fed(replies).is_expired(),
        gate.fed(replies).timeout_secs == gate.timeout_secs,
    decreases replies.len(),
{
    lemma_fed_bounded(gate, replies);
    if replies.len() > 0 {
        let front = replies.drop_last();
        lemma_fed_bounded(gate, front);
        if front.len() >= gate.max_polls() {
            assert forall|i: int| 0 <= i < gate.max_polls() implies !is_ready(
                #[trigger] front[i],
            ) by {
                assert(front[i] == replies[i]);
            }
            lemma_times_out(gate, front);
        } else {
            if gate.fed(front).done {
                lemma_open_only_when_ready(gate, front);
                let i = choose|i: int|
                    0 <= i < front.len() && i < gate.max_polls() && is_ready(#[trigger] front[i]);
                assert(front[i] == replies[i]);
            }
            lemma_polls_counted(gate, front);
            assert(!is_ready(replies[replies.len() - 1]));
        }
    }
}

/// With the standard limits this gate allows thirty polls, and its timeout
/// error says so: "Network failed to start within 30s timeout".
pub proof fn lemma_standard_timeout_message()
    ensures
        ReadinessGate::fresh(
            NETWORK_STARTUP_TIMEOUT_SECS,
            NETWORK_STARTUP_POLL_INTERVAL_SECS,
        ).max_polls() == 30,
        (HarnessError::ReadinessTimeout {
            timeout_secs: NETWORK_STARTUP_TIMEOUT_SECS,
        }).message_text() == "Network failed to start within "@ + seq!['3', '0'] + "s timeout"@,
{
    reveal_with_fuel(decimal, 3);
    assert(decimal(30) =~= seq!['3', '0']);
    assert(30int / 1int == 30) by (nonlinear_arith);
}

} // verus!
