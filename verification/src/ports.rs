//! The retry rule of port allocation.

use vstd::prelude::*;
use crate::error::HarnessError;

verus! {

/// How many times a port is asked for before allocation is given up.
pub const MAX_PORT_RETRIES: u32 = 1000;

/// What to do after one attempt to get a port from the operating system.
#[derive(Clone, Copy, Debug, PartialEq, Eq)]
pub enum PortDecision {
    /// The attempt gave this port: use it.
    Use(u16),
    /// The attempt failed: try again.
    Retry,
    /// The attempt failed and it was the last one allowed.
    Exhausted,
}

/// The decision after an attempt that followed `failed_before` failed ones.
pub open spec fn port_decision(failed_before: u32, attempt: Option<u16>) -> PortDecision {
    if failed_before >= MAX_PORT_RETRIES {
        PortDecision::Exhausted
    } else {
        match attempt {
            Some(port) => PortDecision::Use(port),
            None => if failed_before + 1 == MAX_PORT_RETRIES {
                PortDecision::Exhausted
            } else {
                PortDecision::Retry
            },
        }
    }
}

/// The outcome of a whole run of attempts: the port of the first attempt
/// that gave one, provided it is among the first `MAX_PORT_RETRIES`.
pub open spec fn first_port(attempts: Seq<Option<u16>>) -> Option<u16>
    decreases attempts.len(),
{
    if attempts.len() == 0 {
        None
    } else {
        match first_port(attempts.drop_last()) {
            Some(port) => Some(port),
            None => if attempts.len() <= MAX_PORT_RETRIES {
                attempts.last()
            } else {
                None
            },
        }
    }
}

/// Decides what follows an attempt to get a port. `failed_before` counts the
/// attempts that failed before this one; `attempt` is the port this one
/// gave, if it gave one.
pub fn get_available_port(failed_before: u32, attempt: Option<u16>) -> (decision: PortDecision)
    ensures
        decision == port_decision(failed_before, attempt),
        decision matches PortDecision::Use(port) ==> attempt == Some(port),
        decision is Retry ==> failed_before + 1 < MAX_PORT_RETRIES,
{
    if failed_before >= MAX_PORT_RETRIES {
        return PortDecision::Exhausted;
    }
    match attempt {
        Some(port) => PortDecision::Use(port),
        None => if failed_before + 1 == MAX_PORT_RETRIES {
            PortDecision::Exhausted
        } else {
            PortDecision::Retry
        },
    }
}

/// The error with which allocation is given up.
pub fn port_exhaustion() -> (e: HarnessError)
    ensures
        e == HarnessError::PortExhaustion,
{
    HarnessError::PortExhaustion
}

/// Runs the retry rule over a list of attempts, in order, as the caller
/// would with the operating system in between.
pub fn allocate_from(attempts: &[Option<u16>]) -> (port: Option<u16>)
    ensures
        port == first_port(attempts@),
{
    let mut failed: u32 = 0;
    let mut i: usize = 0;
    assert(attempts@.take(0) =~= Seq::<Option<u16>>::empty());
    while i < attempts.len()
        invariant
            i <= attempts@.len(),
            failed == i,
            failed < MAX_PORT_RETRIES,
            first_port(attempts@.take(i as int)) is None,
        decreases attempts@.len() - i,
    {
        let ghost next = attempts@.take(i + 1);
        proof {
            assert(next.drop_last() =~= attempts@.take(i as int));
            assert(next.last() == attempts@[i as int]);
        }
        match get_available_port(failed, attempts[i]) {
            PortDecision::Use(port) => {
                proof {
                    lemma_first_port_stays(attempts@, i + 1);
                }
                return Some(port);
            },
            PortDecision::Retry => {
                failed += 1;
            },
            PortDecision::Exhausted => {
                proof {
                    lemma_no_port_after_limit(attempts@, i + 1);
                }
                return None;
            },
        }
        i += 1;
    }
    assert(attempts@.take(attempts@.len() as int) =~= attempts@);
    None
}

/// Once a prefix of the attempts has given a port, longer runs give the same
/// one.
pub proof fn lemma_first_port_stays(attempts: Seq<Option<u16>>, upto: int)
    requires
        0 <= upto <= attempts.len(),
        first_port(attempts.take(upto)) is Some,
    ensures
        first_port(attempts) == first_port(attempts.take(upto)),
    decreases attempts.len() - upto,
{
    if upto < attempts.len() {
        let next = attempts.take(upto + 1);
        assert(next.drop_last() =~= attempts.take(upto));
        lemma_first_port_stays(attempts, upto + 1);
    } else {
        assert(attempts.take(upto) =~= attempts);
    }
}

/// Attempts after the last one allowed are never used.
pub proof fn lemma_no_port_after_limit(attempts: Seq<Option<u16>>, upto: int)
    requires
        MAX_PORT_RETRIES <= upto <= attempts.len(),
        first_port(attempts.take(upto)) is None,
    ensures
        first_port(attempts) is None,
    decreases attempts.len() - upto,
{
    if upto < attempts.len() {
        let next = attempts.take(upto + 1);
        assert(next.drop_last() =~= attempts.take(upto));
        lemma_no_port_after_limit(attempts, upto + 1);
    } else {
        assert(attempts.take(upto) =~= attempts);
    }
}

/// The port that allocation settles on is one that an attempt gave, and
/// every attempt before that one failed.
pub proof fn lemma_port_comes_from_attempt(attempts: Seq<Option<u16>>)
    ensures
        first_port(attempts) matches Some(port) ==> exists|i: int|
            0 <= i < attempts.len() && i < MAX_PORT_RETRIES && #[trigger] attempts[i] == Some(port)
                && forall|j: int| 0 <= j < i ==> #[trigger] attempts[j] is None,
        first_port(attempts) is None ==> forall|i: int|
            0 <= i < attempts.len() && i < MAX_PORT_RETRIES ==> #[trigger] attempts[i] is None,
    decreases attempts.len(),
{
    if attempts.len() > 0 {
        let front = attempts.drop_last();
        lemma_port_comes_from_attempt(front);
        match first_port(front) {
            Some(port) => {
                let i = choose|i: int|
                    0 <= i < front.len() && i < MAX_PORT_RETRIES && #[trigger] front[i] == Some(
                        port,
                    ) && forall|j: int| 0 <= j < i ==> #[trigger] front[j] is None;
                assert(attempts[i] == front[i]);
                assert forall|j: int| 0 <= j < i implies #[trigger] attempts[j] is None by {
                    assert(attempts[j] == front[j]);
                }
            },
            None => {
                assert forall|j: int|
                    0 <= j < front.len() && j < MAX_PORT_RETRIES implies #[trigger] attempts[j] is None by {
                    assert(attempts[j] == front[j]);
                }
                if attempts.len() <= MAX_PORT_RETRIES && attempts.last() is Some {
                    let i = attempts.len() - 1;
                    assert(attempts[i] == attempts.last());
                }
            },
        }
    }
}

} // verus!
