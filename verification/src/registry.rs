//! The process-wide subscriber slot, claimed at most once.

use crate::errors::LoggingError;
use tracing::dispatcher::{set_global_default, SetGlobalDefaultError};
use tracing::Dispatch;
use vstd::prelude::*;

verus! {

/// `tracing::dispatcher::SetGlobalDefaultError`, the refusal of the slot.
#[verifier::external_type_specification]
#[verifier::external_body]
pub struct ExSetGlobalDefaultError(SetGlobalDefaultError);

/// `tracing::dispatcher::set_global_default`: offers the subscriber to the
/// process-wide slot. Whether the slot takes it depends on what the process
/// did before, so nothing is claimed of the answer.
pub assume_specification[ set_global_default ](dispatcher: Dispatch) -> (r: Result<
    (),
    SetGlobalDefaultError,
>)
;

/// What a claim returns: success where the registry has not claimed before
/// and the slot accepts, the internal error otherwise.
pub open spec fn claim_outcome(claimed: bool, accepted: bool) -> Result<(), LoggingError> {
    if !claimed && accepted {
        Ok(())
    } else {
        Err(LoggingError::InternalError)
    }
}

/// Whether the registry has claimed after a claim.
pub open spec fn claimed_after(claimed: bool, accepted: bool) -> bool {
    claimed || accepted
}

/// The keeper of the process-wide subscriber slot. It remembers whether it
/// has put a sink in the slot, and offers the slot nothing once it has.
#[derive(Debug)]
pub struct SinkRegistry {
    claimed: bool,
}

impl View for SinkRegistry {
    type V = bool;

    /// Whether the registry has put a sink in the slot.
    closed spec fn view(&self) -> bool {
        self.claimed
    }
}

impl SinkRegistry {
    /// A registry that has claimed nothing.
    pub fn new() -> (r: SinkRegistry)
        ensures
            !r@,
    {
        SinkRegistry { claimed: false }
    }

    /// Whether the registry has put a sink in the slot.
    pub fn is_claimed(&self) -> (r: bool)
        ensures
            r == self@,
    {
        self.claimed
    }

    /// Records the answer of the slot to a claim, and says what the claim
    /// returns.
    pub fn settle(&mut self, answer: Result<(), SetGlobalDefaultError>) -> (r: Result<
        (),
        LoggingError,
    >)
        ensures
            r == claim_outcome(old(self)@, answer is Ok),
            final(self)@ == claimed_after(old(self)@, answer is Ok),
    {
        match answer {
            Ok(()) => {
                let fresh = !self.claimed;
                self.claimed = true;
                if fresh {
                    Ok(())
                } else {
                    Err(LoggingError::InternalError)
                }
            },
            Err(_) => Err(LoggingError::InternalError),
        }
    }

    /// Claims the slot for `sink`. A registry that has claimed before refuses
    /// with the internal error and leaves the slot alone; so does one that the
    /// slot refuses. After a success the registry has claimed.
    pub fn claim(&mut self, sink: Dispatch) -> (r: Result<(), LoggingError>)
        ensures
            match r {
                Ok(()) => !old(self)@ && final(self)@,
                Err(e) => e == LoggingError::InternalError && final(self)@ == old(self)@,
            },
            exists|accepted: bool|
                r == claim_outcome(old(self)@, accepted) && final(self)@
                    == #[trigger] claimed_after(old(self)@, accepted),
    {
        if self.claimed {
            // A refusal by the slot would have been recorded in the same way.
            assert(claimed_after(self@, false) == self@);
            return Err(LoggingError::InternalError);
        }
        let answer = set_global_default(sink);
        self.settle(answer)
    }
}

/// How many of the claims succeed that a registry makes one after another,
/// where `answers` holds what the slot answers to each.
pub open spec fn successes(claimed: bool, answers: Seq<bool>) -> nat
    decreases answers.len(),
{
    if answers.len() == 0 {
        0
    } else {
        let rest = successes(claimed_after(claimed, answers[0]), answers.drop_first());
        if claim_outcome(claimed, answers[0]) is Ok {
            1 + rest
        } else {
            rest
        }
    }
}

/// Whatever the slot answers, of the claims that a registry makes one after
/// another at most one succeeds, and none where it had claimed before.
pub proof fn lemma_at_most_one_success(claimed: bool, answers: Seq<bool>)
    ensures
        successes(claimed, answers) <= 1,
        claimed ==> successes(claimed, answers) == 0,
    decreases answers.len(),
{
    if answers.len() > 0 {
        lemma_at_most_one_success(claimed_after(claimed, answers[0]), answers.drop_first());
    }
}

/// At most one claim through a registry succeeds: once one has, every later
/// claim returns the internal error and the registry stays claimed, whatever
/// the slot would answer.
pub proof fn lemma_single_claim(claimed: bool, first: bool, second: bool)
    ensures
        claim_outcome(claimed, first) is Ok ==> claimed_after(claimed, first),
        claimed ==> claim_outcome(claimed, second) == Err::<(), LoggingError>(
            LoggingError::InternalError,
        ) && claimed_after(claimed, second),
        claim_outcome(claimed, first) is Ok ==> claim_outcome(
            claimed_after(claimed, first),
            second,
        ) == Err::<(), LoggingError>(LoggingError::InternalError),
        claim_outcome(claimed, first) is Err ==> claim_outcome(claimed, first) == Err::<
            (),
            LoggingError,
        >(LoggingError::InternalError),
{
}

} // verus!
