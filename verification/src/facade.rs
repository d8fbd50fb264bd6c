//! The `log` facade, whose records the subscriber is to receive as well.

use crate::pipeline::Pipeline;
use tracing_log::log::SetLoggerError;
use tracing_log::LogTracer;
use vstd::prelude::*;

verus! {

/// `log::SetLoggerError`, the refusal of the `log` facade to take a logger.
#[verifier::external_type_specification]
#[verifier::external_body]
pub struct ExSetLoggerError(SetLoggerError);

/// `LogTracer::init`: makes the records of the `log` facade events of the
/// subscriber. The facade takes one logger per process, so nothing is claimed
/// of the answer.
pub assume_specification[ LogTracer::init ]() -> (r: Result<(), SetLoggerError>)
;

/// Whether the answer of the facade is a refusal. A refusal is no failure of
/// the setup: the facade has a logger already, and its records go where an
/// earlier setup sent them.
pub fn is_refusal(answer: Result<(), SetLoggerError>) -> (r: bool)
    ensures
        r == answer is Err,
{
    match answer {
        Ok(()) => false,
        Err(_) => true,
    }
}

/// Forwards the records of the `log` facade to the subscriber, where the
/// pipeline asks for it, and says whether the facade refused. Where the
/// pipeline does not ask for it, the facade is left alone and nothing is
/// refused.
pub fn forward_log_records(pipeline: &Pipeline) -> (refused: bool)
    ensures
        !pipeline.log_facade ==> !refused,
{
    if pipeline.log_facade {
        is_refusal(LogTracer::init())
    } else {
        false
    }
}

} // verus!
