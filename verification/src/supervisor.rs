//! The supervisor's retry policy over the serial side: when polling is
//! enabled, every returned pump session is followed by a fixed back-off and
//! another attempt, indefinitely; when it is disabled, the serial side is
//! never retried and any failure terminates the whole process.

use vstd::prelude::*;

use crate::reader::OpenDecision;
use crate::reader::ReadDecision;
use crate::reader::ReadEvent;
use crate::reader::open_decision;
use crate::reader::read_decision;

verus! {

/// How long the supervisor waits after a pump session returns before it
/// tries to open the device again.
pub const BACKOFF_INTERVAL_MS: u64 = 3000;

/// How one invocation of the reader's open-and-pump session ended: "retry
/// later, did I transfer any bytes this session", or a fatal error.
#[derive(Clone, Copy, PartialEq, Eq, Structural, Debug)]
pub enum PumpOutcome {
    RetryLater(bool),
    FatalError,
}

/// What the supervisor does with that outcome: wait the given number of
/// milliseconds and invoke the session again, or let the whole process
/// terminate.
#[derive(Clone, Copy, PartialEq, Eq, Structural, Debug)]
pub enum SupervisorAction {
    RetryAfter(u64),
    Terminate,
}

/// The retry policy: with polling enabled a returned session is retried
/// after the fixed back-off and a fatal outcome terminates; with polling
/// disabled nothing is ever retried.
pub open spec fn supervisor_action(poll: bool, outcome: PumpOutcome) -> SupervisorAction {
    if poll {
        match outcome {
            PumpOutcome::RetryLater(_) => SupervisorAction::RetryAfter(BACKOFF_INTERVAL_MS),
            PumpOutcome::FatalError => SupervisorAction::Terminate,
        }
    } else {
        SupervisorAction::Terminate
    }
}

/// Decide what follows one pump session.
pub fn after_pump(poll: bool, outcome: PumpOutcome) -> (r: SupervisorAction)
    ensures
        r == supervisor_action(poll, outcome),
{
    if poll {
        match outcome {
            PumpOutcome::RetryLater(_) => SupervisorAction::RetryAfter(BACKOFF_INTERVAL_MS),
            PumpOutcome::FatalError => SupervisorAction::Terminate,
        }
    } else {
        SupervisorAction::Terminate
    }
}

/// Law: with polling enabled the serial side never ends fatally and the
/// supervisor always schedules another attempt after the fixed back-off —
/// whatever the device does and however many attempts have gone before, the
/// process is never terminated from the serial side.
pub proof fn lemma_polling_never_terminates(ev: ReadEvent, has_read: bool, transferred: bool)
    ensures
        open_decision(true, false) == OpenDecision::RetryLater,
        read_decision(true, has_read, ev) != ReadDecision::FatalError,
        supervisor_action(true, PumpOutcome::RetryLater(transferred)) == SupervisorAction::RetryAfter(
            BACKOFF_INTERVAL_MS,
        ),
{
}

/// Law: with polling disabled a single open failure or read failure is
/// fatal, and the supervisor never retries — whatever the outcome, the
/// serial side ends and the process terminates.
pub proof fn lemma_fail_fast_without_polling(has_read: bool, outcome: PumpOutcome)
    ensures
        open_decision(false, false) == OpenDecision::Fatal,
        read_decision(false, has_read, ReadEvent::Failed) == ReadDecision::FatalError,
        supervisor_action(false, outcome) == SupervisorAction::Terminate,
{
}

} // verus!
