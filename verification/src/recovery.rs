//! Recovery of the controller.

use vstd::prelude::*;

use crate::reg::UicErrorStatus;

verus! {

/// Why recovery is needed.
#[derive(Clone, Copy, Debug)]
pub enum RecoveryReason {
    /// The driver found something wrong.
    Driver(&'static str),
    /// The interconnect reported a fatal error.
    Uic(UicErrorStatus),
    /// A completion queue held an entry that no command owns.
    InvalidMcqCompletion,
}

impl RecoveryReason {
    /// The reason in words.
    pub open spec fn words(self) -> Seq<char> {
        match self {
            RecoveryReason::Driver(reason) => reason@,
            RecoveryReason::Uic(_) => "fatal UIC error"@,
            RecoveryReason::InvalidMcqCompletion => "invalid MCQ completion descriptor"@,
        }
    }

    /// The reason in words.
    pub fn name(&self) -> (r: &'static str)
        ensures
            r@ == self.words(),
    {
        match *self {
            RecoveryReason::Driver(reason) => reason,
            RecoveryReason::Uic(_) => "fatal UIC error",
            RecoveryReason::InvalidMcqCompletion => "invalid MCQ completion descriptor",
        }
    }

    /// The interconnect's error codes, if they are the reason.
    pub fn uic_errors(&self) -> (r: Option<UicErrorStatus>)
        ensures
            r == (match *self {
                RecoveryReason::Uic(errors) => Some(errors),
                _ => None,
            }),
    {
        match *self {
            RecoveryReason::Uic(errors) => Some(errors),
            _ => None,
        }
    }
}

/// What recovery is about.
#[derive(Clone, Copy, Debug, PartialEq, Eq, Structural)]
pub enum RecoveryScope {
    /// The whole controller.
    Controller,
    /// One queue.
    Queue(u32),
}

impl RecoveryScope {
    /// The queue, if recovery is about one.
    pub fn queue_id(&self) -> (r: Option<u32>)
        ensures
            r == (match *self {
                RecoveryScope::Controller => None,
                RecoveryScope::Queue(queue_id) => Some(queue_id),
            }),
    {
        match *self {
            RecoveryScope::Controller => None,
            RecoveryScope::Queue(queue_id) => Some(queue_id),
        }
    }
}

/// Why recovery is needed, and where.
#[derive(Clone, Copy, Debug)]
pub struct RecoveryCause {
    pub reason: RecoveryReason,
    pub scope: RecoveryScope,
    pub tag: usize,
}

/// How far recovery has come.
#[derive(Clone, Copy, Debug)]
pub enum RecoveryState {
    /// Not needed.
    Operational,
    /// Asked for.
    Requested(RecoveryCause),
    /// The block layer is being stopped.
    Quiescing(RecoveryCause),
    /// The block layer is stopped.
    Recovering(RecoveryCause),
    /// Given up; the queues stay stopped.
    Failed(RecoveryCause),
}

impl RecoveryState {
    /// Why recovery is needed, if it is.
    pub open spec fn why(self) -> Option<RecoveryCause> {
        match self {
            RecoveryState::Operational => None,
            RecoveryState::Requested(cause) | RecoveryState::Quiescing(cause)
            | RecoveryState::Recovering(cause) | RecoveryState::Failed(cause) => Some(cause),
        }
    }

    /// How far recovery has come, in steps.
    pub open spec fn step(self) -> nat {
        match self {
            RecoveryState::Operational => 0,
            RecoveryState::Requested(_) => 1,
            RecoveryState::Quiescing(_) => 2,
            RecoveryState::Recovering(_) => 3,
            RecoveryState::Failed(_) => 4,
        }
    }

    /// The state after recovery was asked for. The first cause stays.
    pub open spec fn requested(self, cause: RecoveryCause) -> Self {
        match self {
            RecoveryState::Operational => RecoveryState::Requested(cause),
            other => other,
        }
    }

    /// Why recovery is needed, if it is.
    pub fn cause(&self) -> (r: Option<RecoveryCause>)
        ensures
            r == self.why(),
    {
        match *self {
            RecoveryState::Operational => None,
            RecoveryState::Requested(cause) => Some(cause),
            RecoveryState::Quiescing(cause) => Some(cause),
            RecoveryState::Recovering(cause) => Some(cause),
            RecoveryState::Failed(cause) => Some(cause),
        }
    }

    /// Asks for recovery. The result says whether the work has to be scheduled:
    /// only the first to ask does that.
    pub fn request(&mut self, cause: RecoveryCause) -> (r: bool)
        ensures
            *final(self) == old(self).requested(cause),
            r == (*old(self) is Operational),
    {
        if matches!(*self, RecoveryState::Operational) {
            *self = RecoveryState::Requested(cause);
            true
        } else {
            false
        }
    }

    /// Starts the work if it was asked for. The block layer is stopped next.
    pub fn start(&mut self) -> (r: Option<RecoveryCause>)
        ensures
            match *old(self) {
                RecoveryState::Requested(cause) => r == Some(cause) && *final(self)
                    == RecoveryState::Quiescing(cause),
                _ => r is None && *final(self) == *old(self),
            },
    {
        match *self {
            RecoveryState::Requested(cause) => {
                *self = RecoveryState::Quiescing(cause);
                Some(cause)
            },
            _ => None,
        }
    }

    /// Takes note that the block layer is stopped.
    pub fn quiesced(&mut self)
        ensures
            *final(self) == (match *old(self) {
                RecoveryState::Quiescing(cause) => RecoveryState::Recovering(cause),
                other => other,
            }),
    {
        match *self {
            RecoveryState::Quiescing(cause) => {
                *self = RecoveryState::Recovering(cause);
            },
            _ => {},
        }
    }

    /// Gives up. The block layer stays stopped, so that a late completion cannot
    /// refer to a tag that is in use again.
    pub fn give_up(&mut self)
        ensures
            *final(self) == (match *old(self) {
                RecoveryState::Recovering(cause) => RecoveryState::Failed(cause),
                other => other,
            }),
    {
        match *self {
            RecoveryState::Recovering(cause) => {
                *self = RecoveryState::Failed(cause);
            },
            _ => {},
        }
    }
}

/// Once recovery is needed it stays needed, for the cause that was given first,
/// whatever is asked for later.
pub proof fn law_first_cause_stays(state: RecoveryState, cause: RecoveryCause, later: RecoveryCause)
    ensures
        state.requested(cause).why() is Some,
        state.requested(cause).requested(later) == state.requested(cause),
        state.why() is Some ==> state.requested(cause).why() == state.why(),
        state.why() is None ==> state.requested(cause).why() == Some(cause),
        state.requested(cause).step() >= state.step(),
{
}

/// Recovery starts with being asked for, and being asked for again changes
/// nothing, however far it has come.
pub proof fn law_recovery_starts_when_asked(state: RecoveryState, cause: RecoveryCause)
    ensures
        state is Operational ==> state.requested(cause) == RecoveryState::Requested(cause),
        !(state is Operational) ==> state.requested(cause) == state,
        state.why() is None <==> state is Operational,
{
}

/// What is said of a cause: the driver's own words, or that the interconnect
/// reported a fatal error, or that a completion queue held an invalid entry.
pub proof fn law_causes_in_words(words: &'static str, errors: UicErrorStatus)
    ensures
        RecoveryReason::Driver(words).words() == words@,
        RecoveryReason::Uic(errors).words() == "fatal UIC error"@,
        RecoveryReason::InvalidMcqCompletion.words() == "invalid MCQ completion descriptor"@,
{
}

/// Recovery that is asked for is started once, stops the block layer before it
/// works on the controller, and can be given up only then. The cause stays the
/// same all the way.
pub proof fn law_recovery_goes_step_by_step(
    asked: &mut RecoveryState,
    cause: RecoveryCause,
    first: bool,
    started: &mut RecoveryState,
    r: Option<RecoveryCause>,
    stopped: &mut RecoveryState,
    given: &mut RecoveryState,
)
    requires
        *old(asked) is Operational,
        call_ensures(RecoveryState::request, (asked, cause), first),
        *old(started) == *final(asked),
        call_ensures(RecoveryState::start, (started,), r),
        *old(stopped) == *final(started),
        call_ensures(RecoveryState::quiesced, (stopped,), ()),
        *old(given) == *final(stopped),
        call_ensures(RecoveryState::give_up, (given,), ()),
    ensures
        first,
        *final(asked) == RecoveryState::Requested(cause),
        r == Some(cause),
        *final(started) == RecoveryState::Quiescing(cause),
        *final(stopped) == RecoveryState::Recovering(cause),
        *final(given) == RecoveryState::Failed(cause),
{
}

/// Only the first to ask for recovery has its work scheduled, and only a state in
/// which it was asked for starts it.
pub proof fn law_recovery_is_started_once(
    state: &mut RecoveryState,
    cause: RecoveryCause,
    first: bool,
    other: &mut RecoveryState,
    r: Option<RecoveryCause>,
)
    requires
        call_ensures(RecoveryState::request, (state, cause), first),
        call_ensures(RecoveryState::start, (other,), r),
    ensures
        first <==> *old(state) is Operational,
        final(state).why() is Some,
        r is Some <==> *old(other) is Requested,
        r is None ==> *final(other) == *old(other),
        final(other).why() == old(other).why(),
{
}

} // verus!
