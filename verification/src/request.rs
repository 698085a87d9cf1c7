//! Life of a request in the driver.
//!
//! A request is prepared, is handed to the controller, is completed and is
//! returned to the block layer. A request that timed out stays with the
//! controller until recovery has stopped it.

use vstd::prelude::*;

use crate::error::Error;
use crate::prdt::UfsPrdtMapping;
use crate::query::{UfsCmd, UfsDevCmd};
use crate::scsi::UfsSCSICmd;

verus! {

/// How a completed request goes back to the block layer.
#[derive(Clone, Copy, Debug, PartialEq, Eq, Structural)]
pub enum CompletionDisposition {
    /// With this status.
    End(u32),
    /// To be tried again.
    Requeue,
}

/// Where a request stands.
pub enum UfsRequestState {
    /// Not in use.
    Idle,
    /// Composed, but not handed to the controller yet.
    Prepared { cmd: UfsCmd, prdt: Option<UfsPrdtMapping> },
    /// With the controller.
    InFlight { cmd: UfsCmd, prdt: Option<UfsPrdtMapping>, queue_id: u32 },
    /// With the controller, overdue.
    Recovering { cmd: UfsCmd, prdt: Option<UfsPrdtMapping>, queue_id: u32 },
    /// The controller is done with it, its response is being looked at.
    Completing,
    /// Ready to go back to the block layer.
    CompletionReady(CompletionDisposition),
    /// A device management command with its answer.
    DeviceComplete(UfsDevCmd),
}

/// What a timeout found.
#[derive(Clone, Copy, Debug)]
pub enum TimeoutDisposition {
    /// The request just became overdue.
    StartRecovery(UfsCmd),
    /// The request was overdue before.
    Recovering(UfsCmd),
    /// The request is not with the controller yet.
    Pending(UfsCmd),
    /// The request is done.
    Completed,
}

impl UfsRequestState {
    /// The command and its mapping, while the request holds them.
    pub open spec fn held(self) -> Option<(UfsCmd, Option<UfsPrdtMapping>)> {
        match self {
            UfsRequestState::Prepared { cmd, prdt } => Some((cmd, prdt)),
            UfsRequestState::InFlight { cmd, prdt, .. } => Some((cmd, prdt)),
            UfsRequestState::Recovering { cmd, prdt, .. } => Some((cmd, prdt)),
            _ => None,
        }
    }

    /// The queue that the request was submitted to, while the controller has it.
    pub open spec fn submitted_to(self) -> Option<u32> {
        match self {
            UfsRequestState::InFlight { queue_id, .. } => Some(queue_id),
            UfsRequestState::Recovering { queue_id, .. } => Some(queue_id),
            _ => None,
        }
    }

    /// The request after it was handed to a queue, if it was prepared.
    pub open spec fn after_submit(self, queue_id: u32) -> Option<Self> {
        match self {
            UfsRequestState::Prepared { cmd, prdt } => Some(
                UfsRequestState::InFlight { cmd, prdt, queue_id },
            ),
            _ => None,
        }
    }

    /// The request after a timeout.
    pub open spec fn after_timeout(self) -> Self {
        match self {
            UfsRequestState::InFlight { cmd, prdt, queue_id } => UfsRequestState::Recovering {
                cmd,
                prdt,
                queue_id,
            },
            other => other,
        }
    }

    /// What a timeout finds.
    pub open spec fn timeout_finds(self) -> TimeoutDisposition {
        match self {
            UfsRequestState::Prepared { cmd, .. } => TimeoutDisposition::Pending(cmd),
            UfsRequestState::InFlight { cmd, .. } => TimeoutDisposition::StartRecovery(cmd),
            UfsRequestState::Recovering { cmd, .. } => TimeoutDisposition::Recovering(cmd),
            _ => TimeoutDisposition::Completed,
        }
    }
}

/// A request's private data.
pub struct UfsRequestInner {
    pub state: UfsRequestState,
}

impl Default for UfsRequestInner {
    fn default() -> (r: Self)
        ensures
            r.state is Idle,
    {
        UfsRequestInner { state: UfsRequestState::Idle }
    }
}

impl UfsRequestInner {
    /// Prepares a device management command.
    pub fn prepare_device(&mut self, cmd: UfsCmd) -> (r: Result<(), Error>)
        ensures
            if cmd is Device && old(self).state is Idle {
                &&& r == Ok::<(), Error>(())
                &&& final(self).state == (UfsRequestState::Prepared { cmd, prdt: None })
            } else {
                &&& r == Err::<(), Error>(Error::EINVAL)
                &&& final(self).state == old(self).state
            },
    {
        if !matches!(cmd, UfsCmd::Device(_)) || !matches!(self.state, UfsRequestState::Idle) {
            return Err(Error::EINVAL);
        }
        self.state = UfsRequestState::Prepared { cmd, prdt: None };
        Ok(())
    }

    /// Prepares a SCSI command with its mapping.
    pub fn prepare_scsi(&mut self, cmd: UfsSCSICmd, prdt: Option<UfsPrdtMapping>) -> (r: Result<
        (),
        Error,
    >)
        ensures
            if old(self).state is Idle {
                &&& r == Ok::<(), Error>(())
                &&& final(self).state == (UfsRequestState::Prepared {
                    cmd: UfsCmd::SCSI(cmd),
                    prdt,
                })
            } else {
                &&& r == Err::<(), Error>(Error::EBUSY)
                &&& final(self).state == old(self).state
            },
    {
        if !matches!(self.state, UfsRequestState::Idle) {
            return Err(Error::EBUSY);
        }
        self.state = UfsRequestState::Prepared { cmd: UfsCmd::SCSI(cmd), prdt };
        Ok(())
    }

    /// The command that was prepared.
    pub fn prepared_command(&self) -> (r: Result<UfsCmd, Error>)
        ensures
            r == (match self.state {
                UfsRequestState::Prepared { cmd, .. } => Ok::<UfsCmd, Error>(cmd),
                _ => Err(Error::EIO),
            }),
    {
        match &self.state {
            UfsRequestState::Prepared { cmd, .. } => Ok(*cmd),
            _ => Err(Error::EIO),
        }
    }

    /// Takes note that the request goes to a queue.
    pub fn mark_in_flight(&mut self, queue_id: u32) -> (r: Result<(), Error>)
        ensures
            match old(self).state.after_submit(queue_id) {
                Some(state) => r == Ok::<(), Error>(()) && final(self).state == state,
                None => r == Err::<(), Error>(Error::EIO) && final(self).state == old(self).state,
            },
    {
        let mut state = UfsRequestState::Idle;
        core::mem::swap(&mut self.state, &mut state);
        match state {
            UfsRequestState::Prepared { cmd, prdt } => {
                self.state = UfsRequestState::InFlight { cmd, prdt, queue_id };
                Ok(())
            },
            state => {
                self.state = state;
                Err(Error::EIO)
            },
        }
    }

    /// Takes a request back from the controller that was submitted to this
    /// queue, with its command and its mapping.
    pub fn begin_completion(&mut self, queue_id: u32) -> (r: Result<
        (UfsCmd, Option<UfsPrdtMapping>),
        Error,
    >)
        ensures
            if old(self).state.submitted_to() == Some(queue_id) {
                &&& r matches Ok(held) && old(self).state.held() == Some(held)
                &&& final(self).state is Completing
            } else {
                &&& r == Err::<(UfsCmd, Option<UfsPrdtMapping>), Error>(Error::EIO)
                &&& final(self).state == old(self).state
            },
    {
        let mut state = UfsRequestState::Idle;
        core::mem::swap(&mut self.state, &mut state);
        match state {
            UfsRequestState::InFlight { cmd, prdt, queue_id: submitted_queue } => {
                if submitted_queue == queue_id {
                    self.state = UfsRequestState::Completing;
                    Ok((cmd, prdt))
                } else {
                    self.state = UfsRequestState::InFlight { cmd, prdt, queue_id: submitted_queue };
                    Err(Error::EIO)
                }
            },
            UfsRequestState::Recovering { cmd, prdt, queue_id: submitted_queue } => {
                if submitted_queue == queue_id {
                    self.state = UfsRequestState::Completing;
                    Ok((cmd, prdt))
                } else {
                    self.state = UfsRequestState::Recovering {
                        cmd,
                        prdt,
                        queue_id: submitted_queue,
                    };
                    Err(Error::EIO)
                }
            },
            state => {
                self.state = state;
                Err(Error::EIO)
            },
        }
    }

    /// Takes note of a timeout. The request keeps its command, its mapping and
    /// its queue.
    pub fn timeout(&mut self) -> (r: TimeoutDisposition)
        ensures
            r == old(self).state.timeout_finds(),
            final(self).state == old(self).state.after_timeout(),
    {
        let mut state = UfsRequestState::Idle;
        core::mem::swap(&mut self.state, &mut state);
        match state {
            UfsRequestState::Prepared { cmd, prdt } => {
                self.state = UfsRequestState::Prepared { cmd, prdt };
                TimeoutDisposition::Pending(cmd)
            },
            UfsRequestState::InFlight { cmd, prdt, queue_id } => {
                self.state = UfsRequestState::Recovering { cmd, prdt, queue_id };
                TimeoutDisposition::StartRecovery(cmd)
            },
            UfsRequestState::Recovering { cmd, prdt, queue_id } => {
                self.state = UfsRequestState::Recovering { cmd, prdt, queue_id };
                TimeoutDisposition::Recovering(cmd)
            },
            state => {
                self.state = state;
                TimeoutDisposition::Completed
            },
        }
    }

    /// Leaves the answer to a device management command.
    pub fn complete_device(&mut self, cmd: UfsDevCmd) -> (r: Result<(), Error>)
        ensures
            if old(self).state is Completing {
                r == Ok::<(), Error>(()) && final(self).state == UfsRequestState::DeviceComplete(
                    cmd,
                )
            } else {
                r == Err::<(), Error>(Error::EIO) && final(self).state == old(self).state
            },
    {
        if !matches!(self.state, UfsRequestState::Completing) {
            return Err(Error::EIO);
        }
        self.state = UfsRequestState::DeviceComplete(cmd);
        Ok(())
    }

    /// Leaves how the request is to go back to the block layer.
    pub fn schedule_completion(&mut self, disposition: CompletionDisposition) -> (r: Result<
        (),
        Error,
    >)
        ensures
            if old(self).state is Completing {
                r == Ok::<(), Error>(()) && final(self).state == UfsRequestState::CompletionReady(
                    disposition,
                )
            } else {
                r == Err::<(), Error>(Error::EIO) && final(self).state == old(self).state
            },
    {
        if !matches!(self.state, UfsRequestState::Completing) {
            return Err(Error::EIO);
        }
        self.state = UfsRequestState::CompletionReady(disposition);
        Ok(())
    }

    /// Takes up how the request is to go back to the block layer.
    pub fn take_scheduled_completion(&mut self) -> (r: Result<CompletionDisposition, Error>)
        ensures
            match old(self).state {
                UfsRequestState::CompletionReady(disposition) => r == Ok::<
                    CompletionDisposition,
                    Error,
                >(disposition) && final(self).state is Idle,
                _ => r == Err::<CompletionDisposition, Error>(Error::EIO) && final(self).state
                    == old(self).state,
            },
    {
        let mut state = UfsRequestState::Idle;
        core::mem::swap(&mut self.state, &mut state);
        match state {
            UfsRequestState::CompletionReady(disposition) => Ok(disposition),
            state => {
                self.state = state;
                Err(Error::EIO)
            },
        }
    }

    /// Ends a completion on the spot.
    pub fn finish_direct_completion(&mut self) -> (r: Result<(), Error>)
        ensures
            if old(self).state is Completing {
                r == Ok::<(), Error>(()) && final(self).state is Idle
            } else {
                r == Err::<(), Error>(Error::EIO) && final(self).state == old(self).state
            },
    {
        if !matches!(self.state, UfsRequestState::Completing) {
            return Err(Error::EIO);
        }
        self.state = UfsRequestState::Idle;
        Ok(())
    }

    /// Takes up the answer to a device management command.
    pub fn take_device_completion(&mut self) -> (r: Result<UfsCmd, Error>)
        ensures
            match old(self).state {
                UfsRequestState::DeviceComplete(cmd) => r == Ok::<UfsCmd, Error>(
                    UfsCmd::Device(cmd),
                ) && final(self).state is Idle,
                _ => r == Err::<UfsCmd, Error>(Error::EIO) && final(self).state == old(self).state,
            },
    {
        let mut state = UfsRequestState::Idle;
        core::mem::swap(&mut self.state, &mut state);
        match state {
            UfsRequestState::DeviceComplete(cmd) => Ok(UfsCmd::Device(cmd)),
            state => {
                self.state = state;
                Err(Error::EIO)
            },
        }
    }

    /// Gives up what the request holds. The result is the mapping that has to be
    /// released.
    pub fn reset(&mut self) -> (r: Option<UfsPrdtMapping>)
        ensures
            final(self).state is Idle,
            r == (match old(self).state.held() {
                Some((_, prdt)) => prdt,
                None => None,
            }),
    {
        let mut state = UfsRequestState::Idle;
        core::mem::swap(&mut self.state, &mut state);
        match state {
            UfsRequestState::Prepared { prdt, .. } => prdt,
            UfsRequestState::InFlight { prdt, .. } => prdt,
            UfsRequestState::Recovering { prdt, .. } => prdt,
            _ => None,
        }
    }
}

/// A prepared request that goes to a queue and comes back from it, on time or
/// not, comes back with the command and the mapping that it was prepared with.
pub proof fn law_request_keeps_command(state: UfsRequestState, queue_id: u32)
    requires
        state is Prepared,
    ensures
        ({
            let sent = state.after_submit(queue_id)->0;
            &&& state.after_submit(queue_id) is Some
            &&& sent.held() == state.held()
            &&& sent.submitted_to() == Some(queue_id)
            &&& sent.after_timeout().held() == state.held()
            &&& sent.after_timeout().submitted_to() == Some(queue_id)
        }),
{
}

/// A timeout never takes a request away from the queue that has it, and a
/// second timeout changes nothing.
pub proof fn law_timeout_keeps_request(state: UfsRequestState)
    ensures
        state.after_timeout().held() == state.held(),
        state.after_timeout().submitted_to() == state.submitted_to(),
        state.after_timeout().after_timeout() == state.after_timeout(),
        state.submitted_to() is Some ==> state.after_timeout() is Recovering,
        state.timeout_finds() is Completed <==> state.held() is None,
{
}

/// A request completes once: while its completion is looked at, and as long as
/// it is not submitted again, it is with no queue, so no completion can claim
/// it.
pub proof fn law_completion_is_claimed_once(state: UfsRequestState)
    requires
        state is Completing || state is CompletionReady || state is DeviceComplete || state is Idle,
    ensures
        state.submitted_to() is None,
        state.held() is None,
        state.after_timeout() == state,
{
}

/// What the states of a request mean. Only a prepared request can be handed to a
/// queue, and it is with that queue from then on. It is held until it completes.
pub proof fn law_submission_needs_preparation(
    state: UfsRequestState,
    cmd: UfsCmd,
    prdt: Option<UfsPrdtMapping>,
    queue_id: u32,
)
    ensures
        state.after_submit(queue_id) is Some <==> state is Prepared,
        state == (UfsRequestState::Prepared { cmd, prdt }) ==> {
            &&& state.held() == Some((cmd, prdt))
            &&& state.submitted_to() is None
            &&& state.after_submit(queue_id) == Some(
                UfsRequestState::InFlight { cmd, prdt, queue_id },
            )
        },
        state.submitted_to() is Some <==> state is InFlight || state is Recovering,
        state == (UfsRequestState::InFlight { cmd, prdt, queue_id }) ==> {
            &&& state.held() == Some((cmd, prdt))
            &&& state.submitted_to() == Some(queue_id)
        },
        state == (UfsRequestState::Recovering { cmd, prdt, queue_id }) ==> {
            &&& state.held() == Some((cmd, prdt))
            &&& state.submitted_to() == Some(queue_id)
        },
{
}

/// What a timeout tells of each state. Recovery starts with the first timeout of a
/// request that is with the controller, and with no other; what is reported is the
/// command that the request holds.
pub proof fn law_timeout_starts_recovery_once(state: UfsRequestState)
    ensures
        state.timeout_finds() is StartRecovery <==> state is InFlight,
        state.timeout_finds() is Recovering <==> state is Recovering,
        state.timeout_finds() is Pending <==> state is Prepared,
        state.timeout_finds() matches TimeoutDisposition::StartRecovery(cmd) ==> (state.held() matches
            Some(held) && held.0 == cmd),
        state.timeout_finds() matches TimeoutDisposition::Recovering(cmd) ==> (state.held() matches
            Some(held) && held.0 == cmd),
        state.timeout_finds() matches TimeoutDisposition::Pending(cmd) ==> (state.held() matches
            Some(held) && held.0 == cmd),
        state.after_timeout().timeout_finds() !is StartRecovery,
        !(state is InFlight) ==> state.after_timeout() == state,
{
}

/// A request that is prepared, handed to a queue and completed by that queue comes
/// back with the command and the mapping that it was prepared with, and no
/// completion of another queue can take it.
pub proof fn law_request_goes_through(
    prepared: &mut UfsRequestInner,
    cmd: UfsSCSICmd,
    prdt: Option<UfsPrdtMapping>,
    first: Result<(), Error>,
    sent: &mut UfsRequestInner,
    queue_id: u32,
    second: Result<(), Error>,
    done: &mut UfsRequestInner,
    from: u32,
    third: Result<(UfsCmd, Option<UfsPrdtMapping>), Error>,
)
    requires
        old(prepared).state is Idle,
        call_ensures(UfsRequestInner::prepare_scsi, (prepared, cmd, prdt), first),
        *old(sent) == *final(prepared),
        call_ensures(UfsRequestInner::mark_in_flight, (sent, queue_id), second),
        *old(done) == *final(sent),
        call_ensures(UfsRequestInner::begin_completion, (done, from), third),
    ensures
        first is Ok,
        second is Ok,
        from == queue_id ==> third == Ok::<(UfsCmd, Option<UfsPrdtMapping>), Error>(
            (UfsCmd::SCSI(cmd), prdt),
        ),
        from != queue_id ==> third is Err && final(done).state == old(done).state,
{
}

/// What a request that is given up held is handed out to be released, and the
/// request is idle.
pub proof fn law_reset_releases_mapping(request: &mut UfsRequestInner, r: Option<UfsPrdtMapping>)
    requires
        call_ensures(UfsRequestInner::reset, (request,), r),
    ensures
        final(request).state is Idle,
        old(request).state matches UfsRequestState::Prepared { prdt, .. } ==> r == prdt,
        old(request).state matches UfsRequestState::InFlight { prdt, .. } ==> r == prdt,
        old(request).state matches UfsRequestState::Recovering { prdt, .. } ==> r == prdt,
        old(request).state.held() is None ==> r is None,
{
}

/// The answer to a device management command is taken up once.
pub proof fn law_answer_is_taken_once(
    request: &mut UfsRequestInner,
    cmd: UfsDevCmd,
    left: Result<(), Error>,
    taken: &mut UfsRequestInner,
    first: Result<UfsCmd, Error>,
    again: &mut UfsRequestInner,
    second: Result<UfsCmd, Error>,
)
    requires
        call_ensures(UfsRequestInner::complete_device, (request, cmd), left),
        *old(taken) == *final(request),
        call_ensures(UfsRequestInner::take_device_completion, (taken,), first),
        *old(again) == *final(taken),
        call_ensures(UfsRequestInner::take_device_completion, (again,), second),
    ensures
        left is Ok <==> old(request).state is Completing,
        left is Ok ==> first == Ok::<UfsCmd, Error>(UfsCmd::Device(cmd)),
        second == Err::<UfsCmd, Error>(Error::EIO),
{
}

/// A completion that was scheduled is taken as it was, once.
pub proof fn law_scheduled_completion_is_taken_once(
    request: &mut UfsRequestInner,
    disposition: CompletionDisposition,
    scheduled: Result<(), Error>,
    ready: &mut UfsRequestInner,
    taken: Result<CompletionDisposition, Error>,
    idle: &mut UfsRequestInner,
    second: Result<CompletionDisposition, Error>,
)
    requires
        call_ensures(UfsRequestInner::schedule_completion, (request, disposition), scheduled),
        *old(ready) == *final(request),
        call_ensures(UfsRequestInner::take_scheduled_completion, (ready,), taken),
        *old(idle) == *final(ready),
        call_ensures(UfsRequestInner::take_scheduled_completion, (idle,), second),
    ensures
        scheduled is Ok <==> old(request).state is Completing,
        scheduled is Ok ==> taken == Ok::<CompletionDisposition, Error>(disposition),
        scheduled is Err ==> final(request).state == old(request).state,
        second is Err,
{
}

} // verus!
