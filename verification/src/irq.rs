//! Interrupt handling.
//!
//! The primary handler notes which interrupts are pending and wakes the thread;
//! the thread takes the pending interrupts and acts on them.

use vstd::prelude::*;

use crate::error::Error;
use crate::queue::UfsQueue;
use crate::recovery::{RecoveryCause, RecoveryReason, RecoveryScope};
use crate::reg::{
    self, confirm_transfer_interrupts, confirm_uic_interrupts, is_error_interrupt,
    is_transfer_recovery_interrupt, is_uic_error_interrupt, read_transfer_interrupts,
    read_uic_interrupts, RegOp, UicErrorStatus, INTERRUPT_STATUS, TRANSFER_INTR_MASK,
    UIC_INTR_MASK,
};
use crate::uic::{self, UfsUic};

verus! {

/// When interrupts are acknowledged.
#[derive(Clone, Copy, Debug, PartialEq, Eq, Structural)]
pub enum UfsInterruptPolicy {
    /// By the primary handler. What has completed remains visible in the
    /// doorbell register, so the next completion may interrupt meanwhile.
    EagerAck,
    /// By the thread, with the interrupt masked until then. An event of a
    /// completion queue stays asserted until the queue is drained.
    ThreadedAck,
}

/// How an interrupt is requested.
#[derive(Clone, Copy, Debug, PartialEq, Eq, Structural)]
pub struct IrqFlags {
    pub shared: bool,
    pub oneshot: bool,
}

/// How an interrupt is requested under a policy.
pub fn registration_flags(policy: UfsInterruptPolicy) -> (r: IrqFlags)
    ensures
        r == (IrqFlags { shared: true, oneshot: policy == UfsInterruptPolicy::ThreadedAck }),
{
    match policy {
        UfsInterruptPolicy::EagerAck => IrqFlags { shared: true, oneshot: false },
        UfsInterruptPolicy::ThreadedAck => IrqFlags { shared: true, oneshot: true },
    }
}

/// Which interrupts a handler is for.
#[derive(Clone, Copy, Debug, PartialEq, Eq, Structural)]
pub enum IrqScope {
    /// All of the controller's.
    Controller,
    /// Those of interconnect commands.
    Uic,
    /// Those of transfers.
    Queue,
}

/// A handler and the interrupts that wait for its thread.
#[derive(Clone, Copy, Debug, PartialEq, Eq, Structural)]
pub struct UfsControllerHandler {
    pub scope: IrqScope,
    pub policy: UfsInterruptPolicy,
    pub pending_interrupts: u32,
}

/// What the primary handler does.
pub enum PrimaryAction {
    /// The interrupt is not for this handler.
    NotMine,
    /// Acknowledge by these writes, then wake the thread. `error` is set when an
    /// error is among the interrupts.
    Wake { ack: Vec<RegOp>, error: bool },
}

/// What the thread does about the interrupts that it has taken.
pub struct ThreadedStep {
    /// Interrupts of interconnect commands.
    pub uic_status: u32,
    /// Interrupts of transfers.
    pub transfer_status: u32,
    /// The interconnect's error codes have to be read, before anything is
    /// acknowledged.
    pub read_uic_errors: bool,
    /// Acknowledge by these writes.
    pub ack: Vec<RegOp>,
}

/// What is left for the thread to do.
#[derive(Clone, Copy, Debug, PartialEq, Eq, Structural)]
pub struct ThreadedOutcome {
    /// Wake the one who waits for an interconnect command.
    pub complete_uic: bool,
    /// Look for completed transfers.
    pub complete_queue: bool,
}

impl IrqScope {
    /// The interrupts that a handler is for.
    pub open spec fn mask(self) -> u32 {
        match self {
            IrqScope::Controller => UIC_INTR_MASK | TRANSFER_INTR_MASK,
            IrqScope::Uic => UIC_INTR_MASK,
            IrqScope::Queue => TRANSFER_INTR_MASK,
        }
    }

    /// The interrupts of this handler that are pending and enabled.
    pub open spec fn active(self, is: u32, ie: u32) -> u32 {
        match self {
            IrqScope::Controller => (is & ie & UIC_INTR_MASK) | (is & ie & TRANSFER_INTR_MASK),
            IrqScope::Uic => is & ie & UIC_INTR_MASK,
            IrqScope::Queue => is & ie & TRANSFER_INTR_MASK,
        }
    }

    /// The writes that acknowledge interrupts.
    pub open spec fn ack_ops(self, status: u32) -> Seq<RegOp> {
        let uic = RegOp::Write { offset: INTERRUPT_STATUS, value: status & UIC_INTR_MASK };
        let transfer = RegOp::Write { offset: INTERRUPT_STATUS, value: status & TRANSFER_INTR_MASK };
        match self {
            IrqScope::Controller => seq![uic, transfer],
            IrqScope::Uic => seq![uic],
            IrqScope::Queue => seq![transfer],
        }
    }
}

impl UfsControllerHandler {
    /// A handler with nothing pending.
    pub fn new(scope: IrqScope, policy: UfsInterruptPolicy) -> (r: Self)
        ensures
            r == (UfsControllerHandler { scope, policy, pending_interrupts: 0 }),
    {
        UfsControllerHandler { scope, policy, pending_interrupts: 0 }
    }

    /// Acknowledges interrupts.
    fn acknowledge(&self, interrupt_status: u32) -> (r: Vec<RegOp>)
        ensures
            r@ == self.scope.ack_ops(interrupt_status),
    {
        let mut ops: Vec<RegOp> = Vec::new();
        match self.scope {
            IrqScope::Controller => {
                ops.push(confirm_uic_interrupts(interrupt_status));
                ops.push(confirm_transfer_interrupts(interrupt_status));
            },
            IrqScope::Uic => {
                ops.push(confirm_uic_interrupts(interrupt_status));
            },
            IrqScope::Queue => {
                ops.push(confirm_transfer_interrupts(interrupt_status));
            },
        }
        assert(ops@ =~= self.scope.ack_ops(interrupt_status));
        ops
    }

    /// Notes interrupts for the thread.
    fn record_pending_interrupts(&mut self, interrupt_status: u32)
        ensures
            *final(self) == (UfsControllerHandler {
                pending_interrupts: old(self).pending_interrupts | interrupt_status,
                ..*old(self)
            }),
    {
        self.pending_interrupts = self.pending_interrupts | interrupt_status;
    }

    /// The primary handler, given the interrupt status and enable registers.
    pub fn handle(&mut self, is: u32, ie: u32) -> (r: PrimaryAction)
        ensures
            ({
                let status = old(self).scope.active(is, ie);
                if status == 0 {
                    r is NotMine && *final(self) == *old(self)
                } else {
                    &&& *final(self) == (UfsControllerHandler {
                        pending_interrupts: old(self).pending_interrupts | status,
                        ..*old(self)
                    })
                    &&& r matches PrimaryAction::Wake { ack, error } && {
                        &&& ack@ == if old(self).policy == UfsInterruptPolicy::EagerAck {
                            old(self).scope.ack_ops(status)
                        } else {
                            Seq::empty()
                        }
                        &&& error == (old(self).scope != IrqScope::Uic && status & reg::ERROR_MASK
                            != 0)
                    }
                }
            }),
    {
        let interrupt_status = match self.scope {
            IrqScope::Controller => read_uic_interrupts(is, ie) | read_transfer_interrupts(is, ie),
            IrqScope::Uic => read_uic_interrupts(is, ie),
            IrqScope::Queue => read_transfer_interrupts(is, ie),
        };
        if interrupt_status == 0 {
            return PrimaryAction::NotMine;
        }
        self.record_pending_interrupts(interrupt_status);
        let ack = if matches!(self.policy, UfsInterruptPolicy::EagerAck) {
            self.acknowledge(interrupt_status)
        } else {
            Vec::new()
        };
        let error = !matches!(self.scope, IrqScope::Uic) && is_error_interrupt(interrupt_status);
        PrimaryAction::Wake { ack, error }
    }

    /// Takes the pending interrupts, if there are any.
    pub fn take_pending(&mut self) -> (r: Option<ThreadedStep>)
        ensures
            ({
                let status = old(self).pending_interrupts;
                if status == 0 {
                    r is None && *final(self) == *old(self)
                } else {
                    &&& *final(self) == (UfsControllerHandler {
                        pending_interrupts: 0,
                        ..*old(self)
                    })
                    &&& r matches Some(step) && {
                        &&& step.uic_status == status & UIC_INTR_MASK
                        &&& step.transfer_status == status & TRANSFER_INTR_MASK
                        &&& step.read_uic_errors == (old(self).scope != IrqScope::Uic
                            && step.transfer_status & reg::UIC_ERROR != 0)
                        &&& step.ack@ == if old(self).policy == UfsInterruptPolicy::ThreadedAck {
                            old(self).scope.ack_ops(status)
                        } else {
                            Seq::empty()
                        }
                    }
                }
            }),
    {
        let interrupt_status = self.pending_interrupts;
        if interrupt_status == 0 {
            return None;
        }
        self.pending_interrupts = 0;
        let uic_status = interrupt_status & UIC_INTR_MASK;
        let transfer_status = interrupt_status & TRANSFER_INTR_MASK;
        let ack = if matches!(self.policy, UfsInterruptPolicy::ThreadedAck) {
            self.acknowledge(interrupt_status)
        } else {
            Vec::new()
        };
        Some(
            ThreadedStep {
                uic_status,
                transfer_status,
                read_uic_errors: !matches!(self.scope, IrqScope::Uic) && is_uic_error_interrupt(
                    transfer_status,
                ),
                ack,
            },
        )
    }
}

/// The queue after the thread has looked at errors.
pub open spec fn after_errors(
    queue: UfsQueue,
    transfer_status: u32,
    errors: Option<UicErrorStatus>,
) -> UfsQueue {
    let first = match errors {
        Some(errors) => if errors.is_fatal() {
            queue.with_recovery(
                RecoveryCause {
                    reason: RecoveryReason::Uic(errors),
                    scope: RecoveryScope::Controller,
                    tag: 0,
                },
            )
        } else {
            queue
        },
        None => queue,
    };
    if transfer_status & (reg::ERROR_MASK & !reg::UIC_ERROR) != 0 {
        first.with_driver_recovery("transfer error interrupt", 0)
    } else {
        first
    }
}

/// Acts on the interrupts of interconnect commands, given the second and third
/// argument registers. The result says whether a command has completed.
pub fn handle_uic(uic: &mut UfsUic, uic_status: u32, arg2: u32, arg3: u32) -> (r: bool)
    ensures
        match uic::response_of(uic_status, arg2, arg3) {
            Some(rsp) => r && *final(uic) == (UfsUic { rsp: Some(rsp), ..*old(uic) }),
            None => !r && *final(uic) == *old(uic),
        },
{
    uic.get_uic_cmd_response(uic_status, arg2, arg3)
}

/// Acts on the interrupts of transfers, given the interconnect's error codes if
/// they had to be read. Fatal interconnect errors and every other error call for
/// recovery. The result says whether completed transfers have to be looked for.
pub fn handle_transfer(
    queue: &mut UfsQueue,
    transfer_status: u32,
    errors: Option<UicErrorStatus>,
) -> (r: bool)
    ensures
        *final(queue) == after_errors(*old(queue), transfer_status, errors),
        r == (transfer_status != 0),
{
    match errors {
        Some(errors) => {
            if errors.requires_recovery() {
                queue.require_uic_recovery(errors);
            }
        },
        None => {},
    }
    if is_transfer_recovery_interrupt(transfer_status) {
        queue.require_recovery("transfer error interrupt", 0);
    }
    transfer_status != 0
}

/// The thread of the controller's handler: acts on one set of pending
/// interrupts. The queue may not be there yet.
pub fn handle_threaded(
    step: &ThreadedStep,
    uic: &mut UfsUic,
    queue: Option<&mut UfsQueue>,
    arg2: u32,
    arg3: u32,
    errors: Option<UicErrorStatus>,
) -> (r: ThreadedOutcome)
    ensures
        match uic::response_of(step.uic_status, arg2, arg3) {
            Some(rsp) => r.complete_uic && *final(uic) == (UfsUic { rsp: Some(rsp), ..*old(uic) }),
            None => !r.complete_uic && *final(uic) == *old(uic),
        },
        r.complete_queue == (queue is Some && step.transfer_status != 0),
        queue matches Some(q) ==> *final(q) == after_errors(*q, step.transfer_status, errors),
{
    let complete_uic = handle_uic(uic, step.uic_status, arg2, arg3);
    let complete_queue = match queue {
        Some(queue) => handle_transfer(queue, step.transfer_status, errors),
        None => false,
    };
    ThreadedOutcome { complete_uic, complete_queue }
}

/// The queue that a handler serves, once it is there.
pub struct UfsIrq {
    pub attached: bool,
}

impl UfsIrq {
    /// No queue is attached yet.
    pub fn new() -> (r: Self)
        ensures
            !r.attached,
    {
        UfsIrq { attached: false }
    }

    /// Attaches the queue. There can be only one.
    pub fn attach_queue(&mut self) -> (r: Result<(), Error>)
        ensures
            final(self).attached,
            r == (if old(self).attached {
                Err::<(), Error>(Error::EBUSY)
            } else {
                Ok(())
            }),
    {
        if self.attached {
            return Err(Error::EBUSY);
        }
        self.attached = true;
        Ok(())
    }
}

/// No interrupt is lost: whatever the primary handler notes is pending until the
/// thread takes it, together with what was pending before.
pub proof fn law_no_interrupt_lost(handler: UfsControllerHandler, is: u32, ie: u32)
    ensures
        ({
            let noted = handler.pending_interrupts | handler.scope.active(is, ie);
            &&& noted & handler.scope.active(is, ie) == handler.scope.active(is, ie)
            &&& noted & handler.pending_interrupts == handler.pending_interrupts
        }),
{
    let p = handler.pending_interrupts;
    let a = handler.scope.active(is, ie);
    assert((p | a) & a == a && (p | a) & p == p) by (bit_vector);
}

/// The controller's handler acknowledges exactly the interrupts that it acts on:
/// its two writes name every interrupt of interconnect commands and of transfers
/// that is active, each of them once.
pub proof fn law_acknowledged_once(is: u32, ie: u32)
    ensures
        ({
            let status = IrqScope::Controller.active(is, ie);
            &&& (status & UIC_INTR_MASK) | (status & TRANSFER_INTR_MASK) == status
            &&& (status & UIC_INTR_MASK) & (status & TRANSFER_INTR_MASK) == 0
        }),
{
    let e = is & ie;
    let u = UIC_INTR_MASK;
    let t = TRANSFER_INTR_MASK;
    assert(u & t == 0) by {
        reg::law_interrupt_masks();
    }
    assert((((e & u) | (e & t)) & u) | (((e & u) | (e & t)) & t) == (e & u) | (e & t) && (((e & u)
        | (e & t)) & u) & (((e & u) | (e & t)) & t) == 0) by (bit_vector)
        requires
            u & t == 0,
    ;
}

/// Which interrupts a handler acts on: of those that are pending and enabled, the
/// handler of interconnect commands takes bits 4, 5, 6 and 10, the one of
/// transfers takes bits 0, 2, 7, 11, 12, 16, 17, 18 and 20, and the controller's
/// takes both.
pub proof fn law_handlers_share_interrupts(is: u32, ie: u32)
    ensures
        IrqScope::Uic.active(is, ie) == is & ie & 0x0000_0470,
        IrqScope::Queue.active(is, ie) == is & ie & 0x0017_1885,
        IrqScope::Controller.active(is, ie) == is & ie & 0x0017_1cf5,
        IrqScope::Uic.mask() == 0x0000_0470,
        IrqScope::Queue.mask() == 0x0017_1885,
        IrqScope::Controller.mask() == 0x0017_1cf5,
{
    assert((is & ie & 0x0000_0470) | (is & ie & 0x0017_1885) == is & ie & 0x0017_1cf5 && (
    0x0000_0470u32 | 0x0017_1885 == 0x0017_1cf5)) by (bit_vector);
}

/// Acknowledging writes to the interrupt status register what the handler is for
/// and nothing else: the handler of interconnect commands writes those, the one of
/// transfers writes those, and the controller's writes both, one after the other.
pub proof fn law_acknowledge_own_interrupts(status: u32)
    ensures
        ({
            let uic = RegOp::Write { offset: 0x20, value: status & 0x0000_0470 };
            let transfer = RegOp::Write { offset: 0x20, value: status & 0x0017_1885 };
            &&& IrqScope::Uic.ack_ops(status) == seq![uic]
            &&& IrqScope::Queue.ack_ops(status) == seq![transfer]
            &&& IrqScope::Controller.ack_ops(status) == seq![uic, transfer]
        }),
{
}

/// When the thread asks for recovery: for a fatal interconnect error, whose codes
/// are then the cause, and for any other error of a transfer. Otherwise the queue
/// is left alone.
pub proof fn law_errors_call_for_recovery(
    queue: UfsQueue,
    transfer_status: u32,
    errors: Option<UicErrorStatus>,
)
    ensures
        ({
            let fatal = errors matches Some(e) && e.is_fatal();
            let other = transfer_status & 0x0007_1880 != 0;
            let after = after_errors(queue, transfer_status, errors);
            &&& !fatal && !other ==> after == queue
            &&& fatal || other ==> after.recovery.why() is Some
            &&& queue.recovery.why() is Some ==> after.recovery == queue.recovery
            &&& queue.recovery.why() is None && fatal ==> (after.recovery.why()->0.reason matches
                RecoveryReason::Uic(codes) && codes == errors->0)
            &&& queue.recovery.why() is None && !fatal && other ==> (
            after.recovery.why()->0.reason matches RecoveryReason::Driver(words) && words
                == "transfer error interrupt")
            &&& queue.recovery.why() is None && (fatal || other) ==> {
                &&& after.recovery.why()->0.scope is Controller
                &&& after.recovery_due
            }
            &&& after.pool == queue.pool
            &&& after.sdb == queue.sdb
            &&& after.mcq == queue.mcq
            &&& after.dma == queue.dma
        }),
{
    assert(0x0007_1884u32 & !0x4u32 == 0x0007_1880) by (bit_vector);
}

/// Every interrupt that a handler sees is handled: what the primary handler notes
/// is what the thread takes, together with what was pending before, and it is
/// acknowledged by one of the two and not by both.
pub proof fn law_noted_interrupts_are_taken(
    handler: &mut UfsControllerHandler,
    is: u32,
    ie: u32,
    action: PrimaryAction,
    thread: &mut UfsControllerHandler,
    step: Option<ThreadedStep>,
)
    requires
        call_ensures(UfsControllerHandler::handle, (handler, is, ie), action),
        *old(thread) == *final(handler),
        call_ensures(UfsControllerHandler::take_pending, (thread,), step),
    ensures
        ({
            let seen = old(handler).scope.active(is, ie);
            let all = old(handler).pending_interrupts | seen;
            &&& action is NotMine <==> seen == 0
            &&& action matches PrimaryAction::Wake { ack, error } ==> {
                &&& old(handler).policy is EagerAck ==> ack@ == old(handler).scope.ack_ops(seen)
                &&& old(handler).policy is ThreadedAck ==> ack@.len() == 0
                &&& error <==> !(old(handler).scope is Uic) && seen & 0x0007_1884 != 0
            }
            &&& seen != 0 && all != 0 ==> (step matches Some(s) && {
                &&& s.uic_status == all & 0x0000_0470
                &&& s.transfer_status == all & 0x0017_1885
                &&& old(handler).policy is EagerAck ==> s.ack@.len() == 0
                &&& old(handler).policy is ThreadedAck ==> s.ack@ == old(handler).scope.ack_ops(all)
                &&& s.read_uic_errors <==> !(old(handler).scope is Uic) && s.transfer_status & 0x4
                    != 0
            })
            &&& final(thread).pending_interrupts == 0
        }),
{
}

/// Every handler shares its line. It is kept off until the thread is done exactly
/// when the thread acknowledges the interrupts.
pub proof fn law_line_waits_for_the_thread(policy: UfsInterruptPolicy, r: IrqFlags)
    requires
        call_ensures(registration_flags, (policy,), r),
    ensures
        r.shared,
        r.oneshot <==> policy is ThreadedAck,
{
}

/// A queue is attached once.
pub proof fn law_queue_is_attached_once(
    irq: &mut UfsIrq,
    again: &mut UfsIrq,
    first: Result<(), Error>,
    second: Result<(), Error>,
)
    requires
        call_ensures(UfsIrq::attach_queue, (irq,), first),
        *old(again) == *final(irq),
        call_ensures(UfsIrq::attach_queue, (again,), second),
    ensures
        first is Ok <==> !old(irq).attached,
        second == Err::<(), Error>(Error::EBUSY),
{
}

} // verus!
