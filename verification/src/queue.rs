//! The driver's queue: budgets, submission, completion and recovery.

use vstd::prelude::*;

use crate::block::{end_status, BLK_STS_IOERR, BLK_STS_OK};
use crate::command::{self, CommandOwner, CommandPool, CommandSlotState, TaskTag, TASK_TAG_COUNT};
use crate::completion::{
    self, BatchView, CompletedRequest, CompletedRequests, McqHardwareQueue, SdbCompletionSource,
    SdbCompletionState, SubmissionOutcome, COMPLETION_BATCH_SIZE,
};
use crate::dma::{self, UfsDma};
use crate::error::Error;
use crate::hci::{self, CqEntry, UtpOcs};
use crate::mcq::{self, McqView, UfsMcqQueue};
use crate::mcq_setup;
use crate::prdt::{UfsPrdt, UfsPrdtMapping};
use crate::query::{UfsCmd, UfsDevCmd};
use crate::recovery::{RecoveryCause, RecoveryReason, RecoveryScope, RecoveryState};
use crate::reg::{RegOp, UicErrorStatus};
use crate::request::{
    CompletionDisposition, TimeoutDisposition, UfsRequestInner, UfsRequestState,
};
use crate::scsi::{judge_scsi, ScsiVerdict, UfsSCSICmd, UfsScsiCompletion, UfsScsiResult};
use crate::transfer::{UfsQueueMap, UfsTransferConfig};

verus! {

/// A hardware queue, as a submitter knows it.
#[derive(Clone, Copy, Debug, PartialEq, Eq, Structural)]
pub struct UfsHwQueue {
    pub id: u32,
    /// The queue is one of the multi-circular queues.
    pub mcq: bool,
    /// The queue is polled.
    pub poll: bool,
}

/// What becomes of a completion.
#[derive(Clone, Copy, Debug, PartialEq, Eq, Structural)]
pub enum CompletionOutcome {
    /// The request goes back to the block layer.
    Returned,
    /// The request is kept until recovery has stopped the controller.
    RetainedForRecovery,
}

impl CompletionOutcome {
    /// Whether the request goes back to the block layer.
    pub fn returned(self) -> (r: bool)
        ensures
            r == (self == CompletionOutcome::Returned),
    {
        matches!(self, CompletionOutcome::Returned)
    }
}

/// What a request is for, as its queue says.
#[derive(Clone, Copy, Debug, PartialEq, Eq, Structural)]
pub struct RequestContext {
    /// The request's queue carries device management commands.
    pub dev_queue: bool,
    /// The request's queue belongs to a logical unit.
    pub logical_unit: bool,
}

/// A completion whose request is known.
#[derive(Clone, Copy, Debug)]
pub struct ResolvedCompletion {
    pub owner: CommandOwner,
    pub task_tag: TaskTag,
    pub queue_id: u32,
    pub cqe: Option<CqEntry>,
}

/// What a completed command has come to.
pub enum CompletionStep {
    /// The completion belongs to no command that is with the controller.
    Retained,
    /// The mapping is released and the request ends with this status.
    End { prdt: Option<UfsPrdtMapping>, status: u8 },
    /// The mapping is released and the request goes back as the verdict says.
    Scsi { prdt: Option<UfsPrdtMapping>, verdict: ScsiVerdict },
}

/// How a polled request goes back to the block layer.
#[derive(Clone, Copy, Debug, PartialEq, Eq, Structural)]
pub enum PolledAction {
    /// Not at all: recovery needs it.
    Retained,
    /// To be tried again.
    Requeue,
    /// With this status.
    End(u8),
    /// Well, together with the others of its batch.
    Batch,
}

/// The queue that all requests of the driver go through.
pub struct UfsQueue {
    pub config: UfsTransferConfig,
    pub queue_map: UfsQueueMap,
    pub dma: UfsDma,
    pub sdb: SdbCompletionState,
    pub mcq: Vec<UfsMcqQueue>,
    pub recovery: RecoveryState,
    /// Recovery was asked for and its work is not scheduled yet.
    pub recovery_due: bool,
    pub pool: CommandPool,
}

/// The task tag that a budget token stands for.
pub open spec fn budget_tag(budget: Option<u32>) -> Result<TaskTag, Error> {
    match budget {
        None => Err(Error::EIO),
        Some(token) => if token < TASK_TAG_COUNT {
            Ok(TaskTag(token as u8))
        } else {
            Err(Error::EINVAL)
        },
    }
}

/// The task tag that a request's budget token stands for.
pub fn task_tag(budget: Option<u32>) -> (r: Result<TaskTag, Error>)
    ensures
        r == budget_tag(budget),
{
    match budget {
        Some(token) => TaskTag::new(token),
        None => Err(Error::EIO),
    }
}

impl UfsQueue {
    /// Every part is well formed, and the parts fit together.
    pub open spec fn wf(self) -> bool {
        &&& self.dma.wf()
        &&& self.sdb.wf()
        &&& self.pool.wf()
        &&& mcq_setup::queue_set(self.mcq@)
        &&& self.config is Mcq ==> self.mcq.len() == self.config.hw_queue_count()
        &&& self.config.map() == Ok::<UfsQueueMap, Error>(self.queue_map)
        &&& self.pool@.tag_count == self.config.tags()
        &&& self.pool@.max_active == self.config.active_limit()
    }

    /// The queue after recovery was asked for.
    pub open spec fn with_recovery(self, cause: RecoveryCause) -> Self {
        UfsQueue {
            recovery: self.recovery.requested(cause),
            recovery_due: self.recovery_due || self.recovery is Operational,
            ..self
        }
    }

    /// The queue after the driver found something wrong.
    pub open spec fn with_driver_recovery(self, reason: &'static str, tag: usize) -> Self {
        self.with_recovery(
            RecoveryCause {
                reason: RecoveryReason::Driver(reason),
                scope: RecoveryScope::Controller,
                tag,
            },
        )
    }

    /// What keeps a queue from being set up, if anything does.
    pub open spec fn setup_error(config: UfsTransferConfig, mcq_queues: nat) -> Option<Error> {
        let hw_queues = if config is Mcq {
            mcq_queues
        } else {
            1
        };
        match config.map() {
            Err(e) => Some(e),
            Ok(map) => if config.tags() == 0 || config.depth() == 0 || config.active_limit() == 0
                || map.nr_hw_queues == 0 || hw_queues != map.nr_hw_queues {
                Some(Error::EINVAL)
            } else if config.depth() > u32::MAX {
                Some(Error::EOVERFLOW)
            } else if config.active_limit() > config.tags() || config.tags() > TASK_TAG_COUNT {
                Some(Error::EINVAL)
            } else {
                None
            },
        }
    }

    /// The queue is set up for a configuration and nothing went through it yet.
    pub open spec fn is_new(self, config: UfsTransferConfig, mcq: Vec<UfsMcqQueue>) -> bool {
        &&& self.config == config
        &&& self.mcq == mcq
        &&& self.sdb == (SdbCompletionState { outstanding: 0, polled: 0 })
        &&& self.recovery is Operational
        &&& !self.recovery_due
        &&& command::busy(self.pool@.slots) == 0
        &&& self.pool@.tag_count == config.tags()
        &&& self.pool@.max_active == config.active_limit()
    }

    /// The queue map and the free commands for a configuration.
    fn parts(config: UfsTransferConfig, mcq_queues: usize) -> (r: Result<
        (UfsQueueMap, CommandPool),
        Error,
    >)
        ensures
            match Self::setup_error(config, mcq_queues as nat) {
                Some(e) => r == Err::<(UfsQueueMap, CommandPool), Error>(e),
                None => r matches Ok((queue_map, pool)) && {
                    &&& config.map() == Ok::<UfsQueueMap, Error>(queue_map)
                    &&& pool.wf()
                    &&& command::busy(pool@.slots) == 0
                    &&& pool@.tag_count == config.tags()
                    &&& pool@.max_active == config.active_limit()
                },
            },
    {
        let queue_map = match config.queue_map() {
            Ok(queue_map) => queue_map,
            Err(e) => return Err(e),
        };
        let hw_queues = match config {
            UfsTransferConfig::Mcq(_) => mcq_queues,
            UfsTransferConfig::Sdb { .. } => 1,
        };
        let nr_hw_queues = queue_map.nr_hw_queues();
        let task_tag_count = config.tag_count();
        let software_queue_depth = config.software_queue_depth();
        let max_active_commands = config.max_active_commands();
        if task_tag_count == 0 || software_queue_depth == 0 || max_active_commands == 0
            || nr_hw_queues == 0 || hw_queues != nr_hw_queues {
            return Err(Error::EINVAL);
        }
        if u32::try_from(software_queue_depth).is_err() {
            return Err(Error::EOVERFLOW);
        }
        let pool = match CommandPool::new(task_tag_count, max_active_commands) {
            Ok(pool) => pool,
            Err(e) => return Err(e),
        };
        proof {
            command::lemma_busy_none(pool@.slots);
        }
        Ok((queue_map, pool))
    }

    /// A queue for a configuration, over the descriptors and, with
    /// multi-circular queues, the queue pairs.
    pub fn new(config: UfsTransferConfig, dma: UfsDma, mcq: Vec<UfsMcqQueue>) -> (r: Result<
        Self,
        Error,
    >)
        requires
            dma.wf(),
            mcq_setup::queue_set(mcq@),
        ensures
            match Self::setup_error(config, mcq@.len()) {
                Some(e) => r == Err::<Self, Error>(e),
                None => r matches Ok(q) && q.wf() && q.dma == dma && q.is_new(config, mcq),
            },
    {
        let (queue_map, pool) = match Self::parts(config, mcq.len()) {
            Ok(parts) => parts,
            Err(e) => return Err(e),
        };
        Ok(
            UfsQueue {
                config,
                queue_map,
                dma,
                sdb: SdbCompletionState::default(),
                mcq,
                recovery: RecoveryState::Operational,
                recovery_due: false,
                pool,
            },
        )
    }

    /// Number of data mappings for which the platform has to keep room: as many as
    /// commands can be active. Every active command may hold one mapping until it
    /// is completed, so that mapping never has to wait for memory.
    pub fn mapping_reserve(&self) -> (r: usize)
        ensures
            r == self.config.active_limit(),
    {
        self.config.max_active_commands()
    }

    /// Changes over to multi-circular queues, before any request went through the
    /// queue. When that fails, the queue is left as it is.
    pub fn enable_mcq_backend(&mut self, config: UfsTransferConfig, mcq: Vec<UfsMcqQueue>) -> (r:
        Result<(), Error>)
        requires
            old(self).wf(),
            mcq_setup::queue_set(mcq@),
        ensures
            final(self).wf(),
            match Self::setup_error(config, mcq@.len()) {
                Some(e) => r == Err::<(), Error>(e) && *final(self) == *old(self),
                None => {
                    &&& r == Ok::<(), Error>(())
                    &&& final(self).dma == old(self).dma
                    &&& final(self).is_new(config, mcq)
                },
            },
    {
        let (queue_map, pool) = match Self::parts(config, mcq.len()) {
            Ok(parts) => parts,
            Err(e) => return Err(e),
        };
        self.config = config;
        self.queue_map = queue_map;
        self.sdb = SdbCompletionState::default();
        self.mcq = mcq;
        self.recovery = RecoveryState::Operational;
        self.recovery_due = false;
        self.pool = pool;
        Ok(())
    }

    /// The hardware queues.
    pub fn hw_queues(&self) -> (r: Vec<UfsHwQueue>)
        requires
            self.wf(),
        ensures
            match self.config {
                UfsTransferConfig::Sdb { .. } => r@ == seq![
                    UfsHwQueue { id: 0, mcq: false, poll: false },
                ],
                UfsTransferConfig::Mcq(config) => {
                    &&& r.len() == self.mcq.len()
                    &&& forall|i: int|
                        0 <= i < r.len() ==> #[trigger] r@[i] == (UfsHwQueue {
                            id: i as u32,
                            mcq: true,
                            poll: config.interrupt_queues <= i < config.total_queues,
                        })
                },
            },
    {
        let mut hw_queues: Vec<UfsHwQueue> = Vec::new();
        match self.config {
            UfsTransferConfig::Sdb { .. } => {
                hw_queues.push(UfsHwQueue { id: 0, mcq: false, poll: false });
                assert(hw_queues@ =~= seq![UfsHwQueue { id: 0, mcq: false, poll: false }]);
            },
            UfsTransferConfig::Mcq(config) => {
                for i in 0..self.mcq.len()
                    invariant
                        mcq_setup::queue_set(self.mcq@),
                        hw_queues.len() == i,
                        forall|j: int|
                            0 <= j < i ==> #[trigger] hw_queues@[j] == (UfsHwQueue {
                                id: j as u32,
                                mcq: true,
                                poll: config.interrupt_queues <= j < config.total_queues,
                            }),
                {
                    assert(self.mcq@[i as int].wf());
                    let id = self.mcq[i].id();
                    hw_queues.push(
                        UfsHwQueue { id, mcq: true, poll: config.is_poll_queue(id as usize) },
                    );
                }
            },
        }
        hw_queues
    }

    /// Reserves a command for a request of the block layer. The result is a
    /// budget token.
    pub fn try_get_budget(&mut self) -> (r: Option<u32>)
        requires
            old(self).wf(),
        ensures
            final(self).wf(),
            *final(self) == (UfsQueue { pool: final(self).pool, ..*old(self) }),
            r is None <==> command::busy(old(self).pool@.slots) == old(self).pool@.max_active,
            match r {
                Some(token) => {
                    &&& old(self).pool@.lowest_free(token as int)
                    &&& final(self).pool@ == old(self).pool@.with_slot(
                        token as int,
                        CommandSlotState::Reserved,
                    )
                },
                None => final(self).pool@ == old(self).pool@,
            },
    {
        match self.pool.reserve() {
            Some(task_tag) => Some(task_tag.value() as u32),
            None => None,
        }
    }

    /// Binds a reserved command to its request.
    pub fn bind_command(&mut self, task_tag: TaskTag, queue_id: u32, blk_tag: u32) -> (r: Result<
        (),
        Error,
    >)
        requires
            old(self).wf(),
        ensures
            final(self).wf(),
            *final(self) == (UfsQueue { pool: final(self).pool, ..*old(self) }),
            if old(self).pool@.slots[task_tag.0 as int] is Reserved {
                r == Ok::<(), Error>(()) && final(self).pool@ == old(self).pool@.with_slot(
                    task_tag.0 as int,
                    CommandSlotState::Bound(CommandOwner { queue_id, blk_tag }),
                )
            } else {
                r == Err::<(), Error>(Error::EIO) && final(self).pool@ == old(self).pool@
            },
    {
        match self.pool.bind(task_tag, CommandOwner { queue_id, blk_tag }) {
            Ok(()) => Ok(()),
            Err(e) => Err(e),
        }
    }

    /// The request that a command is bound to, if it is bound.
    pub open spec fn owner_of(self, task_tag: TaskTag) -> Result<CommandOwner, Error> {
        match self.pool@.slots[task_tag.0 as int] {
            CommandSlotState::Bound(owner) => Ok(owner),
            _ => Err(Error::EIO),
        }
    }

    /// The request that a command is bound to.
    pub fn command_owner(&self, task_tag: TaskTag) -> (r: Result<CommandOwner, Error>)
        requires
            self.wf(),
        ensures
            r == self.owner_of(task_tag),
    {
        match self.pool.owner(task_tag) {
            Some(owner) => Ok(owner),
            None => Err(Error::EIO),
        }
    }

    /// Gives a budget token back. The result says whether it was in use.
    pub fn put_budget(&mut self, token: u32) -> (r: bool)
        requires
            old(self).wf(),
        ensures
            final(self).wf(),
            *final(self) == (UfsQueue { pool: final(self).pool, ..*old(self) }),
            r == (token < TASK_TAG_COUNT && !(old(self).pool@.slots[token as int] is Free)),
            final(self).pool@ == (if r {
                old(self).pool@.with_slot(token as int, CommandSlotState::Free)
            } else {
                old(self).pool@
            }),
    {
        match TaskTag::new(token) {
            Ok(task_tag) => self.pool.release(task_tag).is_ok(),
            Err(_) => false,
        }
    }

    /// The queue after a request's budget was given back: the command that it
    /// stands for is free, and nothing else is changed.
    pub open spec fn gave_back(self, budget: Option<u32>, next: Self) -> bool {
        &&& next == (UfsQueue { pool: next.pool, ..self })
        &&& next.pool@ == match budget_tag(budget) {
            Ok(task_tag) => self.pool@.with_slot(task_tag.0 as int, CommandSlotState::Free),
            Err(_) => self.pool@,
        }
    }

    /// Gives a request's budget back. The request has none from then on.
    pub fn release_budget(&mut self, budget: &mut Option<u32>)
        requires
            old(self).wf(),
        ensures
            final(self).wf(),
            old(self).gave_back(*old(budget), *final(self)),
            *final(budget) == None::<u32>,
    {
        match *budget {
            Some(token) => {
                proof {
                    command::lemma_pool_is_valid(self.pool);
                }
                let _ = self.put_budget(token);
                assert(self.pool@.slots =~= (match budget_tag(*old(budget)) {
                    Ok(task_tag) => old(self).pool@.with_slot(
                        task_tag.0 as int,
                        CommandSlotState::Free,
                    ),
                    Err(_) => old(self).pool@,
                }).slots);
            },
            None => {},
        }
        *budget = None;
    }

    /// Number of batches that hold the completions of all active commands.
    pub fn completion_pass_limit(&self) -> (r: usize)
        requires
            self.wf(),
        ensures
            r == (if command::busy(self.pool@.slots) == 0 {
                1
            } else {
                (command::busy(self.pool@.slots) + 15) / 16
            }),
    {
        let active = self.pool.active();
        if active == 0 {
            1
        } else {
            (active + (COMPLETION_BATCH_SIZE - 1)) / COMPLETION_BATCH_SIZE
        }
    }

    /// Whether recovery is needed.
    pub fn recovery_required(&self) -> (r: bool)
        ensures
            r == (self.recovery.why() is Some),
    {
        self.recovery.cause().is_some()
    }

    /// Asks for recovery because the driver found something wrong.
    pub fn require_recovery(&mut self, reason: &'static str, tag: usize)
        ensures
            *final(self) == old(self).with_driver_recovery(reason, tag),
    {
        self.request_recovery(
            RecoveryCause {
                reason: RecoveryReason::Driver(reason),
                scope: RecoveryScope::Controller,
                tag,
            },
        );
    }

    /// Asks for recovery because of an interconnect error.
    pub fn require_uic_recovery(&mut self, errors: UicErrorStatus)
        ensures
            *final(self) == old(self).with_recovery(
                RecoveryCause {
                    reason: RecoveryReason::Uic(errors),
                    scope: RecoveryScope::Controller,
                    tag: 0,
                },
            ),
    {
        self.request_recovery(
            RecoveryCause {
                reason: RecoveryReason::Uic(errors),
                scope: RecoveryScope::Controller,
                tag: 0,
            },
        );
    }

    /// Asks for recovery because of a completion that no command owns.
    pub fn require_mcq_recovery(&mut self, queue_id: u32, tag: usize)
        ensures
            *final(self) == old(self).with_recovery(
                RecoveryCause {
                    reason: RecoveryReason::InvalidMcqCompletion,
                    scope: RecoveryScope::Queue(queue_id),
                    tag,
                },
            ),
    {
        self.request_recovery(
            RecoveryCause {
                reason: RecoveryReason::InvalidMcqCompletion,
                scope: RecoveryScope::Queue(queue_id),
                tag,
            },
        );
    }

    /// Asks for recovery. Only the first cause counts, and only for it the
    /// recovery work becomes due.
    pub fn request_recovery(&mut self, cause: RecoveryCause)
        ensures
            *final(self) == old(self).with_recovery(cause),
    {
        if self.recovery.request(cause) {
            self.recovery_due = true;
        }
    }

    /// Whether the recovery work has to be scheduled now; it is asked for once.
    pub fn take_recovery_due(&mut self) -> (r: bool)
        ensures
            r == old(self).recovery_due,
            *final(self) == (UfsQueue { recovery_due: false, ..*old(self) }),
    {
        let due = self.recovery_due;
        self.recovery_due = false;
        due
    }

    /// Puts a device management command into a slot.
    pub fn compose_dev(&mut self, cmd: UfsDevCmd, task_tag: TaskTag) -> (r: Result<(), Error>)
        requires
            old(self).wf(),
        ensures
            final(self).wf(),
            *final(self) == (UfsQueue { dma: final(self).dma, ..*old(self) }),
            if task_tag.0 < old(self).dma@.slots() {
                r == Ok::<(), Error>(()) && final(self).dma@ == old(self).dma@.with_devman(
                    cmd,
                    task_tag.0 as int,
                )
            } else {
                r == Err::<(), Error>(Error::ERANGE) && final(self).dma@ == old(self).dma@
            },
    {
        self.dma.compose_devman_upiu(cmd, task_tag.index())
    }

    /// Why a device management request cannot be composed, if it cannot.
    pub open spec fn dev_refusal(
        self,
        state: UfsRequestState,
        budget: Option<u32>,
        context: RequestContext,
    ) -> Option<Error> {
        if !context.dev_queue {
            Some(Error::EIO)
        } else {
            match state {
                UfsRequestState::Prepared { cmd, .. } => match cmd.device_part() {
                    Err(e) => Some(e),
                    Ok(_) => match budget_tag(budget) {
                        Err(e) => Some(e),
                        Ok(task_tag) => if task_tag.0 >= self.dma@.slots() {
                            Some(Error::ERANGE)
                        } else {
                            None
                        },
                    },
                },
                _ => Some(Error::EIO),
            }
        }
    }

    /// Composes a prepared device management request and binds its command.
    pub fn compose_dev_request(
        &mut self,
        request: &UfsRequestInner,
        budget: Option<u32>,
        context: RequestContext,
        hw_queue: UfsHwQueue,
        blk_tag: u32,
    ) -> (r: Result<(), Error>)
        requires
            old(self).wf(),
        ensures
            final(self).wf(),
            match old(self).dev_refusal(request.state, budget, context) {
                Some(e) => r == Err::<(), Error>(e) && *final(self) == (UfsQueue {
                    dma: final(self).dma,
                    ..*old(self)
                }) && final(self).dma@ == old(self).dma@,
                None => {
                    let tag = budget_tag(budget)->Ok_0.0 as int;
                    let held = request.state.held()->0;
                    let cmd = held.0->Device_0;
                    &&& *final(self) == (UfsQueue {
                        dma: final(self).dma,
                        pool: final(self).pool,
                        ..*old(self)
                    })
                    &&& final(self).dma@ == old(self).dma@.with_devman(cmd, tag)
                    &&& if old(self).pool@.slots[tag] is Reserved {
                        r == Ok::<(), Error>(()) && final(self).pool@ == old(self).pool@.with_slot(
                            tag,
                            CommandSlotState::Bound(
                                CommandOwner { queue_id: hw_queue.id, blk_tag },
                            ),
                        )
                    } else {
                        r == Err::<(), Error>(Error::EIO) && final(self).pool@ == old(self).pool@
                    }
                },
            },
    {
        if !context.dev_queue {
            return Err(Error::EIO);
        }
        let cmd = match request.prepared_command() {
            Ok(cmd) => cmd,
            Err(e) => return Err(e),
        };
        let cmd = match cmd.get_device() {
            Ok(cmd) => cmd,
            Err(e) => return Err(e),
        };
        let task_tag = match task_tag(budget) {
            Ok(task_tag) => task_tag,
            Err(e) => return Err(e),
        };
        match self.compose_dev(cmd, task_tag) {
            Ok(()) => {},
            Err(e) => return Err(e),
        }
        self.bind_command(task_tag, hw_queue.id, blk_tag)
    }

    /// Composes a SCSI command with its table into an idle request and binds its
    /// command. When that fails before the request has taken over what the table
    /// rests on, it is handed back with the error.
    pub fn compose_scsi_cmd(
        &mut self,
        request: &mut UfsRequestInner,
        cmd: UfsSCSICmd,
        task_tag: TaskTag,
        prdt: UfsPrdt,
        hw_queue: UfsHwQueue,
        blk_tag: u32,
    ) -> (r: Result<(), (Error, Option<UfsPrdtMapping>)>)
        requires
            old(self).wf(),
            prdt.wf(),
        ensures
            final(self).wf(),
            *final(self) == (UfsQueue {
                dma: final(self).dma,
                pool: final(self).pool,
                ..*old(self)
            }),
            ({
                let tag = task_tag.0 as int;
                if tag >= old(self).dma@.slots() {
                    &&& r == Err::<(), (Error, Option<UfsPrdtMapping>)>(
                        (Error::ERANGE, prdt.mapping),
                    )
                    &&& final(self).dma@ == old(self).dma@
                    &&& final(self).pool@ == old(self).pool@
                    &&& *final(request) == *old(request)
                } else {
                    &&& final(self).dma@ == old(self).dma@.with_scsi(cmd, tag, prdt.entries@)
                    &&& if !(old(request).state is Idle) {
                        &&& r == Err::<(), (Error, Option<UfsPrdtMapping>)>(
                            (Error::EBUSY, prdt.mapping),
                        )
                        &&& final(self).pool@ == old(self).pool@
                        &&& *final(request) == *old(request)
                    } else {
                        &&& final(request).state == (UfsRequestState::Prepared {
                            cmd: UfsCmd::SCSI(cmd),
                            prdt: prdt.mapping,
                        })
                        &&& if old(self).pool@.slots[tag] is Reserved {
                            &&& r is Ok
                            &&& final(self).pool@ == old(self).pool@.with_slot(
                                tag,
                                CommandSlotState::Bound(
                                    CommandOwner { queue_id: hw_queue.id, blk_tag },
                                ),
                            )
                        } else {
                            &&& r == Err::<(), (Error, Option<UfsPrdtMapping>)>((Error::EIO, None))
                            &&& final(self).pool@ == old(self).pool@
                        }
                    }
                }
            }),
    {
        let tag = task_tag.index();
        if tag >= self.dma.transfer_slots() {
            return Err((Error::ERANGE, prdt.into_mapping()));
        }
        let mapping = match self.dma.compose_scsi_upiu(cmd, tag, prdt) {
            Ok(mapping) => mapping,
            Err(e) => return Err((e, None)),
        };
        if !matches!(request.state, UfsRequestState::Idle) {
            return Err((Error::EBUSY, mapping));
        }
        match request.prepare_scsi(cmd, mapping) {
            Ok(()) => {},
            Err(e) => return Err((e, None)),
        }
        match self.bind_command(task_tag, hw_queue.id, blk_tag) {
            Ok(()) => Ok(()),
            Err(e) => Err((e, None)),
        }
    }

    /// The answer to a device management command.
    pub fn fetch_dev(&self, cmd: UfsDevCmd, task_tag: TaskTag, cqe: Option<CqEntry>) -> (r: Result<
        UfsCmd,
        Error,
    >)
        requires
            self.wf(),
        ensures
            self.dev_answer(cmd, task_tag, cqe, r),
    {
        match self.config {
            UfsTransferConfig::Sdb { .. } => self.dma.fetch_devman_upiu(cmd, task_tag.index()),
            UfsTransferConfig::Mcq(_) => {
                match cqe {
                    Some(cqe) => self.dma.fetch_mcq_devman_upiu(cmd, task_tag.index(), cqe),
                    None => Err(Error::EIO),
                }
            },
        }
    }

    /// `r` is the answer to a device management command: its status comes from
    /// the slot with a single doorbell, and from the completion queue entry with
    /// multi-circular queues.
    pub open spec fn dev_answer(
        self,
        cmd: UfsDevCmd,
        task_tag: TaskTag,
        cqe: Option<CqEntry>,
        r: Result<UfsCmd, Error>,
    ) -> bool {
        let tag = task_tag.0 as int;
        let rsp = self.dma@.ucdl[tag].rsp;
        match self.config {
            UfsTransferConfig::Sdb { .. } => if tag >= self.dma@.slots() {
                r == Err::<UfsCmd, Error>(Error::ERANGE)
            } else {
                dma::devman_outcome(UtpOcs::decode(self.dma@.utrdl[tag].status()), rsp, cmd, r)
            },
            UfsTransferConfig::Mcq(_) => match cqe {
                None => r == Err::<UfsCmd, Error>(Error::EIO),
                Some(cqe) => {
                    let ocs = UtpOcs::decode(cqe.overall_status);
                    if hci::ocs_outcome(ocs) is Ok && tag >= self.dma@.slots() {
                        r == Err::<UfsCmd, Error>(Error::ERANGE)
                    } else {
                        dma::devman_outcome(ocs, rsp, cmd, r)
                    }
                },
            },
        }
    }

    /// What a SCSI command came to.
    pub fn fetch_scsi_completion(&self, task_tag: TaskTag, cqe: Option<CqEntry>) -> (r:
        UfsScsiResult)
        requires
            self.wf(),
        ensures
            self.scsi_answer(task_tag, cqe, r),
    {
        match self.config {
            UfsTransferConfig::Sdb { .. } => self.dma.fetch_scsi_completion(task_tag.index()),
            UfsTransferConfig::Mcq(_) => {
                match cqe {
                    Some(cqe) => self.dma.fetch_mcq_scsi_completion(task_tag.index(), cqe),
                    None => UfsScsiResult::error(0xf),
                }
            },
        }
    }

    /// `r` is what a SCSI command came to.
    pub open spec fn scsi_answer(
        self,
        task_tag: TaskTag,
        cqe: Option<CqEntry>,
        r: UfsScsiResult,
    ) -> bool {
        let tag = task_tag.0 as int;
        let rsp = self.dma@.ucdl[tag].rsp;
        match self.config {
            UfsTransferConfig::Sdb { .. } => if tag >= self.dma@.slots() {
                r.bare(UfsScsiCompletion::Error, 0xf)
            } else {
                dma::scsi_outcome(self.dma@.utrdl[tag].status(), rsp, r)
            },
            UfsTransferConfig::Mcq(_) => match cqe {
                None => r.bare(UfsScsiCompletion::Error, 0xf),
                Some(cqe) => if UtpOcs::decode(cqe.overall_status) == UtpOcs::Success && tag
                    >= self.dma@.slots() {
                    r.bare(UfsScsiCompletion::Error, 0xf)
                } else {
                    dma::scsi_outcome(cqe.overall_status, rsp, r)
                },
            },
        }
    }

    /// Why a request does not get as far as its hardware queue, if it does not.
    pub open spec fn submit_refusal(
        self,
        hw_queue: UfsHwQueue,
        budget: Option<u32>,
        queue_index: u32,
    ) -> Option<Error> {
        match budget_tag(budget) {
            Err(e) => Some(e),
            Ok(_) => if self.recovery.why() is Some {
                Some(Error::EBUSY)
            } else if queue_index != hw_queue.id {
                Some(Error::EINVAL)
            } else {
                None
            },
        }
    }

    /// Hands a composed request to the controller. While recovery is needed
    /// nothing is handed over. `sq_head` is what reading the head register of
    /// the submission queue gave; a single doorbell has none.
    pub fn submit(
        &mut self,
        request: &mut UfsRequestInner,
        hw_queue: UfsHwQueue,
        budget: Option<u32>,
        queue_index: u32,
        polled: bool,
        sq_head: Result<u32, Error>,
    ) -> (r: SubmissionOutcome)
        requires
            old(self).wf(),
            hw_queue.mcq ==> hw_queue.id < old(self).mcq.len(),
        ensures
            final(self).wf(),
            match old(self).submit_refusal(hw_queue, budget, queue_index) {
                Some(e) => {
                    &&& r == SubmissionOutcome::NotSubmitted(e)
                    &&& *final(self) == *old(self)
                    &&& *final(request) == *old(request)
                },
                None => if hw_queue.mcq {
                    let id = hw_queue.id as int;
                    let tag = budget_tag(budget)->Ok_0.0 as u32;
                    let q = old(self).mcq@[id]@;
                    &&& *final(self) == (UfsQueue { mcq: final(self).mcq, ..*old(self) })
                    &&& final(self).mcq.len() == old(self).mcq.len()
                    &&& forall|i: int|
                        0 <= i < old(self).mcq.len() && i != id ==> #[trigger] final(self).mcq@[i]
                            == old(self).mcq@[i]
                    &&& match McqHardwareQueue::refusal(q, old(self).dma@, tag, sq_head) {
                        Some(e) => {
                            &&& r == SubmissionOutcome::NotSubmitted(e)
                            &&& final(self).mcq@[id]@ == q
                            &&& *final(request) == *old(request)
                        },
                        None => {
                            let entered = q.submitted(old(self).dma@.utrdl[tag as int]);
                            match old(request).state.after_submit(hw_queue.id) {
                                None => {
                                    &&& r == SubmissionOutcome::NotSubmitted(Error::EIO)
                                    &&& final(self).mcq@[id]@ == (McqView {
                                        sq_tail: q.sq_tail,
                                        ..entered
                                    })
                                    &&& final(request).state == old(request).state
                                },
                                Some(state) => {
                                    &&& r is Submitted
                                    &&& r->Submitted_0 == final(self).mcq@[id].sq_tail_write()
                                    &&& final(self).mcq@[id]@ == entered
                                    &&& final(request).state == state
                                },
                            }
                        },
                    }
                } else {
                    let tag = budget_tag(budget)->Ok_0.0 as u32;
                    &&& *final(self) == (UfsQueue { sdb: final(self).sdb, ..*old(self) })
                    &&& match SdbCompletionState::mask_of(tag) {
                        None => {
                            &&& r == SubmissionOutcome::NotSubmitted(Error::EINVAL)
                            &&& final(self).sdb == old(self).sdb
                            &&& *final(request) == *old(request)
                        },
                        Some(mask) => if old(self).sdb.outstanding & mask != 0 {
                            &&& r == SubmissionOutcome::NotSubmitted(Error::EBUSY)
                            &&& final(self).sdb == old(self).sdb
                            &&& *final(request) == *old(request)
                        } else {
                            match old(request).state.after_submit(hw_queue.id) {
                                None => {
                                    &&& r == SubmissionOutcome::NotSubmitted(Error::EIO)
                                    &&& final(self).sdb == old(self).sdb
                                    &&& final(request).state == old(request).state
                                },
                                Some(state) => {
                                    &&& r == SubmissionOutcome::Submitted(
                                        RegOp::Write {
                                            offset: crate::reg::UTP_TRANSFER_REQ_DOOR_BELL,
                                            value: mask,
                                        },
                                    )
                                    &&& final(self).sdb == old(self).sdb.submitted(mask, polled)
                                    &&& final(request).state == state
                                },
                            }
                        },
                    }
                },
            },
    {
        let task_tag = match task_tag(budget) {
            Ok(task_tag) => task_tag,
            Err(e) => return SubmissionOutcome::NotSubmitted(e),
        };
        if self.recovery_required() {
            return SubmissionOutcome::NotSubmitted(Error::EBUSY);
        }
        if queue_index != hw_queue.id {
            return SubmissionOutcome::NotSubmitted(Error::EINVAL);
        }
        let tag = task_tag.value() as u32;
        if hw_queue.mcq {
            assert(self.mcq@[hw_queue.id as int].wf());
            let queue = &mut self.mcq[hw_queue.id as usize];
            McqHardwareQueue::submit(queue, &self.dma, request, tag, sq_head)
        } else {
            self.sdb.submit(request, hw_queue.id, tag, polled)
        }
    }

    /// Takes note that the controller could not be told of a submission. The
    /// request stays where it is until recovery.
    pub fn publish_failed(&mut self, task_tag: TaskTag)
        ensures
            *final(self) == old(self).with_driver_recovery(
                "submission publish failed",
                task_tag.0 as usize,
            ),
    {
        self.require_recovery("submission publish failed", task_tag.index());
    }

    /// Takes note of a request's timeout. The result says whether the request is
    /// done; else its tag is kept until recovery has stopped the controller, so
    /// that a late completion cannot refer to a request that uses the tag again.
    pub fn timeout(&mut self, request: &mut UfsRequestInner, tag: u32) -> (r: bool)
        requires
            old(self).wf(),
        ensures
            final(self).wf(),
            final(request).state == old(request).state.after_timeout(),
            r == (old(request).state.timeout_finds() is Completed),
            *final(self) == (if old(request).state is InFlight {
                old(self).with_driver_recovery("request timeout", tag as usize)
            } else {
                *old(self)
            }),
    {
        match request.timeout() {
            TimeoutDisposition::StartRecovery(_) => {
                self.require_recovery("request timeout", tag as usize);
                false
            },
            TimeoutDisposition::Recovering(_) => false,
            TimeoutDisposition::Pending(_) => false,
            TimeoutDisposition::Completed => true,
        }
    }

    /// Looks at a completion. `tag` is the block layer's tag of the request.
    ///
    /// A completion of a request that the queue does not have with the
    /// controller calls for recovery. A request whose queue fits neither its
    /// command nor a logical unit ends with an I/O error.
    pub fn complete_with(
        &mut self,
        request: &mut UfsRequestInner,
        context: RequestContext,
        tag: u32,
        task_tag: TaskTag,
        queue_id: u32,
        cqe: Option<CqEntry>,
    ) -> (r: CompletionStep)
        requires
            old(self).wf(),
        ensures
            final(self).wf(),
            if old(request).state.submitted_to() != Some(queue_id) {
                &&& r is Retained
                &&& *final(self) == old(self).with_driver_recovery(
                    "completion for inactive request",
                    tag as usize,
                )
                &&& final(request).state == old(request).state
            } else {
                let held = old(request).state.held()->0;
                &&& *final(self) == *old(self)
                &&& match held.0 {
                    UfsCmd::Device(cmd) => if !context.dev_queue {
                        &&& r == (CompletionStep::End { prdt: held.1, status: BLK_STS_IOERR })
                        &&& final(request).state is Idle
                    } else {
                        exists|answer: Result<UfsCmd, Error>|
                            {
                                &&& #[trigger] old(self).dev_answer(cmd, task_tag, cqe, answer)
                                &&& match answer {
                                    Ok(UfsCmd::Device(done)) => {
                                        &&& r == (CompletionStep::End {
                                            prdt: held.1,
                                            status: BLK_STS_OK,
                                        })
                                        &&& final(request).state == UfsRequestState::DeviceComplete(
                                            done,
                                        )
                                    },
                                    _ => {
                                        &&& r == (CompletionStep::End {
                                            prdt: held.1,
                                            status: BLK_STS_IOERR,
                                        })
                                        &&& final(request).state is Idle
                                    },
                                }
                            }
                    },
                    UfsCmd::SCSI(_) => if !context.logical_unit {
                        &&& r == (CompletionStep::End { prdt: held.1, status: BLK_STS_IOERR })
                        &&& final(request).state is Idle
                    } else {
                        &&& r is Scsi
                        &&& r->Scsi_prdt == held.1
                        &&& exists|result: UfsScsiResult|
                            #[trigger] old(self).scsi_answer(task_tag, cqe, result)
                                && r->verdict.judges(result)
                        &&& final(request).state is Completing
                    },
                }
            },
    {
        let (cmd, prdt) = match request.begin_completion(queue_id) {
            Ok(held) => held,
            Err(_) => {
                self.require_recovery("completion for inactive request", tag as usize);
                return CompletionStep::Retained;
            },
        };
        match cmd {
            UfsCmd::Device(cmd) => {
                if !context.dev_queue {
                    let _ = request.reset();
                    return CompletionStep::End { prdt, status: BLK_STS_IOERR };
                }
                let result = self.fetch_dev(cmd, task_tag, cqe);
                assert(old(self).dev_answer(cmd, task_tag, cqe, result));
                let status = match result {
                    Ok(UfsCmd::Device(cmd)) => {
                        if request.complete_device(cmd).is_err() {
                            let _ = request.reset();
                            BLK_STS_IOERR
                        } else {
                            BLK_STS_OK
                        }
                    },
                    _ => {
                        let _ = request.reset();
                        BLK_STS_IOERR
                    },
                };
                CompletionStep::End { prdt, status }
            },
            UfsCmd::SCSI(_) => {
                if !context.logical_unit {
                    let _ = request.reset();
                    return CompletionStep::End { prdt, status: BLK_STS_IOERR };
                }
                let result = self.fetch_scsi_completion(task_tag, cqe);
                assert(old(self).scsi_answer(task_tag, cqe, result));
                CompletionStep::Scsi { prdt, verdict: judge_scsi(&result) }
            },
        }
    }

    /// Ends a request. Its budget is given back first, whatever comes of it. The
    /// request can only end when nobody else refers to it.
    pub fn end_device_request(&mut self, tag: u32, budget: &mut Option<u32>, unique: bool) -> (r:
        CompletionOutcome)
        requires
            old(self).wf(),
        ensures
            final(self).wf(),
            *final(budget) == None::<u32>,
            exists|released: UfsQueue|
                {
                    &&& #[trigger] old(self).gave_back(*old(budget), released)
                    &&& if unique {
                        r == CompletionOutcome::Returned && *final(self) == released
                    } else {
                        &&& r == CompletionOutcome::RetainedForRecovery
                        &&& *final(self) == released.with_driver_recovery(
                            "device completion ownership conflict",
                            tag as usize,
                        )
                    }
                },
    {
        self.release_budget(budget);
        let ghost released = *self;
        assert(old(self).gave_back(*old(budget), released));
        if !unique {
            self.require_recovery("device completion ownership conflict", tag as usize);
            return CompletionOutcome::RetainedForRecovery;
        }
        CompletionOutcome::Returned
    }

    /// Leaves with a request how it goes back to the block layer. When it is
    /// returned, its budget is given back and the block layer is told to complete
    /// it; when it is kept for recovery, it keeps its budget.
    pub fn complete_scsi(
        &mut self,
        request: &mut UfsRequestInner,
        tag: u32,
        verdict: ScsiVerdict,
        budget: &mut Option<u32>,
    ) -> (r: CompletionOutcome)
        requires
            old(self).wf(),
        ensures
            final(self).wf(),
            if old(request).state is Completing {
                &&& r == CompletionOutcome::Returned
                &&& old(self).gave_back(*old(budget), *final(self))
                &&& *final(budget) == None::<u32>
                &&& final(request).state == UfsRequestState::CompletionReady(
                    if verdict.requeue {
                        CompletionDisposition::Requeue
                    } else {
                        CompletionDisposition::End(verdict.status)
                    },
                )
            } else {
                &&& r == CompletionOutcome::RetainedForRecovery
                &&& *final(self) == old(self).with_driver_recovery(
                    "invalid SCSI completion state",
                    tag as usize,
                )
                &&& *final(budget) == *old(budget)
                &&& final(request).state == old(request).state
            },
    {
        let disposition = if verdict.requeue {
            CompletionDisposition::Requeue
        } else {
            CompletionDisposition::End(verdict.status)
        };
        if request.schedule_completion(disposition).is_err() {
            self.require_recovery("invalid SCSI completion state", tag as usize);
            return CompletionOutcome::RetainedForRecovery;
        }
        self.release_budget(budget);
        CompletionOutcome::Returned
    }

    /// Completes a polled request on the spot, if nobody else refers to it. When
    /// it is kept for recovery, it keeps its budget; else the budget is given back
    /// first.
    pub fn complete_scsi_polled(
        &mut self,
        request: &mut UfsRequestInner,
        tag: u32,
        verdict: ScsiVerdict,
        budget: &mut Option<u32>,
        unique: bool,
    ) -> (r: PolledAction)
        requires
            old(self).wf(),
        ensures
            final(self).wf(),
            if !unique {
                &&& r == PolledAction::Retained
                &&& *final(self) == old(self).with_driver_recovery(
                    "polled completion ownership conflict",
                    tag as usize,
                )
                &&& *final(budget) == *old(budget)
                &&& *final(request) == *old(request)
            } else if !(old(request).state is Completing) {
                &&& r == PolledAction::Retained
                &&& *final(self) == old(self).with_driver_recovery(
                    "invalid polled completion state",
                    tag as usize,
                )
                &&& *final(budget) == *old(budget)
                &&& final(request).state == old(request).state
            } else {
                &&& old(self).gave_back(*old(budget), *final(self))
                &&& *final(budget) == None::<u32>
                &&& final(request).state is Idle
                &&& r == (if verdict.requeue {
                    PolledAction::Requeue
                } else if verdict.status != BLK_STS_OK {
                    PolledAction::End(
                        if verdict.status <= u8::MAX {
                            verdict.status as u8
                        } else {
                            BLK_STS_IOERR
                        },
                    )
                } else {
                    PolledAction::Batch
                })
            },
    {
        if !unique {
            self.require_recovery("polled completion ownership conflict", tag as usize);
            return PolledAction::Retained;
        }
        if request.finish_direct_completion().is_err() {
            self.require_recovery("invalid polled completion state", tag as usize);
            return PolledAction::Retained;
        }
        self.release_budget(budget);
        if verdict.requeue {
            return PolledAction::Requeue;
        }
        if verdict.status != BLK_STS_OK as u32 {
            return PolledAction::End(end_status(verdict.status));
        }
        PolledAction::Batch
    }

    /// Finds the request that a completion is about. `found` says whether the
    /// block layer has a request at the tag that the command is bound to.
    pub fn resolve_completion(&mut self, request: CompletedRequest, found: Result<bool, Error>) -> (r:
        Option<ResolvedCompletion>)
        requires
            old(self).wf(),
        ensures
            final(self).wf(),
            ({
                let index = request.task_tag.0 as usize;
                match old(self).owner_of(request.task_tag) {
                    Err(_) => {
                        &&& r is None
                        &&& *final(self) == old(self).with_driver_recovery(
                            "completion request is not shareable",
                            index,
                        )
                    },
                    Ok(owner) => match found {
                        Err(_) => {
                            &&& r is None
                            &&& *final(self) == old(self).with_driver_recovery(
                                "completion request is not shareable",
                                index,
                            )
                        },
                        Ok(false) => {
                            &&& r is None
                            &&& *final(self) == old(self).with_driver_recovery(
                                "completion tag has no request",
                                index,
                            )
                        },
                        Ok(true) => if owner.queue_id != request.queue_id {
                            &&& r is None
                            &&& *final(self) == old(self).with_driver_recovery(
                                "completion queue mismatch",
                                index,
                            )
                        } else {
                            &&& r == Some(
                                ResolvedCompletion {
                                    owner,
                                    task_tag: request.task_tag,
                                    queue_id: request.queue_id,
                                    cqe: request.cqe,
                                },
                            )
                            &&& *final(self) == *old(self)
                        },
                    },
                }
            }),
    {
        let task_tag = request.task_tag;
        let owner = match self.command_owner(task_tag) {
            Ok(owner) => owner,
            Err(_) => {
                self.require_recovery("completion request is not shareable", task_tag.index());
                return None;
            },
        };
        match found {
            Ok(true) => {
                if owner.queue_id != request.queue_id {
                    self.require_recovery("completion queue mismatch", task_tag.index());
                    return None;
                }
                Some(
                    ResolvedCompletion {
                        owner,
                        task_tag,
                        queue_id: request.queue_id,
                        cqe: request.cqe,
                    },
                )
            },
            Ok(false) => {
                self.require_recovery("completion tag has no request", task_tag.index());
                None
            },
            Err(_) => {
                self.require_recovery("completion request is not shareable", task_tag.index());
                None
            },
        }
    }

    /// Collects completions of the single doorbell, as its register shows them.
    pub fn collect_sdb(
        &mut self,
        doorbell: u32,
        source: SdbCompletionSource,
        requests: &mut CompletedRequests,
    ) -> (r: Result<(), Error>)
        requires
            old(self).wf(),
            old(requests).wf(),
        ensures
            final(self).wf(),
            final(requests).wf(),
            r == Ok::<(), Error>(()),
            *final(self) == (UfsQueue { sdb: final(self).sdb, ..*old(self) }),
            ({
                let eligible = old(self).sdb.eligible(doorbell, source);
                let tags = completion::sdb_fitting(old(requests)@, eligible);
                &&& final(requests)@ == (BatchView {
                    inserted: old(requests)@.inserted + tags.map_values(
                        |tag: u32| completion::sdb_completion(tag),
                    ),
                    ..old(requests)@
                })
                &&& exists|mask: u32|
                    {
                        &&& final(self).sdb == old(self).sdb.collected(mask)
                        &&& mask & !eligible == 0
                        &&& forall|i: u32|
                            i < 32 ==> (#[trigger] completion::bit(mask, i) <==> tags.contains(i))
                    }
            }),
    {
        self.sdb.collect(doorbell, source, requests)
    }

    /// Collects completions of one of the multi-circular queues, whose tail
    /// register shows `tail_offset`. The result is the write that tells the
    /// controller the new head, if an entry was taken.
    pub fn collect_mcq(
        &mut self,
        queue_id: usize,
        tail_offset: u32,
        requests: &mut CompletedRequests,
    ) -> (r: Result<Option<RegOp>, Error>)
        requires
            old(self).wf(),
            old(requests).wf(),
            queue_id < old(self).mcq.len(),
        ensures
            final(self).wf(),
            final(requests).wf(),
            *final(self) == (UfsQueue { mcq: final(self).mcq, ..*old(self) }),
            final(self).mcq.len() == old(self).mcq.len(),
            forall|i: int|
                0 <= i < old(self).mcq.len() && i != queue_id ==> #[trigger] final(self).mcq@[i]
                    == old(self).mcq@[i],
            ({
                let before = old(self).mcq@[queue_id as int]@;
                let after = final(self).mcq@[queue_id as int];
                match mcq::slot_at(tail_offset, 32, before.max_entries as u32) {
                    Err(e) => {
                        &&& r == Err::<Option<RegOp>, Error>(e)
                        &&& after@ == before
                        &&& final(requests)@ == old(requests)@
                    },
                    Ok(tail) => {
                        let start = McqView { cq_tail: tail as nat, ..before };
                        let end = completion::drained(start, old(requests)@, old(self).dma@);
                        &&& after@ == end.0
                        &&& final(requests)@ == end.1
                        &&& r == Ok::<Option<RegOp>, Error>(
                            if start.cq_head == start.cq_tail || old(requests)@.full() {
                                None
                            } else {
                                Some(after.cq_head_write())
                            },
                        )
                    },
                }
            }),
    {
        assert(self.mcq@[queue_id as int].wf());
        proof {
            let before = self.mcq@[queue_id as int]@;
            match mcq::slot_at(tail_offset, 32, before.max_entries as u32) {
                Ok(tail) => {
                    completion::lemma_drained_id(
                        McqView { cq_tail: tail as nat, ..before },
                        requests@,
                        self.dma@,
                    );
                },
                Err(_) => {},
            }
        }
        let queue = &mut self.mcq[queue_id];
        McqHardwareQueue::collect_completions(queue, &self.dma, tail_offset, requests)
    }

    /// The queue whose completions an interrupt has to collect next, after
    /// `done` queues: the queues that raise interrupts, one after the other,
    /// until the batch is full.
    pub fn next_interrupt_queue(&self, done: usize, requests: &CompletedRequests) -> (r: Option<
        usize,
    >)
        requires
            self.wf(),
            requests.wf(),
        ensures
            r == (match self.config {
                UfsTransferConfig::Mcq(config) => if done < config.interrupt_queues && done
                    < self.mcq.len() && (done == 0 || !requests@.full()) {
                    Some(done)
                } else {
                    None
                },
                UfsTransferConfig::Sdb { .. } => None,
            }),
    {
        match self.config {
            UfsTransferConfig::Mcq(config) => {
                if done < config.interrupt_queues && done < self.mcq.len() && (done == 0
                    || !requests.is_full()) {
                    Some(done)
                } else {
                    None
                }
            },
            UfsTransferConfig::Sdb { .. } => None,
        }
    }

    /// Whether a hardware queue may be polled.
    pub fn check_poll(&self, hw_queue: UfsHwQueue) -> (r: Result<(), Error>)
        ensures
            r == (if hw_queue.mcq && !hw_queue.poll {
                Err::<(), Error>(Error::EINVAL)
            } else {
                Ok(())
            }),
    {
        if hw_queue.mcq && !hw_queue.poll {
            return Err(Error::EINVAL);
        }
        Ok(())
    }

    /// The queue after a pass over a batch, given the fault that was found, what
    /// collecting came to, and the queue that was polled.
    pub open spec fn after_pass(
        self,
        batch: BatchView,
        collected: Result<(), Error>,
        polled: Option<u32>,
    ) -> Self {
        match batch.fault {
            Some(fault) => match fault.queue_id {
                Some(queue_id) => self.with_recovery(
                    RecoveryCause {
                        reason: RecoveryReason::InvalidMcqCompletion,
                        scope: RecoveryScope::Queue(queue_id),
                        tag: fault.tag,
                    },
                ),
                None => self.with_driver_recovery(fault.reason, fault.tag),
            },
            None => match collected {
                Err(_) => match polled {
                    Some(queue_id) => self.with_driver_recovery(
                        "polled completion collection failed",
                        queue_id as usize,
                    ),
                    None => self.with_driver_recovery("completion collection failed", 0),
                },
                Ok(()) => self,
            },
        }
    }

    /// Ends a pass over a batch of completions. A fault, or a failure to
    /// collect, calls for recovery and ends the passes; so does a batch that was
    /// not full. The result says whether there is to be another pass.
    pub fn finish_pass(
        &mut self,
        requests: &mut CompletedRequests,
        collected: Result<(), Error>,
        polled: Option<u32>,
    ) -> (r: bool)
        requires
            old(self).wf(),
            old(requests).wf(),
        ensures
            final(self).wf(),
            *final(self) == old(self).after_pass(old(requests)@, collected, polled),
            final(requests)@ == (BatchView { fault: None, ..old(requests)@ }),
            r == (old(requests)@.fault is None && collected is Ok && old(requests)@.full()),
    {
        let batch_full = requests.is_full();
        match requests.take_fault() {
            Some(fault) => {
                match fault.queue_id {
                    Some(queue_id) => self.require_mcq_recovery(queue_id, fault.tag),
                    None => self.require_recovery(fault.reason, fault.tag),
                }
                return false;
            },
            None => {},
        }
        match collected {
            Ok(()) => {},
            Err(_) => {
                match polled {
                    Some(queue_id) => self.require_recovery(
                        "polled completion collection failed",
                        queue_id as usize,
                    ),
                    None => self.require_recovery("completion collection failed", 0),
                }
                return false;
            },
        }
        batch_full
    }
}

/// Passes are enough to look at every active command: as many full batches as
/// there may be hold no fewer completions than there are active commands.
pub proof fn law_passes_suffice(active: nat)
    ensures
        ({
            let passes = if active == 0 {
                1
            } else {
                (active + 15) / 16
            };
            passes * COMPLETION_BATCH_SIZE >= active && passes >= 1
        }),
{
}

/// A request that is overdue keeps its command: whatever calls for recovery, the
/// command is still bound to the request, and its tag is not the next one that is
/// handed out. So a late completion cannot refer to a request that uses the tag
/// again.
pub proof fn law_overdue_request_keeps_its_tag(
    q: UfsQueue,
    cause: RecoveryCause,
    task_tag: TaskTag,
    next: int,
)
    requires
        q.wf(),
        q.owner_of(task_tag) is Ok,
    ensures
        q.with_recovery(cause).owner_of(task_tag) == q.owner_of(task_tag),
        q.with_recovery(cause).pool@.lowest_free(next) ==> next != task_tag.0,
{
}

/// A request that gives its budget back frees its command, and no other: every
/// other command stays bound to its request, and one more command can be active.
pub proof fn law_budget_frees_its_command(
    q: UfsQueue,
    budget: Option<u32>,
    next: UfsQueue,
    other: TaskTag,
)
    requires
        q.wf(),
        budget_tag(budget) is Ok,
        !(q.pool@.slots[budget_tag(budget)->Ok_0.0 as int] is Free),
        q.gave_back(budget, next),
    ensures
        next.pool@.slots[budget_tag(budget)->Ok_0.0 as int] is Free,
        other != budget_tag(budget)->Ok_0 ==> next.owner_of(other) == q.owner_of(other),
        command::busy(next.pool@.slots) == command::busy(q.pool@.slots) - 1,
{
    let tag = budget_tag(budget)->Ok_0;
    command::lemma_pool_is_valid(q.pool);
    command::law_pool_stays_valid(q.pool@, tag.0 as int, CommandOwner { queue_id: 0, blk_tag: 0 });
}

/// The room that is kept for data mappings is enough: there are never more active
/// commands than mappings fit in it.
pub proof fn law_active_commands_fit_mapping_reserve(q: UfsQueue)
    requires
        q.wf(),
    ensures
        command::busy(q.pool@.slots) <= q.config.active_limit(),
{
    command::lemma_pool_is_valid(q.pool);
}

/// While recovery is needed no request reaches the controller.
pub proof fn law_no_submission_during_recovery(
    q: UfsQueue,
    cause: RecoveryCause,
    hw_queue: UfsHwQueue,
    budget: Option<u32>,
    queue_index: u32,
)
    ensures
        q.with_recovery(cause).submit_refusal(hw_queue, budget, queue_index) is Some,
{
}

/// A budget token is a task tag: there are 256 of them, and different tokens are
/// different tags. A request without a token has no tag.
pub proof fn law_tokens_are_tags(a: u32, b: u32)
    ensures
        budget_tag(None) == Err::<TaskTag, Error>(Error::EIO),
        a < 256 ==> (budget_tag(Some(a)) matches Ok(tag) && tag.0 == a),
        a >= 256 ==> budget_tag(Some(a)) == Err::<TaskTag, Error>(Error::EINVAL),
        a != b && a < 256 && b < 256 ==> budget_tag(Some(a)) != budget_tag(Some(b)),
{
}

/// Asking for recovery keeps the first cause, has the work scheduled when it is
/// the first to ask, and leaves everything else of the queue alone. What the
/// driver itself finds wrong concerns the whole controller.
pub proof fn law_recovery_is_asked_for(
    q: UfsQueue,
    cause: RecoveryCause,
    reason: &'static str,
    tag: usize,
)
    ensures
        ({
            let after = q.with_recovery(cause);
            &&& after.recovery.why() == if q.recovery.why() is Some {
                q.recovery.why()
            } else {
                Some(cause)
            }
            &&& after.recovery_due == (q.recovery_due || q.recovery.why() is None)
            &&& after.config == q.config
            &&& after.queue_map == q.queue_map
            &&& after.dma == q.dma
            &&& after.sdb == q.sdb
            &&& after.mcq == q.mcq
            &&& after.pool == q.pool
        }),
        ({
            let after = q.with_driver_recovery(reason, tag);
            q.recovery.why() is None ==> (after.recovery.why() matches Some(found) && {
                &&& found.reason == RecoveryReason::Driver(reason)
                &&& found.scope == RecoveryScope::Controller
                &&& found.tag == tag
            })
        }),
{
}

/// What a pass over the completions leaves behind. A fault of a completion queue
/// asks for recovery of that queue; any other fault, or a failure to collect, asks
/// for recovery of the controller; a clean pass changes nothing.
pub proof fn law_pass_reports_faults(
    q: UfsQueue,
    batch: BatchView,
    collected: Result<(), Error>,
    polled: Option<u32>,
)
    requires
        q.recovery.why() is None,
    ensures
        ({
            let after = q.after_pass(batch, collected, polled);
            &&& batch.fault is None && collected is Ok ==> after == q
            &&& batch.fault is Some || collected is Err ==> after.recovery.why() is Some
                && after.recovery_due
            &&& batch.fault matches Some(fault) ==> {
                let cause = after.recovery.why()->0;
                &&& cause.tag == fault.tag
                &&& fault.queue_id matches Some(queue_id) ==> cause.scope == RecoveryScope::Queue(
                    queue_id,
                ) && cause.reason is InvalidMcqCompletion
                &&& fault.queue_id is None ==> cause.scope is Controller && cause.reason
                    == RecoveryReason::Driver(fault.reason)
            }
            &&& batch.fault is None && collected is Err ==> {
                let cause = after.recovery.why()->0;
                &&& cause.scope is Controller
                &&& cause.reason is Driver
                &&& polled matches Some(queue_id) ==> cause.tag == queue_id
                &&& polled is None ==> cause.tag == 0
            }
            &&& after.pool == q.pool
            &&& after.sdb == q.sdb
        }),
{
}

/// The overall status under which a command completed: that of the slot's request
/// descriptor with a single doorbell, that of the completion queue entry with
/// multi-circular queues.
pub open spec fn reported_status(q: UfsQueue, task_tag: TaskTag, cqe: Option<CqEntry>) -> Option<
    int,
> {
    match q.config {
        UfsTransferConfig::Sdb { .. } => Some(
            q.dma@.utrdl[task_tag.0 as int].header.ocs as int % 16,
        ),
        UfsTransferConfig::Mcq(_) => match cqe {
            Some(entry) => Some(entry.overall_status as int),
            None => None,
        },
    }
}

/// When a SCSI command counts as done: exactly when the controller reports success
/// for it and the slot holds a response (0x21) whose status byte is 0. A command
/// that the controller aborted, or for which it gives no known status, is issued
/// again.
pub proof fn law_scsi_success_comes_from_device(
    q: UfsQueue,
    task_tag: TaskTag,
    cqe: Option<CqEntry>,
    result: UfsScsiResult,
    verdict: ScsiVerdict,
)
    requires
        q.dma@.ucdl[task_tag.0 as int].rsp.body.len() == crate::upiu::UPIU_BODY_SIZE,
        q.scsi_answer(task_tag, cqe, result),
        verdict.judges(result),
    ensures
        ({
            let there = task_tag.0 < q.dma@.slots();
            let rsp = q.dma@.ucdl[task_tag.0 as int].rsp.bytes();
            let status = reported_status(q, task_tag, cqe);
            let lost = status matches Some(s) && (s == 6 || s > 10);
            &&& !verdict.requeue && verdict.status == 0 <==> there && status == Some(0int) && rsp[0]
                == 0x21 && rsp[7] == 0
            &&& there && lost ==> verdict.requeue && verdict.status == 9
            &&& status is None ==> !verdict.requeue && verdict.status == 10
        }),
{
    let rsp = q.dma@.ucdl[task_tag.0 as int].rsp;
    crate::scsi::law_verdict_on_every_completion(result, verdict);
    crate::upiu::law_unit_layout(rsp);
    if rsp.reports(result.ocs, result) {
        crate::upiu::law_response_decides(rsp, result.ocs, result, verdict);
    }
}

/// When a device management command has an answer: exactly when the controller
/// reports success for it and the slot holds a response that fits the command. The
/// answer is what the response says.
pub proof fn law_device_answer_comes_from_device(
    q: UfsQueue,
    cmd: UfsDevCmd,
    task_tag: TaskTag,
    cqe: Option<CqEntry>,
    r: Result<UfsCmd, Error>,
)
    requires
        q.dev_answer(cmd, task_tag, cqe, r),
    ensures
        ({
            let there = task_tag.0 < q.dma@.slots();
            let rsp = q.dma@.ucdl[task_tag.0 as int].rsp;
            let status = reported_status(q, task_tag, cqe);
            &&& r is Ok <==> there && status == Some(0int) && rsp.accepts(cmd)
            &&& r is Ok ==> (r->Ok_0 matches UfsCmd::Device(answer) && rsp.answers(cmd, answer))
            &&& there && status == Some(0int) && !rsp.accepts(cmd) ==> r == Err::<UfsCmd, Error>(
                Error::EIO,
            )
            &&& !there && status == Some(0int) ==> r == Err::<UfsCmd, Error>(Error::ERANGE)
            &&& status is None ==> r == Err::<UfsCmd, Error>(Error::EIO)
        }),
{
    let tag = task_tag.0 as int;
    if q.config is Sdb {
        if tag < q.dma@.slots() {
            dma::law_status_decides_device(
                q.dma@.utrdl[tag].status(),
                q.dma@.ucdl[tag].rsp,
                cmd,
                r,
            );
        }
    } else if cqe is Some && !(hci::ocs_outcome(UtpOcs::decode(cqe->0.overall_status)) is Ok && tag
        >= q.dma@.slots()) {
        dma::law_status_decides_device(cqe->0.overall_status, q.dma@.ucdl[tag].rsp, cmd, r);
    }
}

/// What is handed to the controller: a request with a tag, through the hardware
/// queue that the block layer chose for it, while no recovery is needed.
pub proof fn law_what_may_be_submitted(
    q: UfsQueue,
    hw_queue: UfsHwQueue,
    budget: Option<u32>,
    queue_index: u32,
)
    ensures
        q.submit_refusal(hw_queue, budget, queue_index) is None <==> {
            &&& budget matches Some(token) && token < 256
            &&& q.recovery is Operational
            &&& queue_index == hw_queue.id
        },
        budget is None ==> q.submit_refusal(hw_queue, budget, queue_index) == Some(Error::EIO),
        budget matches Some(token) && token >= 256 ==> q.submit_refusal(
            hw_queue,
            budget,
            queue_index,
        ) == Some(Error::EINVAL),
        budget matches Some(token) && token < 256 && !(q.recovery is Operational)
            ==> q.submit_refusal(hw_queue, budget, queue_index) == Some(Error::EBUSY),
        budget matches Some(token) && token < 256 && q.recovery is Operational && queue_index
            != hw_queue.id ==> q.submit_refusal(hw_queue, budget, queue_index) == Some(
            Error::EINVAL,
        ),
{
}

/// Which device management requests are composed: one of the device's own queue,
/// prepared with a device management command, with a tag that has a slot.
pub proof fn law_what_device_request_is_composed(
    q: UfsQueue,
    state: UfsRequestState,
    budget: Option<u32>,
    context: RequestContext,
)
    ensures
        q.dev_refusal(state, budget, context) is None <==> {
            &&& context.dev_queue
            &&& state matches UfsRequestState::Prepared { cmd, .. } && cmd is Device
            &&& budget matches Some(token) && token < 256 && token < q.dma@.slots()
        },
        !context.dev_queue || !(state is Prepared) ==> q.dev_refusal(state, budget, context)
            == Some(Error::EIO),
        context.dev_queue && (state matches UfsRequestState::Prepared { cmd, .. } && cmd is SCSI)
            ==> q.dev_refusal(state, budget, context) == Some(Error::EINVAL),
        context.dev_queue && (state matches UfsRequestState::Prepared { cmd, .. } && cmd is Device)
            && (budget matches Some(token) && q.dma@.slots() <= token < 256) ==> q.dev_refusal(
            state,
            budget,
            context,
        ) == Some(Error::ERANGE),
{
}

/// A command belongs to the request that it was bound to, and to none before it is
/// bound or after it is free.
pub proof fn law_bound_command_has_owner(q: UfsQueue, task_tag: TaskTag, owner: CommandOwner)
    ensures
        q.owner_of(task_tag) == Ok::<CommandOwner, Error>(owner)
            <==> q.pool@.slots[task_tag.0 as int] == CommandSlotState::Bound(owner),
        q.owner_of(task_tag) is Err ==> q.owner_of(task_tag) == Err::<CommandOwner, Error>(
            Error::EIO,
        ),
{
}

/// A queue is set up for a configuration exactly when there is a hardware queue
/// for every one that the map names, tags for at least as many commands as may be
/// active, no more than 256 tags, and a depth that the block layer can count.
pub proof fn law_what_can_be_set_up(config: UfsTransferConfig, mcq_queues: nat)
    ensures
        UfsQueue::setup_error(config, mcq_queues) is None <==> {
            &&& config.map() matches Ok(map) && 0 < map.nr_hw_queues && map.nr_hw_queues == if config
                is Mcq {
                mcq_queues
            } else {
                1
            }
            &&& 0 < config.active_limit() <= config.tags() <= 256
            &&& 0 < config.depth() <= u32::MAX
        },
{
}

/// A budget token that was handed out can be given back, and the commands are then
/// as they were. A token is refused exactly when as many commands are active as may
/// be.
pub proof fn law_budget_goes_out_and_back(
    q: &mut UfsQueue,
    token: Option<u32>,
    next: &mut UfsQueue,
    back: bool,
)
    requires
        old(q).wf(),
        call_ensures(UfsQueue::try_get_budget, (q,), token),
        *old(next) == *final(q),
        token is Some ==> call_ensures(UfsQueue::put_budget, (next, token->0), back),
    ensures
        token is None <==> command::busy(old(q).pool@.slots) == old(q).config.active_limit(),
        token matches Some(t) ==> {
            &&& t < 256
            &&& old(q).pool@.slots[t as int] is Free
            &&& !(final(q).pool@.slots[t as int] is Free)
            &&& back
            &&& final(next).pool@ == old(q).pool@
        },
{
    command::lemma_pool_is_valid(old(q).pool);
    if let Some(t) = token {
        command::law_release_undoes_reserve(
            old(q).pool@,
            t as int,
            CommandOwner { queue_id: 0, blk_tag: 0 },
        );
    }
}

/// What a timeout does: recovery is asked for exactly when the request is with the
/// controller and was not overdue before; the block layer is told that the request
/// is done exactly when the driver holds nothing of it.
pub proof fn law_timeout_calls_for_recovery(
    q: &mut UfsQueue,
    request: &mut UfsRequestInner,
    tag: u32,
    r: bool,
)
    requires
        old(q).wf(),
        old(q).recovery is Operational,
        call_ensures(UfsQueue::timeout, (q, request, tag), r),
    ensures
        final(q).recovery is Operational <==> !(old(request).state is InFlight),
        r <==> old(request).state.held() is None,
        final(request).state.held() == old(request).state.held(),
        final(request).state.submitted_to() == old(request).state.submitted_to(),
        final(q).pool == old(q).pool,
        old(request).state is InFlight ==> final(q).recovery_due,
{
}

/// What becomes of a completion: it is taken only for a request that is with the
/// queue that reports it; any other asks for recovery and changes no request. A
/// SCSI command of a logical unit that ends well is one that the device reports as
/// done. Its mapping is handed out to be released either way.
pub proof fn law_completion_is_taken(
    q: &mut UfsQueue,
    request: &mut UfsRequestInner,
    context: RequestContext,
    tag: u32,
    task_tag: TaskTag,
    queue_id: u32,
    cqe: Option<CqEntry>,
    r: CompletionStep,
)
    requires
        old(q).wf(),
        old(q).dma@.ucdl[task_tag.0 as int].rsp.body.len() == crate::upiu::UPIU_BODY_SIZE,
        call_ensures(
            UfsQueue::complete_with,
            (q, request, context, tag, task_tag, queue_id, cqe),
            r,
        ),
    ensures
        ({
            let ours = old(request).state.submitted_to() == Some(queue_id);
            let there = task_tag.0 < old(q).dma@.slots();
            let rsp = old(q).dma@.ucdl[task_tag.0 as int].rsp.bytes();
            let status = reported_status(*old(q), task_tag, cqe);
            let well = there && status == Some(0int) && rsp[0] == 0x21 && rsp[7] == 0;
            &&& r is Retained <==> !ours
            &&& !ours ==> final(request).state == old(request).state && final(q).recovery.why() is Some
            &&& ours ==> *final(q) == *old(q) && final(request).state.held() is None
            &&& r matches CompletionStep::Scsi { prdt, verdict } ==> {
                &&& old(request).state.held() matches Some(held) && held.1 == prdt && held.0 is SCSI
                &&& context.logical_unit
                &&& !verdict.requeue && verdict.status == 0 <==> well
            }
            &&& r matches CompletionStep::End { prdt, status: ended } ==> {
                &&& old(request).state.held() matches Some(held) && held.1 == prdt
                &&& ended == 0 || ended == 10
                &&& ended == 0 <==> final(request).state is DeviceComplete
                &&& ended == 0 ==> context.dev_queue && there && status == Some(0int)
            }
        }),
{
    let before = *old(q);
    if old(request).state.submitted_to() == Some(queue_id) {
        let held = old(request).state.held()->0;
        match r {
            CompletionStep::Scsi { prdt, verdict } => {
                let result = choose|result: UfsScsiResult|
                    #[trigger] before.scsi_answer(task_tag, cqe, result) && verdict.judges(result);
                law_scsi_success_comes_from_device(before, task_tag, cqe, result, verdict);
            },
            CompletionStep::End { prdt, status } => {
                if held.0 is Device && context.dev_queue {
                    let cmd = held.0->Device_0;
                    let answer = choose|answer: Result<UfsCmd, Error>|
                        {
                            &&& #[trigger] before.dev_answer(cmd, task_tag, cqe, answer)
                            &&& match answer {
                                Ok(UfsCmd::Device(done)) => {
                                    &&& r == (CompletionStep::End {
                                        prdt: held.1,
                                        status: BLK_STS_OK,
                                    })
                                    &&& final(request).state == UfsRequestState::DeviceComplete(
                                        done,
                                    )
                                },
                                _ => {
                                    &&& r == (CompletionStep::End {
                                        prdt: held.1,
                                        status: BLK_STS_IOERR,
                                    })
                                    &&& final(request).state is Idle
                                },
                            }
                        };
                    law_device_answer_comes_from_device(before, cmd, task_tag, cqe, answer);
                }
            },
            CompletionStep::Retained => {},
        }
    }
}

/// How a SCSI command goes back to the block layer: as its verdict says. Only then
/// its budget is given back; a request whose completion nobody is looking at is
/// kept for recovery with its budget.
pub proof fn law_verdict_is_passed_on(
    q: &mut UfsQueue,
    request: &mut UfsRequestInner,
    tag: u32,
    verdict: ScsiVerdict,
    budget: &mut Option<u32>,
    r: CompletionOutcome,
)
    requires
        old(q).wf(),
        call_ensures(UfsQueue::complete_scsi, (q, request, tag, verdict, budget), r),
    ensures
        ({
            let looked_at = old(request).state is Completing;
            &&& r == CompletionOutcome::Returned <==> looked_at
            &&& looked_at ==> {
                &&& final(request).state matches UfsRequestState::CompletionReady(disposition) && {
                    &&& verdict.requeue ==> disposition is Requeue
                    &&& !verdict.requeue ==> disposition == CompletionDisposition::End(
                        verdict.status,
                    )
                }
                &&& *final(budget) == None::<u32>
                &&& final(q).recovery == old(q).recovery
                &&& *old(budget) matches Some(token) ==> token < 256 ==> final(q).pool@.slots[token as int] is Free
            }
            &&& !looked_at ==> {
                &&& final(request).state == old(request).state
                &&& *final(budget) == *old(budget)
                &&& final(q).recovery.why() is Some
                &&& final(q).pool == old(q).pool
            }
        }),
{
    command::lemma_pool_is_valid(old(q).pool);
}

/// How a polled SCSI command goes back: to be tried again, well with its batch when
/// its status is 0, and with its status otherwise; not at all while somebody else
/// refers to it or nobody is looking at its completion.
pub proof fn law_polled_verdict_is_passed_on(
    q: &mut UfsQueue,
    request: &mut UfsRequestInner,
    tag: u32,
    verdict: ScsiVerdict,
    budget: &mut Option<u32>,
    unique: bool,
    r: PolledAction,
)
    requires
        old(q).wf(),
        call_ensures(
            UfsQueue::complete_scsi_polled,
            (q, request, tag, verdict, budget, unique),
            r,
        ),
    ensures
        ({
            let ready = unique && old(request).state is Completing;
            &&& r is Retained <==> !ready
            &&& r is Requeue <==> ready && verdict.requeue
            &&& r is Batch <==> ready && !verdict.requeue && verdict.status == 0
            &&& ready && !verdict.requeue && 0 < verdict.status < 256 ==> r == PolledAction::End(
                verdict.status as u8,
            )
            &&& ready ==> final(request).state is Idle && *final(budget) == None::<u32>
            &&& !ready ==> *final(budget) == *old(budget) && final(q).recovery.why() is Some
                && final(request).state == old(request).state
        }),
{
}

/// Whose completion it is: that of the request that the command is bound to, if
/// the block layer still has it and it was submitted to the queue that reports it.
/// Anything else asks for recovery.
pub proof fn law_completion_finds_its_owner(
    q: &mut UfsQueue,
    request: CompletedRequest,
    found: Result<bool, Error>,
    r: Option<ResolvedCompletion>,
)
    requires
        old(q).wf(),
        call_ensures(UfsQueue::resolve_completion, (q, request, found), r),
    ensures
        r matches Some(done) ==> {
            &&& old(q).pool@.slots[request.task_tag.0 as int] == CommandSlotState::Bound(done.owner)
            &&& done.owner.queue_id == request.queue_id
            &&& found == Ok::<bool, Error>(true)
            &&& done.task_tag == request.task_tag
            &&& done.queue_id == request.queue_id
            &&& done.cqe == request.cqe
            &&& *final(q) == *old(q)
        },
        r is None ==> final(q).recovery.why() is Some,
        old(q).pool@.slots[request.task_tag.0 as int] matches CommandSlotState::Bound(owner)
            ==> owner.queue_id == request.queue_id && found == Ok::<bool, Error>(true) ==> r is Some,
{
}

/// What an interrupt collects from: each of the queues that raise interrupts, one
/// after the other, and never a queue that is polled.
pub proof fn law_interrupts_spare_polled_queues(
    q: UfsQueue,
    done: usize,
    requests: CompletedRequests,
    next: Option<usize>,
    queues: Vec<UfsHwQueue>,
)
    requires
        q.wf(),
        requests.wf(),
        call_ensures(UfsQueue::next_interrupt_queue, (&q, done, &requests), next),
        call_ensures(UfsQueue::hw_queues, (&q,), queues),
    ensures
        next matches Some(id) ==> {
            &&& id == done
            &&& id < queues@.len()
            &&& queues@[id as int].mcq
            &&& !queues@[id as int].poll
            &&& queues@[id as int].id == id
            &&& done > 0 ==> requests@.inserted.len() < 16
        },
        q.config is Sdb ==> next is None && queues@.len() == 1 && !queues@[0].mcq,
        q.config matches UfsTransferConfig::Mcq(c) ==> done < c.interrupt_queues && done
            < q.mcq@.len() && requests@.inserted.len() < 16 ==> next is Some,
{
    if next is Some {
        assert(q.mcq@[done as int].wf() && q.mcq@[done as int]@.id == done);
        assert(queues@[done as int].mcq);
    }
}

/// As many passes are made as it takes to look at every active command in batches
/// of 16, and no more, but always one.
pub proof fn law_passes_look_at_every_command(q: UfsQueue, passes: usize)
    requires
        q.wf(),
        call_ensures(UfsQueue::completion_pass_limit, (&q,), passes),
    ensures
        passes >= 1,
        passes * 16 >= command::busy(q.pool@.slots),
        passes > 1 ==> (passes - 1) * 16 < command::busy(q.pool@.slots),
{
}

/// A pass goes on only when it filled its batch without a fault and without a
/// failure to collect.
pub proof fn law_pass_goes_on_when_full(
    q: &mut UfsQueue,
    requests: &mut CompletedRequests,
    collected: Result<(), Error>,
    polled: Option<u32>,
    r: bool,
)
    requires
        old(q).wf(),
        old(requests).wf(),
        old(q).recovery is Operational,
        call_ensures(UfsQueue::finish_pass, (q, requests, collected, polled), r),
    ensures
        r <==> old(requests)@.inserted.len() == 16 && old(requests)@.fault is None && collected is Ok,
        final(q).recovery is Operational <==> old(requests)@.fault is None && collected is Ok,
        final(requests)@.fault is None,
        final(requests)@.inserted == old(requests)@.inserted,
{
    law_pass_reports_faults(*old(q), old(requests)@, collected, polled);
}

/// What is handed to the controller: nothing while recovery is needed, nothing
/// without a tag and nothing through another hardware queue than the block layer
/// chose. A request that is handed over is with that queue, and holds what it was
/// prepared with.
pub proof fn law_submission_reaches_its_queue(
    q: &mut UfsQueue,
    request: &mut UfsRequestInner,
    hw_queue: UfsHwQueue,
    budget: Option<u32>,
    queue_index: u32,
    polled: bool,
    sq_head: Result<u32, Error>,
    r: SubmissionOutcome,
)
    requires
        old(q).wf(),
        hw_queue.mcq ==> hw_queue.id < old(q).mcq.len(),
        call_ensures(
            UfsQueue::submit,
            (q, request, hw_queue, budget, queue_index, polled, sq_head),
            r,
        ),
    ensures
        r is Submitted ==> {
            &&& old(q).recovery is Operational
            &&& budget matches Some(token) && token < 256
            &&& queue_index == hw_queue.id
            &&& old(request).state is Prepared
            &&& final(request).state.submitted_to() == Some(hw_queue.id)
            &&& final(request).state.held() == old(request).state.held()
            &&& hw_queue.mcq ==> {
                let after = final(q).mcq@[hw_queue.id as int]@;
                &&& r->Submitted_0 == final(q).mcq@[hw_queue.id as int].sq_tail_write()
                &&& after.sqe[old(q).mcq@[hw_queue.id as int]@.sq_tail as int] == old(
                    q,
                ).dma@.utrdl[budget->0 as int]
            }
            &&& !hw_queue.mcq ==> {
                &&& budget->0 < 32
                &&& r->Submitted_0 matches RegOp::Write { offset, value } && offset == 0x58 && value
                    == 1u32 << (budget->0)
            }
        },
        r is NotSubmitted ==> final(request).state == old(request).state && final(q).sdb == old(
            q,
        ).sdb,
{
    if hw_queue.mcq {
        assert(old(q).mcq@[hw_queue.id as int].wf());
    }
}

/// A SCSI command that was composed: its slot has the table that was handed in, entry
/// by entry, the request holds the command and its mapping, and the tag belongs to the
/// request. Nothing else is changed, and one that is refused leaves the mapping with
/// the caller or with the request.
pub proof fn law_composed_scsi_request(
    q: &mut UfsQueue,
    request: &mut UfsRequestInner,
    cmd: UfsSCSICmd,
    task_tag: TaskTag,
    prdt: UfsPrdt,
    hw_queue: UfsHwQueue,
    blk_tag: u32,
    r: Result<(), (Error, Option<UfsPrdtMapping>)>,
    i: int,
    other: int,
)
    requires
        old(q).wf(),
        old(q).dma@.valid(),
        prdt.wf(),
        prdt.entries@.len() <= 256,
        call_ensures(
            UfsQueue::compose_scsi_cmd,
            (q, request, cmd, task_tag, prdt, hw_queue, blk_tag),
            r,
        ),
        0 <= i < prdt.entries@.len(),
        other != task_tag.0,
        0 <= other < old(q).dma@.slots(),
    ensures
        r is Ok ==> {
            &&& final(q).dma@.ucdl[task_tag.0 as int].prdt[i] == prdt.entries@[i]
            &&& final(q).dma@.utrdl[task_tag.0 as int].prd_table_length == prdt.entries@.len()
            &&& final(q).dma@.ucdl[other] == old(q).dma@.ucdl[other]
            &&& final(q).dma@.utrdl[other] == old(q).dma@.utrdl[other]
            &&& final(request).state matches UfsRequestState::Prepared { cmd: c, prdt: p } && c
                == UfsCmd::SCSI(cmd) && p == prdt.mapping
            &&& final(q).pool@.slots[task_tag.0 as int] matches CommandSlotState::Bound(owner)
                && owner.queue_id == hw_queue.id && owner.blk_tag == blk_tag
        },
        r matches Err((_, mapping)) ==> mapping == prdt.mapping || (mapping is None && (final(request).state matches UfsRequestState::Prepared { cmd: c, prdt: p } && p == prdt.mapping)),
        final(q).recovery == old(q).recovery,
        final(q).sdb == old(q).sdb,
        final(q).mcq == old(q).mcq,
{
    command::lemma_pool_is_valid(old(q).pool);
    if r is Ok {
        dma::law_composed_table(old(q).dma@, cmd, task_tag.0 as int, prdt.entries@, i);
    }
}

/// A device request that is over gives its tag back and has none from then on,
/// whoever else refers to it; only one that nobody else refers to is returned.
pub proof fn law_ended_device_request(
    q: &mut UfsQueue,
    tag: u32,
    budget: &mut Option<u32>,
    unique: bool,
    r: CompletionOutcome,
)
    requires
        old(q).wf(),
        call_ensures(UfsQueue::end_device_request, (q, tag, budget, unique), r),
    ensures
        *final(budget) is None,
        r is Returned <==> unique,
        *old(budget) matches Some(token) ==> (token < 256 ==> final(q).pool@.slots[token as int] is Free),
        unique ==> final(q).recovery == old(q).recovery,
        !unique ==> !(final(q).recovery is Operational),
{
    command::lemma_pool_is_valid(old(q).pool);
}

} // verus!
