//! Bringing a host controller up and taking it down.

use vstd::prelude::*;

use crate::block::gen_disk::BoundGenDisk;
use crate::descriptor::UnitDesc;
use crate::error::Error;
use crate::irq::UfsInterruptPolicy;
use crate::lu::{QueueData, UfsLu, UfsLuGeometry, UfsLuState};
use crate::reg::{self, RegOp};
use crate::transfer::{UfsQueueMap, UfsTransferConfig};

verus! {

/// Time that the controller needs after it was enabled, in microseconds.
pub const HBA_ENABLE_DELAY_US: i64 = 1000;

/// State of the host.
#[derive(Clone, Copy, Debug, PartialEq, Eq, Structural)]
pub enum HostState {
    Reset,
    Operational,
    EhNonFatal,
    EhFatal,
    Error,
}

/// How the controller is attached.
#[derive(Clone, Copy, Debug, PartialEq, Eq, Structural)]
pub enum HostFlow {
    /// As a PCI device that brings its own interrupt vectors.
    Pci,
    /// By a frontend that hands over resources and a variant.
    Resources,
}

/// A step of bringing the controller up.
#[derive(Clone, Copy, Debug, PartialEq, Eq, Structural)]
pub enum HostStep {
    /// Map the registers.
    MapRegisters,
    /// Decide how transfers get to the controller.
    PlanTransfers,
    /// Allocate the descriptors.
    AllocDescriptors,
    /// Acknowledge and disable all interrupts.
    QuietInterrupts,
    /// Decide how many interrupt vectors to ask for.
    PlanIrqVectors,
    /// Allocate the interrupt vectors.
    AllocIrqVectors,
    /// Create the interrupt registry.
    CreateIrq,
    /// Create the interconnect layer.
    CreateUic,
    /// Create the queue.
    CreateQueue,
    /// Create the device.
    CreateDevice,
    /// Stop a controller that is enabled already.
    StopController,
    /// Tell the variant that the controller is about to be enabled.
    NotifyEnablePre,
    /// Enable the controller and wait until it is.
    EnableController,
    /// Tell the variant that the controller is enabled.
    NotifyEnablePost,
    /// Request the controller's interrupt.
    RequestIrq,
    /// Tell the variant that the link is about to be started.
    NotifyLinkPre,
    /// Start the link.
    StartLink,
    /// Tell the variant that the link was started.
    NotifyLinkPost,
    /// Make the controller operational.
    MakeOperational,
    /// Request the interrupts of the queues.
    RequestQueueIrqs,
    /// Switch to multi-circular queues.
    EnableMcq,
    /// Allocate the request for device management.
    AllocDevRequest,
    /// Attach the queue to the interrupt.
    AttachQueue,
    /// Check that the device answers.
    VerifyDevice,
    /// Have the device initialize itself.
    CompleteInit,
    /// Read the device's parameters.
    ReadParams,
    /// Change to the best power mode.
    SetPowerMode,
    /// Set the logical units up.
    AllocLuns,
    /// Set the queue for task management aside.
    AllocTmf,
    /// The controller is up.
    Done,
}

/// What has to be undone when bringing the controller up fails.
#[derive(Clone, Copy, Debug, PartialEq, Eq, Structural)]
pub enum Cleanup {
    /// Nothing.
    Nothing,
    /// The controller is stopped.
    StopController,
    /// The logical units are removed and the controller is stopped.
    RemoveHost,
}

/// What follows a step.
#[derive(Clone, Copy, Debug, PartialEq, Eq, Structural)]
pub enum Advance {
    /// The next step.
    Next(HostStep),
    /// Bringing the controller up has failed.
    Failed { error: Error, cleanup: Cleanup },
}

/// The steps in their order.
pub open spec fn order(flow: HostFlow) -> Seq<HostStep> {
    match flow {
        HostFlow::Pci => seq![
            HostStep::MapRegisters,
            HostStep::AllocDescriptors,
            HostStep::QuietInterrupts,
            HostStep::PlanIrqVectors,
            HostStep::AllocIrqVectors,
            HostStep::CreateIrq,
            HostStep::CreateUic,
            HostStep::CreateQueue,
            HostStep::CreateDevice,
            HostStep::StopController,
            HostStep::EnableController,
            HostStep::RequestIrq,
            HostStep::StartLink,
            HostStep::MakeOperational,
            HostStep::RequestQueueIrqs,
            HostStep::EnableMcq,
            HostStep::AllocDevRequest,
            HostStep::VerifyDevice,
            HostStep::CompleteInit,
            HostStep::ReadParams,
            HostStep::SetPowerMode,
            HostStep::AllocLuns,
            HostStep::AllocTmf,
            HostStep::Done,
        ],
        HostFlow::Resources => seq![
            HostStep::MapRegisters,
            HostStep::PlanTransfers,
            HostStep::AllocDescriptors,
            HostStep::QuietInterrupts,
            HostStep::CreateIrq,
            HostStep::CreateUic,
            HostStep::StopController,
            HostStep::NotifyEnablePre,
            HostStep::EnableController,
            HostStep::NotifyEnablePost,
            HostStep::RequestIrq,
            HostStep::NotifyLinkPre,
            HostStep::StartLink,
            HostStep::NotifyLinkPost,
            HostStep::MakeOperational,
            HostStep::CreateQueue,
            HostStep::CreateDevice,
            HostStep::AttachQueue,
            HostStep::VerifyDevice,
            HostStep::CompleteInit,
            HostStep::ReadParams,
            HostStep::SetPowerMode,
            HostStep::AllocLuns,
            HostStep::AllocTmf,
            HostStep::Done,
        ],
    }
}

/// A step that is left out: stopping a controller that is not enabled, and
/// switching to queues that the controller does not have.
pub open spec fn skipped(step: HostStep, ctrl_enabled: bool, mcq: bool) -> bool {
    ||| step == HostStep::StopController && !ctrl_enabled
    ||| step == HostStep::EnableMcq && !mcq
}

/// A step whose failure does not matter: the controller is brought up without.
pub open spec fn tolerated(flow: HostFlow, step: HostStep) -> bool {
    match step {
        HostStep::QuietInterrupts | HostStep::PlanIrqVectors | HostStep::StopController
        | HostStep::EnableMcq => true,
        HostStep::SetPowerMode => flow == HostFlow::Resources,
        _ => false,
    }
}

/// What has to be undone when a step fails.
pub open spec fn cleanup_for(flow: HostFlow, step: HostStep) -> Cleanup {
    match step {
        HostStep::MapRegisters | HostStep::PlanTransfers | HostStep::AllocDescriptors
        | HostStep::QuietInterrupts | HostStep::PlanIrqVectors | HostStep::AllocIrqVectors
        | HostStep::CreateIrq | HostStep::CreateUic => Cleanup::Nothing,
        HostStep::CreateQueue | HostStep::CreateDevice => match flow {
            HostFlow::Pci => Cleanup::Nothing,
            HostFlow::Resources => Cleanup::StopController,
        },
        HostStep::StopController | HostStep::NotifyEnablePre | HostStep::EnableController
        | HostStep::NotifyEnablePost | HostStep::RequestIrq | HostStep::NotifyLinkPre
        | HostStep::StartLink | HostStep::NotifyLinkPost | HostStep::MakeOperational => match flow {
            HostFlow::Pci => Cleanup::RemoveHost,
            HostFlow::Resources => Cleanup::StopController,
        },
        _ => Cleanup::RemoveHost,
    }
}

/// Position of a step in the order.
pub open spec fn at(flow: HostFlow, step: HostStep, i: int) -> bool {
    0 <= i < order(flow).len() && order(flow)[i] == step
}

/// The step after a step, whether or not it is left out.
fn following(flow: HostFlow, step: HostStep) -> (r: HostStep)
    requires
        order(flow).contains(step),
    ensures
        step == HostStep::Done ==> r == HostStep::Done,
        step != HostStep::Done ==> exists|i: int|
            #[trigger] at(flow, step, i) && at(flow, r, i + 1),
{
    let r = match flow {
        HostFlow::Pci => match step {
            HostStep::MapRegisters => HostStep::AllocDescriptors,
            HostStep::AllocDescriptors => HostStep::QuietInterrupts,
            HostStep::QuietInterrupts => HostStep::PlanIrqVectors,
            HostStep::PlanIrqVectors => HostStep::AllocIrqVectors,
            HostStep::AllocIrqVectors => HostStep::CreateIrq,
            HostStep::CreateIrq => HostStep::CreateUic,
            HostStep::CreateUic => HostStep::CreateQueue,
            HostStep::CreateQueue => HostStep::CreateDevice,
            HostStep::CreateDevice => HostStep::StopController,
            HostStep::StopController => HostStep::EnableController,
            HostStep::EnableController => HostStep::RequestIrq,
            HostStep::RequestIrq => HostStep::StartLink,
            HostStep::StartLink => HostStep::MakeOperational,
            HostStep::MakeOperational => HostStep::RequestQueueIrqs,
            HostStep::RequestQueueIrqs => HostStep::EnableMcq,
            HostStep::EnableMcq => HostStep::AllocDevRequest,
            HostStep::AllocDevRequest => HostStep::VerifyDevice,
            HostStep::VerifyDevice => HostStep::CompleteInit,
            HostStep::CompleteInit => HostStep::ReadParams,
            HostStep::ReadParams => HostStep::SetPowerMode,
            HostStep::SetPowerMode => HostStep::AllocLuns,
            HostStep::AllocLuns => HostStep::AllocTmf,
            _ => HostStep::Done,
        },
        HostFlow::Resources => match step {
            HostStep::MapRegisters => HostStep::PlanTransfers,
            HostStep::PlanTransfers => HostStep::AllocDescriptors,
            HostStep::AllocDescriptors => HostStep::QuietInterrupts,
            HostStep::QuietInterrupts => HostStep::CreateIrq,
            HostStep::CreateIrq => HostStep::CreateUic,
            HostStep::CreateUic => HostStep::StopController,
            HostStep::StopController => HostStep::NotifyEnablePre,
            HostStep::NotifyEnablePre => HostStep::EnableController,
            HostStep::EnableController => HostStep::NotifyEnablePost,
            HostStep::NotifyEnablePost => HostStep::RequestIrq,
            HostStep::RequestIrq => HostStep::NotifyLinkPre,
            HostStep::NotifyLinkPre => HostStep::StartLink,
            HostStep::StartLink => HostStep::NotifyLinkPost,
            HostStep::NotifyLinkPost => HostStep::MakeOperational,
            HostStep::MakeOperational => HostStep::CreateQueue,
            HostStep::CreateQueue => HostStep::CreateDevice,
            HostStep::CreateDevice => HostStep::AttachQueue,
            HostStep::AttachQueue => HostStep::VerifyDevice,
            HostStep::VerifyDevice => HostStep::CompleteInit,
            HostStep::CompleteInit => HostStep::ReadParams,
            HostStep::ReadParams => HostStep::SetPowerMode,
            HostStep::SetPowerMode => HostStep::AllocLuns,
            HostStep::AllocLuns => HostStep::AllocTmf,
            _ => HostStep::Done,
        },
    };
    proof {
        let i = choose|i: int| 0 <= i < order(flow).len() && order(flow)[i] == step;
        assert(at(flow, step, i));
        if step != HostStep::Done {
            assert(at(flow, r, i + 1));
        }
    }
    r
}

/// `next` comes after `step`: it is the first later step that is not left out.
pub open spec fn comes_after(
    flow: HostFlow,
    step: HostStep,
    next: HostStep,
    ctrl_enabled: bool,
    mcq: bool,
) -> bool {
    exists|i: int, j: int|
        {
            &&& #[trigger] at(flow, step, i)
            &&& #[trigger] at(flow, next, j)
            &&& i < j
            &&& !skipped(next, ctrl_enabled, mcq)
            &&& forall|k: int| i < k < j ==> skipped(#[trigger] order(flow)[k], ctrl_enabled, mcq)
        }
}

/// What follows a step that had this outcome.
pub fn advance(
    flow: HostFlow,
    step: HostStep,
    outcome: Result<(), Error>,
    ctrl_enabled: bool,
    mcq: bool,
) -> (r: Advance)
    requires
        order(flow).contains(step),
        step != HostStep::Done,
    ensures
        match r {
            Advance::Next(next) => {
                &&& outcome is Ok || tolerated(flow, step)
                &&& comes_after(flow, step, next, ctrl_enabled, mcq)
                &&& order(flow).contains(next)
            },
            Advance::Failed { error, cleanup } => {
                &&& outcome == Err::<(), Error>(error)
                &&& !tolerated(flow, step)
                &&& cleanup == cleanup_for(flow, step)
            },
        },
{
    match outcome {
        Ok(()) => {},
        Err(error) => {
            let tolerable = match step {
                HostStep::QuietInterrupts | HostStep::PlanIrqVectors | HostStep::StopController
                | HostStep::EnableMcq => true,
                HostStep::SetPowerMode => matches!(flow, HostFlow::Resources),
                _ => false,
            };
            if !tolerable {
                return Advance::Failed { error, cleanup: undo(flow, step) };
            }
        },
    }
    let first = following(flow, step);
    let ghost i = choose|i: int| #[trigger] at(flow, step, i) && at(flow, first, i + 1);
    let skip = match first {
        HostStep::StopController => !ctrl_enabled,
        HostStep::EnableMcq => !mcq,
        _ => false,
    };
    if !skip {
        assert(at(flow, step, i) && at(flow, first, i + 1));
        assert(order(flow).contains(first));
        return Advance::Next(first);
    }
    assert(order(flow).contains(first));
    let second = following(flow, first);
    proof {
        let j = choose|j: int| #[trigger] at(flow, first, j) && at(flow, second, j + 1);
        lemma_position_is_unique(flow, first, i + 1, j);
        assert(at(flow, step, i) && at(flow, second, i + 2));
        assert(forall|k: int|
            i < k < i + 2 ==> skipped(#[trigger] order(flow)[k], ctrl_enabled, mcq));
        assert(order(flow).contains(second));
    }
    Advance::Next(second)
}

/// What has to be undone when a step fails.
fn undo(flow: HostFlow, step: HostStep) -> (r: Cleanup)
    ensures
        r == cleanup_for(flow, step),
{
    match step {
        HostStep::MapRegisters | HostStep::PlanTransfers | HostStep::AllocDescriptors
        | HostStep::QuietInterrupts | HostStep::PlanIrqVectors | HostStep::AllocIrqVectors
        | HostStep::CreateIrq | HostStep::CreateUic => Cleanup::Nothing,
        HostStep::CreateQueue | HostStep::CreateDevice => match flow {
            HostFlow::Pci => Cleanup::Nothing,
            HostFlow::Resources => Cleanup::StopController,
        },
        HostStep::StopController | HostStep::NotifyEnablePre | HostStep::EnableController
        | HostStep::NotifyEnablePost | HostStep::RequestIrq | HostStep::NotifyLinkPre
        | HostStep::StartLink | HostStep::NotifyLinkPost | HostStep::MakeOperational => match flow {
            HostFlow::Pci => Cleanup::RemoveHost,
            HostFlow::Resources => Cleanup::StopController,
        },
        _ => Cleanup::RemoveHost,
    }
}

/// No step occurs twice in the order.
proof fn lemma_position_is_unique(flow: HostFlow, step: HostStep, i: int, j: int)
    requires
        at(flow, step, i),
        at(flow, step, j),
    ensures
        i == j,
{
}

/// Bringing the controller up goes forward only: whatever follows a step comes
/// later in the order. So it ends, and no step is made twice.
pub proof fn law_bring_up_goes_forward(
    flow: HostFlow,
    step: HostStep,
    next: HostStep,
    ctrl_enabled: bool,
    mcq: bool,
    i: int,
    j: int,
)
    requires
        comes_after(flow, step, next, ctrl_enabled, mcq),
        at(flow, step, i),
        at(flow, next, j),
    ensures
        i < j,
{
    let (a, b) = choose|a: int, b: int|
        {
            &&& #[trigger] at(flow, step, a)
            &&& #[trigger] at(flow, next, b)
            &&& a < b
            &&& !skipped(next, ctrl_enabled, mcq)
            &&& forall|k: int| a < k < b ==> skipped(#[trigger] order(flow)[k], ctrl_enabled, mcq)
        };
    lemma_position_is_unique(flow, step, i, a);
    lemma_position_is_unique(flow, next, j, b);
}

/// What follows a step is determined by the step, whether the controller is
/// enabled and whether it has circular queues.
pub proof fn law_bring_up_is_determined(
    flow: HostFlow,
    step: HostStep,
    a: HostStep,
    b: HostStep,
    ctrl_enabled: bool,
    mcq: bool,
)
    requires
        comes_after(flow, step, a, ctrl_enabled, mcq),
        comes_after(flow, step, b, ctrl_enabled, mcq),
    ensures
        a == b,
{
    let (i, j) = choose|i: int, j: int|
        {
            &&& #[trigger] at(flow, step, i)
            &&& #[trigger] at(flow, a, j)
            &&& i < j
            &&& !skipped(a, ctrl_enabled, mcq)
            &&& forall|k: int| i < k < j ==> skipped(#[trigger] order(flow)[k], ctrl_enabled, mcq)
        };
    let (m, n) = choose|m: int, n: int|
        {
            &&& #[trigger] at(flow, step, m)
            &&& #[trigger] at(flow, b, n)
            &&& m < n
            &&& !skipped(b, ctrl_enabled, mcq)
            &&& forall|k: int| m < k < n ==> skipped(#[trigger] order(flow)[k], ctrl_enabled, mcq)
        };
    lemma_position_is_unique(flow, step, i, m);
    assert(order(flow)[j] == a && order(flow)[n] == b);
}

/// A controller that may have been enabled does not stay enabled when a later
/// step fails.
pub proof fn law_failure_stops_controller(flow: HostFlow, step: HostStep, i: int, j: int)
    requires
        at(flow, HostStep::EnableController, i),
        at(flow, step, j),
        i <= j,
        step != HostStep::Done,
    ensures
        cleanup_for(flow, step) != Cleanup::Nothing,
{
}

/// When interrupts are acknowledged.
pub fn interrupt_policy(config: &UfsTransferConfig) -> (r: UfsInterruptPolicy)
    ensures
        r == (match *config {
            UfsTransferConfig::Sdb { .. } => UfsInterruptPolicy::EagerAck,
            UfsTransferConfig::Mcq(_) => UfsInterruptPolicy::ThreadedAck,
        }),
{
    match *config {
        UfsTransferConfig::Sdb { .. } => UfsInterruptPolicy::EagerAck,
        UfsTransferConfig::Mcq(_) => UfsInterruptPolicy::ThreadedAck,
    }
}

/// Number of interrupt vectors to ask for. When the number of queues that raise
/// interrupts is not known, one shared vector has to do.
pub fn requested_irq_vectors(queues: Result<usize, Error>) -> (r: u32)
    ensures
        r == (match queues {
            Ok(n) => if n <= u32::MAX {
                n as u32
            } else {
                1
            },
            Err(_) => 1,
        }),
{
    match queues {
        Ok(queues) => {
            match u32::try_from(queues) {
                Ok(queues) => queues,
                Err(_) => 1,
            }
        },
        Err(_) => 1,
    }
}

/// A request for interrupt vectors.
#[derive(Clone, Copy, Debug, PartialEq, Eq, Structural)]
pub struct VectorRequest {
    pub min: u32,
    pub max: u32,
    /// Only message-signalled interrupts will do.
    pub msi_only: bool,
}

/// The requests for interrupt vectors, in the order in which they are made: all
/// vectors as messages if more than one is wanted, else or then a single vector
/// of any kind.
pub fn vector_requests(requested: u32) -> (r: Vec<VectorRequest>)
    ensures
        r@ == (if requested > 1 {
            seq![
                VectorRequest { min: requested, max: requested, msi_only: true },
                VectorRequest { min: 1, max: 1, msi_only: false },
            ]
        } else {
            seq![VectorRequest { min: 1, max: 1, msi_only: false }]
        }),
{
    let mut requests: Vec<VectorRequest> = Vec::new();
    if requested > 1 {
        requests.push(VectorRequest { min: requested, max: requested, msi_only: true });
    }
    requests.push(VectorRequest { min: 1, max: 1, msi_only: false });
    assert(requests@ =~= if requested > 1 {
        seq![
            VectorRequest { min: requested, max: requested, msi_only: true },
            VectorRequest { min: 1, max: 1, msi_only: false },
        ]
    } else {
        seq![VectorRequest { min: 1, max: 1, msi_only: false }]
    });
    requests
}

/// Number of vectors in a range of vectors.
pub fn allocated_irq_vectors(first: u32, last: u32) -> (r: Result<u32, Error>)
    requires
        last - first < u32::MAX,
    ensures
        r == (if last < first {
            Err::<u32, Error>(Error::EINVAL)
        } else {
            Ok((last - first + 1) as u32)
        }),
{
    match last.checked_sub(first) {
        Some(span) => Ok(span + 1),
        None => Err(Error::EINVAL),
    }
}

/// What stops the controller: interrupts are disabled before the pending ones are
/// looked at and acknowledged.
pub open spec fn stop_controller_ops() -> Seq<RegOp> {
    seq![
        RegOp::Write { offset: reg::INTERRUPT_ENABLE, value: 0 },
        RegOp::WriteBack { offset: reg::INTERRUPT_STATUS },
    ] + reg::stop_ops() + seq![
        RegOp::Write { offset: reg::CONTROLLER_ENABLE_REG, value: 0 },
        RegOp::Poll {
            offset: reg::CONTROLLER_ENABLE_REG,
            mask: reg::HCE_ENABLE,
            value: 0,
            interval_us: 10,
            timeout_us: 1000,
        },
    ]
}

/// Stops the controller.
fn stop_controller() -> (r: Vec<RegOp>)
    ensures
        r@ == stop_controller_ops(),
{
    let mut ops: Vec<RegOp> = Vec::new();
    ops.push(reg::disable_interrupts());
    ops.push(reg::clear_all_interrupts());
    let mut stop = reg::disable_run_stop();
    ops.append(&mut stop);
    ops.push(reg::ctrl_disable());
    ops.push(reg::wait_for_ctrl_disable(10, 1));
    assert(ops@ =~= stop_controller_ops());
    ops
}

/// What stops the controller if it is enabled.
pub open spec fn stop_if_enabled_ops() -> Seq<RegOp> {
    seq![RegOp::Guard { offset: reg::CONTROLLER_ENABLE_REG, bits: reg::HCE_ENABLE }]
        + stop_controller_ops()
}

/// Stops the controller if it is enabled.
pub fn stop_hba_controller() -> (r: Vec<RegOp>)
    ensures
        r@ == stop_if_enabled_ops(),
{
    let mut ops: Vec<RegOp> = Vec::new();
    ops.push(reg::if_ctrl_enabled());
    let mut stop = stop_controller();
    ops.append(&mut stop);
    assert(ops@ =~= stop_if_enabled_ops());
    ops
}

/// What stops the controller when a host is taken down. A PCI device's controller
/// is stopped whether or not it is enabled.
pub open spec fn take_down_ops(flow: HostFlow) -> Seq<RegOp> {
    match flow {
        HostFlow::Pci => stop_controller_ops(),
        HostFlow::Resources => stop_if_enabled_ops(),
    }
}

/// What enables the controller.
pub fn enable_controller() -> (r: RegOp)
    ensures
        r == (RegOp::SetBits { offset: reg::CONTROLLER_ENABLE_REG, bits: reg::HCE_ENABLE }),
{
    reg::ctrl_enable()
}

/// What waits for the controller to be enabled.
pub fn await_controller() -> (r: RegOp)
    ensures
        r == (RegOp::Poll {
            offset: reg::CONTROLLER_ENABLE_REG,
            mask: reg::HCE_ENABLE,
            value: reg::HCE_ENABLE,
            interval_us: 1000,
            timeout_us: 50_000,
        }),
{
    reg::wait_for_ctrl_enable(1000, 50)
}

/// How the block layer's tags are spread over the hardware queues.
#[derive(Clone, Copy, Debug, PartialEq, Eq, Structural)]
pub struct TagPlan {
    pub nr_hw_queues: u32,
    pub hw_queue_depth: u32,
    pub num_maps: u32,
    pub total_block_tags: usize,
}

/// How the block layer's tags are spread over the hardware queues, when one
/// command is set aside for device management.
pub fn plan_tags(queue_depth: usize, map: &UfsQueueMap) -> (r: Result<TagPlan, Error>)
    ensures
        match r {
            Ok(plan) => {
                &&& plan.total_block_tags == queue_depth - 1
                &&& plan.nr_hw_queues == map.nr_hw_queues
                &&& map.nr_hw_queues > 0
                &&& plan.hw_queue_depth == (queue_depth - 1) / map.nr_hw_queues as int
                &&& plan.hw_queue_depth > 0
                &&& plan.num_maps == map.maps_needed()
            },
            Err(e) => if queue_depth <= 1 || map.nr_hw_queues == 0 || (queue_depth - 1)
                / map.nr_hw_queues as int == 0 {
                e == Error::EINVAL
            } else {
                &&& e == Error::EOVERFLOW
                &&& map.nr_hw_queues > u32::MAX || (queue_depth - 1) / map.nr_hw_queues as int
                    > u32::MAX
            },
        },
{
    let total_block_tags = match queue_depth.checked_sub(1) {
        Some(total_block_tags) => total_block_tags,
        None => return Err(Error::EINVAL),
    };
    let nr_hw_queues = map.nr_hw_queues();
    if total_block_tags == 0 || nr_hw_queues == 0 {
        return Err(Error::EINVAL);
    }
    let hw_queue_depth = total_block_tags / nr_hw_queues;
    if hw_queue_depth == 0 {
        return Err(Error::EINVAL);
    }
    let num_maps = map.num_maps();
    let nr_hw_queues = match u32::try_from(nr_hw_queues) {
        Ok(nr_hw_queues) => nr_hw_queues,
        Err(_) => return Err(Error::EOVERFLOW),
    };
    let hw_queue_depth = match u32::try_from(hw_queue_depth) {
        Ok(hw_queue_depth) => hw_queue_depth,
        Err(_) => return Err(Error::EOVERFLOW),
    };
    Ok(TagPlan { nr_hw_queues, hw_queue_depth, num_maps, total_block_tags })
}

/// How the block layer's tags are spread over the hardware queues, when the
/// requests of device management share them: every hardware queue has as many as
/// the queue is deep.
pub fn plan_shared_tags(queue_depth: usize, map: &UfsQueueMap) -> (r: Result<TagPlan, Error>)
    ensures
        r == (if queue_depth == 0 || map.nr_hw_queues == 0 {
            Err::<TagPlan, Error>(Error::EINVAL)
        } else if queue_depth > u32::MAX {
            Err(Error::EOVERFLOW)
        } else {
            Ok(
                TagPlan {
                    nr_hw_queues: map.nr_hw_queues as u32,
                    hw_queue_depth: queue_depth as u32,
                    num_maps: map.maps_needed(),
                    total_block_tags: queue_depth,
                },
            )
        }),
{
    let nr_hw_queues = map.nr_hw_queues();
    if queue_depth == 0 || nr_hw_queues == 0 {
        return Err(Error::EINVAL);
    }
    match u32::try_from(queue_depth) {
        Ok(hw_queue_depth) => Ok(
            TagPlan {
                nr_hw_queues: nr_hw_queues as u32,
                hw_queue_depth,
                num_maps: map.num_maps(),
                total_block_tags: queue_depth,
            },
        ),
        Err(_) => Err(Error::EOVERFLOW),
    }
}

/// The walk over a device's logical units.
#[derive(Clone, Copy, Debug, PartialEq, Eq, Structural)]
pub struct LunScan {
    pub lun: usize,
    pub num_lu: usize,
}

/// Queue depth of a logical unit: its own, if it has one, but no more than the
/// block layer has tags.
pub open spec fn lu_depth(desc_depth: u8, tags: u32) -> u32 {
    if desc_depth == 0 || desc_depth > tags {
        tags
    } else {
        desc_depth as u32
    }
}

/// The logical unit that a unit descriptor describes.
pub open spec fn describes(desc: UnitDesc, lun: int, tags: u32, lu: UfsLu) -> bool {
    &&& lu.wf()
    &&& lu.lun == lun
    &&& lu.geometry.logical_block_size == vstd::arithmetic::power2::pow2(
        desc.logical_block_size as nat,
    )
    &&& lu.geometry.physical_block_size == lu.geometry.logical_block_size
    &&& lu.geometry.alignment == 0
    &&& lu.geometry.capacity_blocks == desc.logical_block_count
    &&& lu.queue_depth == lu_depth(desc.lu_queue_depth, tags)
    &&& lu.state == UfsLuState::Reset
    &&& lu.disk is None
}

impl LunScan {
    /// What looking at the current unit's descriptor comes to, and where the walk
    /// is then: a unit that is not enabled is passed over, one whose blocks have
    /// no valid size ends the walk.
    pub open spec fn visits(
        self,
        desc: UnitDesc,
        tags: u32,
        r: Result<Option<UfsLu>, Error>,
        next: Self,
    ) -> bool {
        if desc.lu_enable == 0 {
            &&& r matches Ok(None)
            &&& next == (LunScan { lun: (self.lun + 1) as usize, ..self })
        } else if !(9 <= desc.logical_block_size < 32) {
            &&& r == Err::<Option<UfsLu>, Error>(Error::EINVAL)
            &&& next == self
        } else {
            &&& r matches Ok(Some(lu)) && describes(desc, self.lun as int, tags, lu)
            &&& next == (LunScan { lun: (self.lun + 1) as usize, ..self })
        }
    }

    /// A walk over this many units, from the first on.
    pub fn new(num_lu: usize) -> (r: Self)
        ensures
            r == (LunScan { lun: 0, num_lu }),
    {
        LunScan { lun: 0, num_lu }
    }

    /// The unit whose descriptor has to be read next, if any is left.
    pub fn current(&self) -> (r: Result<Option<u8>, Error>)
        ensures
            r == (if self.lun >= self.num_lu {
                Ok::<Option<u8>, Error>(None)
            } else if self.lun > u8::MAX {
                Err(Error::EOVERFLOW)
            } else {
                Ok(Some(self.lun as u8))
            }),
    {
        if self.lun >= self.num_lu {
            return Ok(None);
        }
        match u8::try_from(self.lun) {
            Ok(lun) => Ok(Some(lun)),
            Err(_) => Err(Error::EOVERFLOW),
        }
    }

    /// Looks at the current unit's descriptor and goes on to the next unit. The
    /// result is the unit, if it is enabled.
    pub fn visit(&mut self, desc: &UnitDesc, tags: u32) -> (r: Result<Option<UfsLu>, Error>)
        requires
            old(self).lun < old(self).num_lu,
            old(self).lun <= u8::MAX,
        ensures
            old(self).visits(*desc, tags, r, *final(self)),
    {
        let lun_id = self.lun as u8;
        if !desc.enabled() {
            self.lun = self.lun + 1;
            return Ok(None);
        }
        let geometry = match UfsLuGeometry::from_logical_block_shift(
            desc.logical_block_shift(),
            desc.logical_block_count(),
        ) {
            Ok(geometry) => geometry,
            Err(e) => return Err(e),
        };
        let depth = desc.lu_queue_depth() as u32;
        let queue_depth = if depth == 0 || depth > tags {
            tags
        } else {
            depth
        };
        self.lun = self.lun + 1;
        Ok(Some(UfsLu::new(lun_id, geometry, queue_depth)))
    }
}

/// The numbers of the enabled units, in ascending order.
pub open spec fn enabled_luns(descs: Seq<UnitDesc>) -> Seq<int>
    decreases descs.len(),
{
    if descs.len() == 0 {
        Seq::empty()
    } else if descs.last().lu_enable != 0 {
        enabled_luns(descs.drop_last()).push(descs.len() - 1)
    } else {
        enabled_luns(descs.drop_last())
    }
}

/// The units that a walk found, in the order in which it did.
pub open spec fn found_units(visits: Seq<Option<UfsLu>>) -> Seq<UfsLu>
    decreases visits.len(),
{
    if visits.len() == 0 {
        Seq::empty()
    } else {
        match visits.last() {
            Some(lu) => found_units(visits.drop_last()).push(lu),
            None => found_units(visits.drop_last()),
        }
    }
}

/// A walk over a device's units, from the first on: what was found at each unit,
/// and where the walk was before each unit and at its end.
pub open spec fn is_walk(
    descs: Seq<UnitDesc>,
    tags: u32,
    scans: Seq<LunScan>,
    visits: Seq<Option<UfsLu>>,
) -> bool {
    &&& descs.len() <= usize::MAX
    &&& visits.len() == descs.len()
    &&& scans.len() == descs.len() + 1
    &&& scans[0].lun == 0
    &&& forall|i: int|
        0 <= i < descs.len() ==> #[trigger] scans[i].visits(
            descs[i],
            tags,
            Ok(visits[i]),
            scans[i + 1],
        )
}

/// The numbers of the enabled units are exactly those, each once, in ascending
/// order.
pub proof fn law_enabled_luns_ascend(descs: Seq<UnitDesc>)
    ensures
        forall|i: int, j: int|
            0 <= i < j < enabled_luns(descs).len() ==> #[trigger] enabled_luns(descs)[i]
                < #[trigger] enabled_luns(descs)[j],
        forall|lun: int| #[trigger]
            enabled_luns(descs).contains(lun) <==> 0 <= lun < descs.len() && descs[lun].lu_enable
                != 0,
    decreases descs.len(),
{
    if descs.len() > 0 {
        let before = descs.drop_last();
        let last = descs.len() - 1;
        law_enabled_luns_ascend(before);
        let luns = enabled_luns(before);
        assert forall|i: int| 0 <= i < luns.len() implies 0 <= #[trigger] luns[i] < last by {
            assert(luns.contains(luns[i]));
        }
        if descs.last().lu_enable != 0 {
            assert forall|lun: int| #[trigger]
                enabled_luns(descs).contains(lun) <==> luns.contains(lun) || lun == last by {
                if luns.contains(lun) {
                    let k = choose|k: int| 0 <= k < luns.len() && luns[k] == lun;
                    assert(luns.push(last)[k] == lun);
                }
                assert(luns.push(last)[luns.len() as int] == last);
            }
        }
        assert forall|lun: int| #[trigger]
            enabled_luns(descs).contains(lun) <==> 0 <= lun < descs.len() && descs[lun].lu_enable
                != 0 by {
            assert(0 <= lun < last ==> before[lun] == descs[lun]);
        }
    } else {
        assert forall|lun: int| !#[trigger] enabled_luns(descs).contains(lun) by {}
    }
}

/// A walk that fails at no unit finds one unit for every enabled one, in ascending
/// order, each as its descriptor describes it, and nothing else.
pub proof fn law_one_unit_per_enabled_lun(
    descs: Seq<UnitDesc>,
    tags: u32,
    scans: Seq<LunScan>,
    visits: Seq<Option<UfsLu>>,
)
    requires
        is_walk(descs, tags, scans, visits),
    ensures
        scans.last().lun == descs.len(),
        found_units(visits).len() == enabled_luns(descs).len(),
        forall|k: int|
            0 <= k < found_units(visits).len() ==> {
                let lun = enabled_luns(descs)[k];
                describes(descs[lun], lun, tags, #[trigger] found_units(visits)[k])
            },
    decreases descs.len(),
{
    if descs.len() > 0 {
        let last = descs.len() - 1;
        let d = descs.drop_last();
        let v = visits.drop_last();
        let s = scans.drop_last();
        assert forall|i: int| 0 <= i < d.len() implies #[trigger] s[i].visits(
            d[i],
            tags,
            Ok(v[i]),
            s[i + 1],
        ) by {
            assert(scans[i].visits(descs[i], tags, Ok(visits[i]), scans[i + 1]));
        }
        law_one_unit_per_enabled_lun(d, tags, s, v);
        law_enabled_luns_ascend(d);
        assert(scans[last].visits(descs[last], tags, Ok(visits[last]), scans[last + 1]));
        assert(scans[last].lun == last);
        assert forall|k: int| 0 <= k < found_units(visits).len() implies ({
            let lun = enabled_luns(descs)[k];
            describes(descs[lun], lun, tags, #[trigger] found_units(visits)[k])
        }) by {
            if k < found_units(v).len() {
                let lun = enabled_luns(d)[k];
                assert(enabled_luns(d).contains(lun));
                assert(d[lun] == descs[lun]);
                assert(describes(d[lun], lun, tags, found_units(v)[k]));
            }
        }
    }
}

/// A step of changing the power mode.
#[derive(Clone, Copy, Debug, PartialEq, Eq, Structural)]
pub enum PowerStep {
    /// Find the best mode that both ends of the link support.
    FindMode,
    /// Let the variant constrain the mode.
    ConstrainMode,
    /// Tell the variant that the mode is about to be changed.
    NotifyPre,
    /// Change the mode.
    ChangeMode,
    /// Tell the variant that the mode was changed.
    NotifyPost,
    /// The mode is changed.
    Done,
}

impl PowerStep {
    /// Number of the step.
    pub open spec fn rank(self) -> int {
        match self {
            PowerStep::FindMode => 0,
            PowerStep::ConstrainMode => 1,
            PowerStep::NotifyPre => 2,
            PowerStep::ChangeMode => 3,
            PowerStep::NotifyPost => 4,
            PowerStep::Done => 5,
        }
    }

    /// What follows the step: the next one, or the error that it ended with.
    pub fn configure_power_mode(self, outcome: Result<(), Error>) -> (r: Result<PowerStep, Error>)
        requires
            self != PowerStep::Done,
        ensures
            match r {
                Ok(next) => outcome is Ok && next.rank() == self.rank() + 1,
                Err(e) => outcome == Err::<(), Error>(e),
            },
    {
        match outcome {
            Ok(()) => Ok(
                match self {
                    PowerStep::FindMode => PowerStep::ConstrainMode,
                    PowerStep::ConstrainMode => PowerStep::NotifyPre,
                    PowerStep::NotifyPre => PowerStep::ChangeMode,
                    PowerStep::ChangeMode => PowerStep::NotifyPost,
                    PowerStep::NotifyPost | PowerStep::Done => PowerStep::Done,
                },
            ),
            Err(e) => Err(e),
        }
    }
}

/// The host: its state and its logical units.
pub struct UfsHost {
    pub flow: HostFlow,
    pub state: HostState,
    pub luns: Vec<UfsLu>,
}

/// What is left when a host is removed.
pub struct Removal {
    /// The disks to be dropped, in the order of their units.
    pub disks: Vec<Option<BoundGenDisk<QueueData, ()>>>,
    /// What stops the controller once the disks are dropped.
    pub ops: Vec<RegOp>,
}

impl UfsHost {
    /// A host that is not up, without logical units.
    pub fn new(flow: HostFlow) -> (r: Self)
        ensures
            r.flow == flow,
            r.state == HostState::Reset,
            r.luns@ == Seq::<UfsLu>::empty(),
    {
        UfsHost { flow, state: HostState::Reset, luns: Vec::new() }
    }

    /// Adds a logical unit whose disk is set up.
    pub fn add_lun(&mut self, lu: UfsLu)
        ensures
            final(self).flow == old(self).flow,
            final(self).state == old(self).state,
            final(self).luns@ == old(self).luns@.push(lu),
    {
        self.luns.push(lu);
    }

    /// Removes the logical units and stops the controller.
    pub fn remove(&mut self) -> (r: Removal)
        ensures
            final(self).flow == old(self).flow,
            final(self).state == HostState::Reset,
            final(self).luns@ == Seq::<UfsLu>::empty(),
            r.disks@ == old(self).luns@.map_values(|lu: UfsLu| lu.disk),
            r.ops@ == take_down_ops(old(self).flow),
    {
        let disks = self.remove_luns();
        let ops = self.hba_stop();
        Removal { disks, ops }
    }

    /// Removes all logical units. The result are their disks, in the order of
    /// the units.
    pub fn remove_luns(&mut self) -> (r: Vec<Option<BoundGenDisk<QueueData, ()>>>)
        ensures
            final(self).flow == old(self).flow,
            final(self).state == old(self).state,
            final(self).luns@ == Seq::<UfsLu>::empty(),
            r@ == old(self).luns@.map_values(|lu: UfsLu| lu.disk),
    {
        let mut luns: Vec<UfsLu> = Vec::new();
        core::mem::swap(&mut self.luns, &mut luns);
        let count = luns.len();
        let mut disks: Vec<Option<BoundGenDisk<QueueData, ()>>> = Vec::new();
        for i in 0..count
            invariant
                count == luns.len(),
                count == old(self).luns.len(),
                disks.len() == i,
                forall|j: int| 0 <= j < i ==> #[trigger] disks@[j] == old(self).luns@[j].disk,
                forall|j: int| i <= j < count ==> #[trigger] luns@[j] == old(self).luns@[j],
        {
            let lu = &mut luns[i];
            let disk = lu.remove_disk();
            disks.push(disk);
        }
        assert(disks@ =~= old(self).luns@.map_values(|lu: UfsLu| lu.disk));
        disks
    }

    /// Stops the controller. A PCI device's controller is stopped whether or not
    /// it is enabled. The host is back in its initial state.
    pub fn hba_stop(&mut self) -> (r: Vec<RegOp>)
        ensures
            *final(self) == (UfsHost { state: HostState::Reset, ..*old(self) }),
            r@ == take_down_ops(old(self).flow),
    {
        let ops = match self.flow {
            HostFlow::Pci => stop_controller(),
            HostFlow::Resources => stop_hba_controller(),
        };
        self.fallback_to_reset();
        ops
    }

    /// State of the host.
    pub fn state(&self) -> (r: HostState)
        ensures
            r == self.state,
    {
        self.state
    }

    /// Changes the state of the host.
    pub fn set_state(&mut self, state: HostState)
        ensures
            *final(self) == (UfsHost { state, ..*old(self) }),
    {
        self.state = state;
    }

    /// A non-fatal error is being handled.
    pub fn enter_eh_nonfatal(&mut self)
        ensures
            *final(self) == (UfsHost { state: HostState::EhNonFatal, ..*old(self) }),
    {
        self.state = HostState::EhNonFatal;
    }

    /// A fatal error is being handled.
    pub fn enter_eh_fatal(&mut self)
        ensures
            *final(self) == (UfsHost { state: HostState::EhFatal, ..*old(self) }),
    {
        self.state = HostState::EhFatal;
    }

    /// The host has failed.
    pub fn enter_error(&mut self)
        ensures
            *final(self) == (UfsHost { state: HostState::Error, ..*old(self) }),
    {
        self.state = HostState::Error;
    }

    /// The host is up.
    pub fn promote_to_operational(&mut self)
        ensures
            *final(self) == (UfsHost { state: HostState::Operational, ..*old(self) }),
    {
        self.state = HostState::Operational;
    }

    /// The host is down.
    pub fn fallback_to_reset(&mut self)
        ensures
            *final(self) == (UfsHost { state: HostState::Reset, ..*old(self) }),
    {
        self.state = HostState::Reset;
    }
}

/// One step of bringing the controller up comes before another.
pub open spec fn precedes(flow: HostFlow, a: HostStep, b: HostStep) -> bool {
    exists|i: int, j: int| #[trigger] at(flow, a, i) && #[trigger] at(flow, b, j) && i < j
}

/// What bringing a PCI device's controller up relies on: the descriptors are there
/// before the controller is made operational, interrupts are quiet before they are
/// requested, a controller that runs is stopped before it is enabled, the link is
/// started on an enabled controller, the device is spoken to over an operational
/// one, and the logical units come after the device has initialized itself and
/// said how many it has.
pub proof fn law_pci_bring_up_order()
    ensures
        order(HostFlow::Pci).first() == HostStep::MapRegisters,
        order(HostFlow::Pci).last() == HostStep::Done,
        precedes(HostFlow::Pci, HostStep::MapRegisters, HostStep::AllocDescriptors),
        precedes(HostFlow::Pci, HostStep::AllocDescriptors, HostStep::QuietInterrupts),
        precedes(HostFlow::Pci, HostStep::QuietInterrupts, HostStep::PlanIrqVectors),
        precedes(HostFlow::Pci, HostStep::PlanIrqVectors, HostStep::AllocIrqVectors),
        precedes(HostFlow::Pci, HostStep::AllocIrqVectors, HostStep::CreateIrq),
        precedes(HostFlow::Pci, HostStep::CreateIrq, HostStep::CreateUic),
        precedes(HostFlow::Pci, HostStep::CreateUic, HostStep::CreateQueue),
        precedes(HostFlow::Pci, HostStep::CreateQueue, HostStep::CreateDevice),
        precedes(HostFlow::Pci, HostStep::CreateDevice, HostStep::StopController),
        precedes(HostFlow::Pci, HostStep::StopController, HostStep::EnableController),
        precedes(HostFlow::Pci, HostStep::EnableController, HostStep::RequestIrq),
        precedes(HostFlow::Pci, HostStep::RequestIrq, HostStep::StartLink),
        precedes(HostFlow::Pci, HostStep::StartLink, HostStep::MakeOperational),
        precedes(HostFlow::Pci, HostStep::MakeOperational, HostStep::RequestQueueIrqs),
        precedes(HostFlow::Pci, HostStep::RequestQueueIrqs, HostStep::EnableMcq),
        precedes(HostFlow::Pci, HostStep::EnableMcq, HostStep::AllocDevRequest),
        precedes(HostFlow::Pci, HostStep::AllocDevRequest, HostStep::VerifyDevice),
        precedes(HostFlow::Pci, HostStep::VerifyDevice, HostStep::CompleteInit),
        precedes(HostFlow::Pci, HostStep::CompleteInit, HostStep::ReadParams),
        precedes(HostFlow::Pci, HostStep::ReadParams, HostStep::SetPowerMode),
        precedes(HostFlow::Pci, HostStep::SetPowerMode, HostStep::AllocLuns),
        precedes(HostFlow::Pci, HostStep::AllocLuns, HostStep::AllocTmf),
{
    assert(at(HostFlow::Pci, HostStep::MapRegisters, 0));
    assert(at(HostFlow::Pci, HostStep::AllocDescriptors, 1));
    assert(at(HostFlow::Pci, HostStep::QuietInterrupts, 2));
    assert(at(HostFlow::Pci, HostStep::PlanIrqVectors, 3));
    assert(at(HostFlow::Pci, HostStep::AllocIrqVectors, 4));
    assert(at(HostFlow::Pci, HostStep::CreateIrq, 5));
    assert(at(HostFlow::Pci, HostStep::CreateUic, 6));
    assert(at(HostFlow::Pci, HostStep::CreateQueue, 7));
    assert(at(HostFlow::Pci, HostStep::CreateDevice, 8));
    assert(at(HostFlow::Pci, HostStep::StopController, 9));
    assert(at(HostFlow::Pci, HostStep::EnableController, 10));
    assert(at(HostFlow::Pci, HostStep::RequestIrq, 11));
    assert(at(HostFlow::Pci, HostStep::StartLink, 12));
    assert(at(HostFlow::Pci, HostStep::MakeOperational, 13));
    assert(at(HostFlow::Pci, HostStep::RequestQueueIrqs, 14));
    assert(at(HostFlow::Pci, HostStep::EnableMcq, 15));
    assert(at(HostFlow::Pci, HostStep::AllocDevRequest, 16));
    assert(at(HostFlow::Pci, HostStep::VerifyDevice, 17));
    assert(at(HostFlow::Pci, HostStep::CompleteInit, 18));
    assert(at(HostFlow::Pci, HostStep::ReadParams, 19));
    assert(at(HostFlow::Pci, HostStep::SetPowerMode, 20));
    assert(at(HostFlow::Pci, HostStep::AllocLuns, 21));
    assert(at(HostFlow::Pci, HostStep::AllocTmf, 22));
}

/// What bringing any other controller up relies on, besides the same: a variant is
/// told before and after the controller is enabled and before and after the link
/// is started, and the queue, which needs an operational controller, is attached
/// to the interrupt before the device is spoken to.
pub proof fn law_resource_bring_up_order()
    ensures
        order(HostFlow::Resources).first() == HostStep::MapRegisters,
        order(HostFlow::Resources).last() == HostStep::Done,
        precedes(HostFlow::Resources, HostStep::MapRegisters, HostStep::PlanTransfers),
        precedes(HostFlow::Resources, HostStep::PlanTransfers, HostStep::AllocDescriptors),
        precedes(HostFlow::Resources, HostStep::AllocDescriptors, HostStep::QuietInterrupts),
        precedes(HostFlow::Resources, HostStep::QuietInterrupts, HostStep::CreateIrq),
        precedes(HostFlow::Resources, HostStep::CreateIrq, HostStep::CreateUic),
        precedes(HostFlow::Resources, HostStep::CreateUic, HostStep::StopController),
        precedes(HostFlow::Resources, HostStep::StopController, HostStep::NotifyEnablePre),
        precedes(HostFlow::Resources, HostStep::NotifyEnablePre, HostStep::EnableController),
        precedes(HostFlow::Resources, HostStep::EnableController, HostStep::NotifyEnablePost),
        precedes(HostFlow::Resources, HostStep::NotifyEnablePost, HostStep::RequestIrq),
        precedes(HostFlow::Resources, HostStep::RequestIrq, HostStep::NotifyLinkPre),
        precedes(HostFlow::Resources, HostStep::NotifyLinkPre, HostStep::StartLink),
        precedes(HostFlow::Resources, HostStep::StartLink, HostStep::NotifyLinkPost),
        precedes(HostFlow::Resources, HostStep::NotifyLinkPost, HostStep::MakeOperational),
        precedes(HostFlow::Resources, HostStep::MakeOperational, HostStep::CreateQueue),
        precedes(HostFlow::Resources, HostStep::CreateQueue, HostStep::CreateDevice),
        precedes(HostFlow::Resources, HostStep::CreateDevice, HostStep::AttachQueue),
        precedes(HostFlow::Resources, HostStep::AttachQueue, HostStep::VerifyDevice),
        precedes(HostFlow::Resources, HostStep::VerifyDevice, HostStep::CompleteInit),
        precedes(HostFlow::Resources, HostStep::CompleteInit, HostStep::ReadParams),
        precedes(HostFlow::Resources, HostStep::ReadParams, HostStep::SetPowerMode),
        precedes(HostFlow::Resources, HostStep::SetPowerMode, HostStep::AllocLuns),
        precedes(HostFlow::Resources, HostStep::AllocLuns, HostStep::AllocTmf),
{
    assert(at(HostFlow::Resources, HostStep::MapRegisters, 0));
    assert(at(HostFlow::Resources, HostStep::PlanTransfers, 1));
    assert(at(HostFlow::Resources, HostStep::AllocDescriptors, 2));
    assert(at(HostFlow::Resources, HostStep::QuietInterrupts, 3));
    assert(at(HostFlow::Resources, HostStep::CreateIrq, 4));
    assert(at(HostFlow::Resources, HostStep::CreateUic, 5));
    assert(at(HostFlow::Resources, HostStep::StopController, 6));
    assert(at(HostFlow::Resources, HostStep::NotifyEnablePre, 7));
    assert(at(HostFlow::Resources, HostStep::EnableController, 8));
    assert(at(HostFlow::Resources, HostStep::NotifyEnablePost, 9));
    assert(at(HostFlow::Resources, HostStep::RequestIrq, 10));
    assert(at(HostFlow::Resources, HostStep::NotifyLinkPre, 11));
    assert(at(HostFlow::Resources, HostStep::StartLink, 12));
    assert(at(HostFlow::Resources, HostStep::NotifyLinkPost, 13));
    assert(at(HostFlow::Resources, HostStep::MakeOperational, 14));
    assert(at(HostFlow::Resources, HostStep::CreateQueue, 15));
    assert(at(HostFlow::Resources, HostStep::CreateDevice, 16));
    assert(at(HostFlow::Resources, HostStep::AttachQueue, 17));
    assert(at(HostFlow::Resources, HostStep::VerifyDevice, 18));
    assert(at(HostFlow::Resources, HostStep::CompleteInit, 19));
    assert(at(HostFlow::Resources, HostStep::ReadParams, 20));
    assert(at(HostFlow::Resources, HostStep::SetPowerMode, 21));
    assert(at(HostFlow::Resources, HostStep::AllocLuns, 22));
    assert(at(HostFlow::Resources, HostStep::AllocTmf, 23));
}

/// A controller that is not enabled is not stopped, and queues that the controller
/// does not have are not switched on; no other step is ever left out.
pub proof fn law_steps_that_are_left_out(step: HostStep, ctrl_enabled: bool, mcq: bool)
    ensures
        skipped(HostStep::StopController, false, mcq),
        !skipped(HostStep::StopController, true, mcq),
        skipped(HostStep::EnableMcq, ctrl_enabled, false),
        !skipped(HostStep::EnableMcq, ctrl_enabled, true),
        step != HostStep::StopController && step != HostStep::EnableMcq ==> !skipped(
            step,
            ctrl_enabled,
            mcq,
        ),
{
}

/// Which steps may fail: quieting interrupts, planning their vectors, stopping the
/// controller and switching to multi-circular queues; and changing the power mode,
/// but not of a PCI device.
pub proof fn law_steps_that_may_fail(flow: HostFlow, step: HostStep)
    ensures
        tolerated(flow, step) <==> {
            ||| step == HostStep::QuietInterrupts
            ||| step == HostStep::PlanIrqVectors
            ||| step == HostStep::StopController
            ||| step == HostStep::EnableMcq
            ||| step == HostStep::SetPowerMode && flow != HostFlow::Pci
        },
{
}

/// What a failure undoes depends on how far bringing the controller up has come.
/// Before a running controller was stopped there is nothing to undo. From then on,
/// a PCI device's host is removed; any other controller is stopped until the queue
/// and the device are there, and then its host is removed.
pub proof fn law_failure_undoes_what_was_done(flow: HostFlow, step: HostStep, i: int)
    requires
        at(flow, step, i),
        step != HostStep::Done,
    ensures
        ({
            let stop = if flow == HostFlow::Pci {
                9int
            } else {
                6
            };
            let attach = 17int;
            &&& at(flow, HostStep::StopController, stop)
            &&& flow != HostFlow::Pci ==> at(flow, HostStep::AttachQueue, attach)
            &&& i < stop ==> cleanup_for(flow, step) == Cleanup::Nothing
            &&& i >= stop && flow == HostFlow::Pci ==> cleanup_for(flow, step)
                == Cleanup::RemoveHost
            &&& stop <= i < attach && flow != HostFlow::Pci ==> cleanup_for(flow, step)
                == Cleanup::StopController
            &&& i >= attach && flow != HostFlow::Pci ==> cleanup_for(flow, step)
                == Cleanup::RemoveHost
        }),
{
}

/// How the controller is stopped: interrupts are disabled before the pending ones
/// are acknowledged, then the request lists are stopped, then the controller is
/// disabled and its enable bit is waited for to clear, for a millisecond. Unless
/// it is a PCI device, nothing is done to a controller that is not enabled.
pub proof fn law_controller_stops_in_order(flow: HostFlow)
    ensures
        stop_controller_ops() == seq![
            RegOp::Write { offset: 0x24, value: 0 },
            RegOp::WriteBack { offset: 0x20 },
            RegOp::Write { offset: 0x60, value: 0 },
            RegOp::Write { offset: 0x80, value: 0 },
            RegOp::Write { offset: 0x34, value: 0 },
            RegOp::Poll { offset: 0x34, mask: 1, value: 0, interval_us: 10, timeout_us: 1000 },
        ],
        take_down_ops(HostFlow::Pci) == stop_controller_ops(),
        take_down_ops(HostFlow::Resources) == seq![RegOp::Guard { offset: 0x34, bits: 1 }]
            + stop_controller_ops(),
{
}

/// What becomes of a logical unit that a unit descriptor tells of, byte by byte:
/// byte 3 enables it, byte 10 is the binary logarithm of its block size, bytes 11
/// to 18 are the number of its blocks, and byte 6 is its own queue depth, if it has
/// one, of which no more is used than there are tags. The walk goes on to the next
/// unit.
pub proof fn law_unit_is_what_its_descriptor_says(
    scan: LunScan,
    data: Seq<u8>,
    tags: u32,
    r: Result<Option<UfsLu>, Error>,
    next: LunScan,
)
    requires
        data.len() >= 45,
        scan.lun < scan.num_lu,
        scan.visits(UnitDesc::decode(data), tags, r, next),
    ensures
        if data[3] == 0 {
            r matches Ok(None) && next.lun == scan.lun + 1
        } else if data[10] < 9 || data[10] > 31 {
            r == Err::<Option<UfsLu>, Error>(Error::EINVAL) && next == scan
        } else {
            &&& next.lun == scan.lun + 1
            &&& next.num_lu == scan.num_lu
            &&& r matches Ok(Some(lu)) && {
                &&& lu.lun == scan.lun
                &&& lu.geometry.logical_block_size == vstd::arithmetic::power2::pow2(
                    data[10] as nat,
                )
                &&& lu.geometry.physical_block_size == lu.geometry.logical_block_size
                &&& lu.geometry.sectors_per_block * 512 == lu.geometry.logical_block_size
                &&& lu.geometry.capacity_blocks == crate::endian::be_value(data.subrange(11, 19))
                &&& lu.queue_depth <= tags
                &&& 0 < data[6] <= tags ==> lu.queue_depth == data[6]
                &&& data[6] == 0 || data[6] > tags ==> lu.queue_depth == tags
                &&& lu.geometry.alignment == 0
                &&& lu.state is Reset
                &&& lu.disk is None
            }
        },
{
    crate::descriptor::law_unit_descriptor_fields(data);
    crate::endian::law_be_value_is_positional(data.subrange(11, 19));
}

/// The steps of changing the power mode: the best mode is found before the variant
/// constrains it, and the variant is told before and after the mode is changed.
pub proof fn law_power_mode_steps()
    ensures
        PowerStep::FindMode.rank() == 0,
        PowerStep::ConstrainMode.rank() == 1,
        PowerStep::NotifyPre.rank() == 2,
        PowerStep::ChangeMode.rank() == 3,
        PowerStep::NotifyPost.rank() == 4,
        PowerStep::Done.rank() == 5,
{
}

/// How tags are spread: one is kept for device management, the hardware queues get
/// equal parts of the others, and no more than there are.
pub proof fn law_tags_are_spread(queue_depth: usize, map: UfsQueueMap, r: Result<TagPlan, Error>)
    requires
        call_ensures(plan_tags, (queue_depth, &map), r),
    ensures
        r matches Ok(plan) ==> {
            &&& plan.nr_hw_queues == map.nr_hw_queues
            &&& plan.total_block_tags + 1 == queue_depth
            &&& plan.nr_hw_queues * plan.hw_queue_depth <= queue_depth - 1
            &&& queue_depth - 1 < plan.nr_hw_queues * plan.hw_queue_depth + plan.nr_hw_queues
            &&& plan.hw_queue_depth >= 1
            &&& plan.num_maps == map.maps_needed()
        },
        queue_depth <= 1 || map.nr_hw_queues == 0 || queue_depth - 1 < map.nr_hw_queues ==> r
            == Err::<TagPlan, Error>(Error::EINVAL),
        1 <= map.nr_hw_queues <= queue_depth - 1 && queue_depth <= u32::MAX ==> r is Ok,
{
    if map.nr_hw_queues > 0 && queue_depth > 0 {
        let n = map.nr_hw_queues as int;
        let d = queue_depth - 1;
        vstd::arithmetic::div_mod::lemma_fundamental_div_mod(d, n);
        if d < n {
            vstd::arithmetic::div_mod::lemma_small_mod(d as nat, n as nat);
            vstd::arithmetic::div_mod::lemma_basic_div(d, n);
        } else {
            vstd::arithmetic::div_mod::lemma_div_is_ordered(n, d, n);
            vstd::arithmetic::div_mod::lemma_div_by_self(n);
        }
        vstd::arithmetic::div_mod::lemma_div_is_ordered_by_denominator(d, 1, n);
    }
}

/// Shared tags are not spread: every hardware queue has all of them.
pub proof fn law_shared_tags_are_not_spread(
    queue_depth: usize,
    map: UfsQueueMap,
    r: Result<TagPlan, Error>,
)
    requires
        call_ensures(plan_shared_tags, (queue_depth, &map), r),
        map.nr_hw_queues <= u32::MAX,
    ensures
        r is Ok <==> 1 <= queue_depth <= u32::MAX && map.nr_hw_queues >= 1,
        r matches Ok(plan) ==> {
            &&& plan.nr_hw_queues == map.nr_hw_queues
            &&& plan.hw_queue_depth == queue_depth
            &&& plan.total_block_tags == queue_depth
            &&& plan.num_maps == map.maps_needed()
        },
{
}

/// Which interrupt vectors are asked for: all that are wanted, as messages, and in
/// the end always a single one of any kind.
pub proof fn law_vectors_are_asked_for(requested: u32, r: Vec<VectorRequest>)
    requires
        call_ensures(vector_requests, (requested,), r),
    ensures
        r@.len() >= 1,
        r@.last() == (VectorRequest { min: 1, max: 1, msi_only: false }),
        r@.len() == 2 <==> requested >= 2,
        r@.len() <= 2,
        requested >= 2 ==> r@[0] == (VectorRequest {
            min: requested,
            max: requested,
            msi_only: true,
        }),
{
}

/// A step that fails ends bringing the controller up, unless it may fail; whatever
/// follows comes later and is not left out.
pub proof fn law_bring_up_advances(
    flow: HostFlow,
    step: HostStep,
    outcome: Result<(), Error>,
    ctrl_enabled: bool,
    mcq: bool,
    r: Advance,
)
    requires
        order(flow).contains(step),
        step != HostStep::Done,
        call_ensures(advance, (flow, step, outcome, ctrl_enabled, mcq), r),
    ensures
        outcome is Ok ==> r is Next,
        outcome is Err ==> (r is Next <==> {
            ||| step == HostStep::QuietInterrupts
            ||| step == HostStep::PlanIrqVectors
            ||| step == HostStep::StopController
            ||| step == HostStep::EnableMcq
            ||| step == HostStep::SetPowerMode && flow != HostFlow::Pci
        }),
        r matches Advance::Failed { error, cleanup } ==> outcome == Err::<(), Error>(error),
        r matches Advance::Next(next) ==> {
            &&& precedes(flow, step, next)
            &&& next == HostStep::StopController ==> ctrl_enabled
            &&& next == HostStep::EnableMcq ==> mcq
        },
{
    if let Advance::Next(next) = r {
        let (i, j) = choose|i: int, j: int|
            {
                &&& #[trigger] at(flow, step, i)
                &&& #[trigger] at(flow, next, j)
                &&& i < j
                &&& !skipped(next, ctrl_enabled, mcq)
                &&& forall|k: int|
                    i < k < j ==> skipped(#[trigger] order(flow)[k], ctrl_enabled, mcq)
            };
        assert(at(flow, step, i) && at(flow, next, j));
    }
}

/// Removing a host hands every disk out, one for each unit and in their order,
/// leaves no unit behind, and stops the controller.
pub proof fn law_removal_leaves_nothing(host: &mut UfsHost, r: Removal, i: int)
    requires
        call_ensures(UfsHost::remove, (host,), r),
        0 <= i < old(host).luns@.len(),
    ensures
        final(host).luns@.len() == 0,
        final(host).state is Reset,
        r.disks@.len() == old(host).luns@.len(),
        r.disks@[i] == old(host).luns@[i].disk,
        r.ops@.last() == (RegOp::Poll {
            offset: 0x34,
            mask: 1,
            value: 0,
            interval_us: 10,
            timeout_us: 1000,
        }),
        old(host).flow is Pci ==> r.ops@.len() == 6,
        old(host).flow is Resources ==> r.ops@.len() == 7 && r.ops@[0] is Guard,
{
}

/// The vectors from the first to the last are counted with both of them. A last
/// one before the first is refused.
pub proof fn law_vectors_are_counted(first: u32, last: u32, r: Result<u32, Error>)
    requires
        last - first < u32::MAX,
        call_ensures(allocated_irq_vectors, (first, last), r),
    ensures
        r is Ok <==> first <= last,
        r matches Ok(n) ==> first + n == last + 1,
        r matches Err(e) ==> e == Error::EINVAL,
{
}

/// One vector is asked for per queue that raises interrupts, and one if their number
/// is not known.
pub proof fn law_one_vector_per_queue(queues: Result<usize, Error>, r: u32)
    requires
        call_ensures(requested_irq_vectors, (queues,), r),
    ensures
        queues matches Ok(n) ==> (n <= u32::MAX ==> r == n),
        queues is Err ==> r == 1,
{
}

/// The units are looked at one after another: the current one is visited, and the
/// next one is current after it. A unit that is not enabled is passed over; the
/// depth of one that is never exceeds the number of tags.
pub proof fn law_units_are_visited_in_turn(
    scan: &mut LunScan,
    desc: UnitDesc,
    tags: u32,
    r: Result<Option<UfsLu>, Error>,
    before: Result<Option<u8>, Error>,
)
    requires
        old(scan).lun < old(scan).num_lu,
        old(scan).lun <= u8::MAX,
        call_ensures(LunScan::current, (&*old(scan),), before),
        call_ensures(LunScan::visit, (scan, &desc, tags), r),
    ensures
        before == Ok::<Option<u8>, Error>(Some(old(scan).lun as u8)),
        final(scan).num_lu == old(scan).num_lu,
        r is Ok ==> final(scan).lun == old(scan).lun + 1,
        r matches Ok(Some(lu)) ==> lu.lun == old(scan).lun && lu.queue_depth <= tags,
{
}

/// The power mode is found, constrained and changed, in this order, and the platform
/// is told before and after the change. A step that fails ends it with its own error.
pub proof fn law_power_mode_goes_step_by_step(
    step: PowerStep,
    outcome: Result<(), Error>,
    r: Result<PowerStep, Error>,
)
    requires
        !(step is Done),
        call_ensures(PowerStep::configure_power_mode, (step, outcome), r),
    ensures
        r is Ok <==> outcome is Ok,
        r matches Err(e) ==> outcome == Err::<(), Error>(e),
        r matches Ok(next) ==> match step {
            PowerStep::FindMode => next is ConstrainMode,
            PowerStep::ConstrainMode => next is NotifyPre,
            PowerStep::NotifyPre => next is ChangeMode,
            PowerStep::ChangeMode => next is NotifyPost,
            _ => next is Done,
        },
{
}

/// All units are taken out, and with them the disk of each.
pub proof fn law_every_disk_is_taken_out(
    host: &mut UfsHost,
    r: Vec<Option<BoundGenDisk<QueueData, ()>>>,
    i: int,
)
    requires
        call_ensures(UfsHost::remove_luns, (host,), r),
    ensures
        final(host).luns.len() == 0,
        r.len() == old(host).luns.len(),
        0 <= i < r.len() ==> r@[i] == old(host).luns@[i].disk,
{
}

} // verus!
