//! Registers of the host controller.
//!
//! The functions here say which registers are accessed, in which order and with
//! which values; the accesses themselves are made by the caller, one operation
//! after the other.

use vstd::prelude::*;

use crate::error::Error;

verus! {

/// Controller capabilities.
pub const CONTROLLER_CAPABILITIES: usize = 0x00;

/// Multi-circular-queue capabilities.
pub const MCQCAP: usize = 0x04;

/// Interrupt status; a written 1 clears the bit.
pub const INTERRUPT_STATUS: usize = 0x20;

/// Interrupt enable.
pub const INTERRUPT_ENABLE: usize = 0x24;

/// Controller status.
pub const CONTROLLER_STATUS: usize = 0x30;

/// Controller enable.
pub const CONTROLLER_ENABLE_REG: usize = 0x34;

/// Error code of the PHY adapter layer.
pub const UIC_ERROR_CODE_PHY_ADAPTER_LAYER: usize = 0x38;

/// Error code of the data link layer.
pub const UIC_ERROR_CODE_DATA_LINK_LAYER: usize = 0x3C;

/// Error code of the network layer.
pub const UIC_ERROR_CODE_NETWORK_LAYER: usize = 0x40;

/// Error code of the transport layer.
pub const UIC_ERROR_CODE_TRANSPORT_LAYER: usize = 0x44;

/// Error code of the device management entity.
pub const UIC_ERROR_CODE_DME: usize = 0x48;

/// Interrupt aggregation of transfer requests.
pub const UTP_TRANSFER_REQ_INT_AGG_CONTROL: usize = 0x4C;

/// Transfer request list, low half of the address.
pub const UTP_TRANSFER_REQ_LIST_BASE_L: usize = 0x50;

/// Transfer request list, high half of the address.
pub const UTP_TRANSFER_REQ_LIST_BASE_H: usize = 0x54;

/// Transfer request doorbell.
pub const UTP_TRANSFER_REQ_DOOR_BELL: usize = 0x58;

/// Transfer requests to give up.
pub const UTP_TRANSFER_REQ_LIST_CLEAR: usize = 0x5C;

/// Transfer request list run or stop.
pub const UTP_TRANSFER_REQ_LIST_RUN_STOP: usize = 0x60;

/// Completed transfer requests; a written 1 clears the bit.
pub const UTP_TRANSFER_REQ_LIST_COMPLETION_NOTIFICATION: usize = 0x64;

/// Task request list, low half of the address.
pub const UTP_TASK_REQ_LIST_BASE_L: usize = 0x70;

/// Task request list, high half of the address.
pub const UTP_TASK_REQ_LIST_BASE_H: usize = 0x74;

/// Task request doorbell.
pub const UTP_TASK_REQ_DOOR_BELL: usize = 0x78;

/// Task requests to give up.
pub const UTP_TASK_REQ_LIST_CLEAR: usize = 0x7C;

/// Task request list run or stop.
pub const UTP_TASK_REQ_LIST_RUN_STOP: usize = 0x80;

/// Interconnect command.
pub const UIC_COMMAND: usize = 0x90;

/// First argument of an interconnect command.
pub const UIC_ARG1: usize = 0x94;

/// Second argument and result of an interconnect command.
pub const UIC_ARG2: usize = 0x98;

/// Third argument of an interconnect command.
pub const UIC_ARG3: usize = 0x9C;

/// Queue mode and event interrupts.
pub const UFS_MEM_CFG: usize = 0x300;

/// Multi-circular-queue configuration.
pub const UFS_MCQ_CFG: usize = 0x380;

/// Event interrupt message, low half of the address.
pub const UFS_ESILBA: usize = 0x384;

/// Event interrupt message, high half of the address.
pub const UFS_ESIUBA: usize = 0x388;

/// Submission queue attributes, relative to a queue's configuration block.
pub const REG_MCQ_SQATTR: usize = 0x00;

/// Submission queue, low half of the address, relative to a queue's configuration block.
pub const REG_MCQ_SQLBA: usize = 0x04;

/// Submission queue, high half of the address, relative to a queue's configuration block.
pub const REG_MCQ_SQUBA: usize = 0x08;

/// Offset of the submission queue doorbells, relative to a queue's configuration block.
pub const REG_MCQ_SQDAO: usize = 0x0C;

/// Offset of the submission queue interrupt status, relative to a queue's configuration block.
pub const REG_MCQ_SQISAO: usize = 0x10;

/// Completion queue attributes, relative to a queue's configuration block.
pub const REG_MCQ_CQATTR: usize = 0x20;

/// Completion queue, low half of the address, relative to a queue's configuration block.
pub const REG_MCQ_CQLBA: usize = 0x24;

/// Completion queue, high half of the address, relative to a queue's configuration block.
pub const REG_MCQ_CQUBA: usize = 0x28;

/// Offset of the completion queue doorbells, relative to a queue's configuration block.
pub const REG_MCQ_CQDAO: usize = 0x2C;

/// Offset of the completion queue interrupt status, relative to a queue's configuration block.
pub const REG_MCQ_CQISAO: usize = 0x30;

/// Submission queue head, relative to a queue's operation region.
pub const REG_MCQ_SQHP: usize = 0x00;

/// Submission queue tail, relative to a queue's operation region.
pub const REG_MCQ_SQTP: usize = 0x04;

/// Submission queue runtime control, relative to a queue's operation region.
pub const REG_MCQ_SQRTC: usize = 0x08;

/// Submission queue cleanup target, relative to a queue's operation region.
pub const REG_MCQ_SQCTI: usize = 0x0C;

/// Submission queue runtime status, relative to a queue's operation region.
pub const REG_MCQ_SQRTS: usize = 0x10;

/// Completion queue head, relative to a queue's operation region.
pub const REG_MCQ_CQHP: usize = 0x00;

/// Completion queue tail, relative to a queue's operation region.
pub const REG_MCQ_CQTP: usize = 0x04;

/// Completion queue interrupt status, relative to a queue's operation region.
pub const REG_MCQ_CQIS: usize = 0x00;

/// Completion queue interrupt enable, relative to a queue's operation region.
pub const REG_MCQ_CQIE: usize = 0x04;

/// Distance between the configuration blocks of two queues.
pub const MCQ_QCFG_STRIDE: usize = 0x40;

/// Unit of the pointer to the first configuration block.
pub const MCQ_QCFGPTR_UNIT: usize = 0x200;

/// Size of a queue entry in 4-byte words.
pub const MCQ_ENTRY_SIZE_IN_DWORD: u32 = 8;

/// Queue attribute: the queue is enabled.
pub const MCQ_QUEUE_EN: u32 = 0x8000_0000;

/// Queue attribute: place of the completion queue's number.
pub const MCQ_QUEUE_ID_SHIFT: u32 = 16;

/// Distance between the operation regions of two queues.
pub const MCQ_DEFAULT_OPR_STRIDE: usize = 48;

/// Interval at which a queue's runtime status is polled.
pub const MCQ_POLL_INTERVAL_US: i64 = 20;

/// Time after which polling a queue's runtime status ends.
pub const MCQ_POLL_TIMEOUT_US: i64 = 500_000;

/// An entry was added to a completion queue.
pub const MCQ_CQIS_TAIL_ENT_PUSH_STS: u32 = 0x1;

/// Runtime control: start the submission queue.
pub const MCQ_SQ_START: u32 = 0x0;

/// Runtime control: stop the submission queue.
pub const MCQ_SQ_STOP: u32 = 0x1;

/// Runtime control: initiate cleanup.
pub const MCQ_SQ_ICU: u32 = 0x2;

/// Runtime status: the submission queue is stopped.
pub const MCQ_SQ_STS: u32 = 0x1;

/// Runtime status: cleanup has ended.
pub const MCQ_SQ_CUS: u32 = 0x2;

/// Interrupt: a transfer request has completed.
pub const UTP_TRANSFER_REQ_COMPL: u32 = 0x0000_0001;

/// Interrupt: an interconnect error.
pub const UIC_ERROR: u32 = 0x0000_0004;

/// Interrupt: the power mode has changed.
pub const UIC_POWER_MODE: u32 = 0x0000_0010;

/// Interrupt: hibernation was left.
pub const UIC_HIBERNATE_EXIT: u32 = 0x0000_0020;

/// Interrupt: hibernation was entered.
pub const UIC_HIBERNATE_ENTER: u32 = 0x0000_0040;

/// Interrupt: the link was lost.
pub const UIC_LINK_LOST: u32 = 0x0000_0080;

/// Interrupt: an interconnect command has completed.
pub const UIC_COMMAND_COMPL: u32 = 0x0000_0400;

/// Interrupt: fatal error of the device.
pub const DEVICE_FATAL_ERROR: u32 = 0x0000_0800;

/// Interrupt: transport protocol error.
pub const UTP_ERROR: u32 = 0x0000_1000;

/// Interrupt: fatal error of the controller.
pub const CONTROLLER_FATAL_ERROR: u32 = 0x0001_0000;

/// Interrupt: fatal error of the system bus.
pub const SYSTEM_BUS_FATAL_ERROR: u32 = 0x0002_0000;

/// Interrupt: fatal error of the crypto engine.
pub const CRYPTO_ENGINE_FATAL_ERROR: u32 = 0x0004_0000;

/// Interrupt: an event of a completion queue.
pub const MCQ_CQ_EVENT_STATUS: u32 = 0x0010_0000;

/// Interrupts of interconnect commands: completion, power mode and hibernation.
pub const UIC_INTR_MASK: u32 = 0x0000_0470;

/// Interrupts that report an error.
pub const ERROR_MASK: u32 = 0x0007_1884;

/// Interrupts of transfers: completion, queue events and errors.
pub const TRANSFER_INTR_MASK: u32 = 0x0017_1885;

/// Controller status: transfer list, task list and interconnect commands are ready.
pub const HCS_READY_MASK: u32 = 0x0000_000E;

/// Controller status: interconnect commands are ready.
pub const HCS_UIC_COMMAND_READY: u32 = 0x0000_0008;

/// Controller enable: enabled.
pub const HCE_ENABLE: u32 = 0x0000_0001;

/// Queue mode: multi-circular queues.
pub const MEM_CFG_MCQ_MODE_SELECT: u32 = 0x0000_0001;

/// Queue mode: event interrupts by message.
pub const MEM_CFG_ESI_ENABLE: u32 = 0x0000_0002;

/// Queue configuration: number of active commands, less one.
pub const MCQ_CFG_MAX_ACTIVE_CMDS_MASK: u32 = 0x0001_FF00;

/// Largest number of active commands that can be configured.
pub const MCQ_MAX_ACTIVE_CMDS: u32 = 512;

/// The combined masks are the unions of the single interrupts.
pub proof fn law_interrupt_masks()
    ensures
        UIC_INTR_MASK == UIC_POWER_MODE | UIC_HIBERNATE_EXIT | UIC_HIBERNATE_ENTER
            | UIC_COMMAND_COMPL,
        ERROR_MASK == UIC_ERROR | UIC_LINK_LOST | DEVICE_FATAL_ERROR | CONTROLLER_FATAL_ERROR
            | SYSTEM_BUS_FATAL_ERROR | CRYPTO_ENGINE_FATAL_ERROR | UTP_ERROR,
        TRANSFER_INTR_MASK == UTP_TRANSFER_REQ_COMPL | MCQ_CQ_EVENT_STATUS | ERROR_MASK,
        UIC_INTR_MASK & TRANSFER_INTR_MASK == 0,
{
    assert(0x0000_0470u32 == 0x10u32 | 0x20 | 0x40 | 0x400) by (bit_vector);
    assert(0x0007_1884u32 == 0x4u32 | 0x80 | 0x800 | 0x1_0000 | 0x2_0000 | 0x4_0000 | 0x1000)
        by (bit_vector);
    assert(0x0017_1885u32 == 0x1u32 | 0x10_0000 | 0x7_1884) by (bit_vector);
    assert(0x0000_0470u32 & 0x0017_1885 == 0) by (bit_vector);
}

/// One access to the registers.
#[derive(Clone, Copy, Debug, PartialEq, Eq, Structural)]
pub enum RegOp {
    /// Write the value.
    Write { offset: usize, value: u32 },
    /// Read, set the bits, write back.
    SetBits { offset: usize, bits: u32 },
    /// Read, clear the bits, write back.
    ClearBits { offset: usize, bits: u32 },
    /// Read, put the bits in place of those of the mask, write back.
    Replace { offset: usize, mask: u32, bits: u32 },
    /// Read, and write back what was read unless it is 0.
    WriteBack { offset: usize },
    /// Read, and leave the rest out unless one of the bits is set.
    Guard { offset: usize, bits: u32 },
    /// Read until the masked value is this, for at most the given time.
    Poll { offset: usize, mask: u32, value: u32, interval_us: i64, timeout_us: i64 },
}

/// The value that an operation writes, given the value that was read before. A
/// poll and a guard write nothing.
pub open spec fn written(op: RegOp, read: u32) -> Option<u32> {
    match op {
        RegOp::Write { offset, value } => Some(value),
        RegOp::SetBits { offset, bits } => Some(read | bits),
        RegOp::ClearBits { offset, bits } => Some(read & !bits),
        RegOp::Replace { offset, mask, bits } => Some((read & !mask) | bits),
        RegOp::WriteBack { offset } => if read != 0 {
            Some(read)
        } else {
            None
        },
        RegOp::Guard { .. } => None,
        RegOp::Poll { .. } => None,
    }
}

impl RegOp {
    /// The value to write, given the value that was read before.
    pub fn value_to_write(&self, read: u32) -> (r: Option<u32>)
        ensures
            r == written(*self, read),
    {
        match *self {
            RegOp::Write { offset: _, value } => Some(value),
            RegOp::SetBits { offset: _, bits } => Some(read | bits),
            RegOp::ClearBits { offset: _, bits } => Some(read & !bits),
            RegOp::Replace { offset: _, mask, bits } => Some((read & !mask) | bits),
            RegOp::WriteBack { offset: _ } => if read != 0 {
                Some(read)
            } else {
                None
            },
            RegOp::Guard { .. } => None,
            RegOp::Poll { .. } => None,
        }
    }

    /// Whether the operations behind this one are performed, given the value that
    /// was read.
    pub fn goes_on(&self, read: u32) -> (r: bool)
        ensures
            r == (*self matches RegOp::Guard { bits, .. } ==> read & bits != 0),
    {
        match *self {
            RegOp::Guard { offset: _, bits } => read & bits != 0,
            _ => true,
        }
    }

    /// Whether polling ends with this value.
    pub fn poll_done(&self, read: u32) -> (r: bool)
        ensures
            r == (*self matches RegOp::Poll { mask, value, .. } ==> read & mask == value),
    {
        match *self {
            RegOp::Poll { offset: _, mask, value, interval_us: _, timeout_us: _ } => read & mask
                == value,
            _ => true,
        }
    }
}

/// Setting bits sets them and leaves every other bit as it was; clearing bits
/// clears them and leaves every other bit as it was.
pub proof fn law_bit_updates(offset: usize, bits: u32, read: u32)
    ensures
        written(RegOp::SetBits { offset, bits }, read) matches Some(v) && v & bits == bits && v
            & !bits == read & !bits,
        written(RegOp::ClearBits { offset, bits }, read) matches Some(v) && v & bits == 0 && v
            & !bits == read & !bits,
{
    assert((read | bits) & bits == bits) by (bit_vector);
    assert((read | bits) & !bits == read & !bits) by (bit_vector);
    assert((read & !bits) & bits == 0) by (bit_vector);
    assert((read & !bits) & !bits == read & !bits) by (bit_vector);
}

/// Error codes of the interconnect layers.
#[derive(Clone, Copy, Debug, PartialEq, Eq, Structural)]
pub struct UicErrorStatus {
    pub phy: u32,
    pub data_link: u32,
    pub network: u32,
    pub transport: u32,
    pub dme: u32,
}

/// The error register reports an error: its top bit is set.
pub open spec fn reports_error(code: u32) -> bool {
    code >= 0x8000_0000
}

impl UicErrorStatus {
    /// The link is beyond repair without a reset: the data link layer reports a
    /// PHY adapter initialization error, or the network, transport or device
    /// management layer reports any error.
    pub open spec fn is_fatal(self) -> bool {
        ||| reports_error(self.data_link) && (self.data_link / 0x2000) % 2 == 1
        ||| reports_error(self.network) && self.network % 8 != 0
        ||| reports_error(self.transport) && self.transport % 128 != 0
        ||| reports_error(self.dme) && self.dme % 2 != 0
    }

    /// Whether the errors call for recovery.
    pub fn requires_recovery(&self) -> (r: bool)
        ensures
            r == self.is_fatal(),
    {
        let data_link = self.data_link;
        let network = self.network;
        let transport = self.transport;
        let dme = self.dme;
        proof {
            assert((data_link & 0x8000_2000 == 0x8000_2000) == (data_link >= 0x8000_0000 && (
            data_link / 0x2000) % 2 == 1)) by (bit_vector);
            assert((network & 0x8000_0007 > 0x8000_0000) == (network >= 0x8000_0000 && network % 8
                != 0)) by (bit_vector);
            assert((transport & 0x8000_007f > 0x8000_0000) == (transport >= 0x8000_0000 && transport
                % 128 != 0)) by (bit_vector);
            assert((dme & 0x8000_0001 > 0x8000_0000) == (dme >= 0x8000_0000 && dme % 2 != 0))
                by (bit_vector);
        }
        data_link & 0x8000_2000 == 0x8000_2000 || network & 0x8000_0007 > 0x8000_0000 || transport
            & 0x8000_007f > 0x8000_0000 || dme & 0x8000_0001 > 0x8000_0000
    }
}

/// Status of a power mode change.
#[derive(Clone, Copy, Debug, PartialEq, Eq, Structural)]
pub enum PowerMode {
    OK,
    Local,
    Remote,
    Busy,
    ErrorCap,
    FatalError,
}

impl PowerMode {
    /// The number that stands for the status.
    pub open spec fn number(self) -> u32 {
        match self {
            PowerMode::OK => 0,
            PowerMode::Local => 1,
            PowerMode::Remote => 2,
            PowerMode::Busy => 3,
            PowerMode::ErrorCap => 4,
            PowerMode::FatalError => 5,
        }
    }

    /// The number that stands for the status.
    pub fn code(self) -> (r: u32)
        ensures
            r == self.number(),
    {
        match self {
            PowerMode::OK => 0,
            PowerMode::Local => 1,
            PowerMode::Remote => 2,
            PowerMode::Busy => 3,
            PowerMode::ErrorCap => 4,
            PowerMode::FatalError => 5,
        }
    }
}

/// One of a queue's operation regions.
#[derive(Clone, Copy, Debug, PartialEq, Eq, Structural)]
pub enum UfsMcqOprRegion {
    Sqd,
    Sqis,
    Cqd,
    Cqis,
}

/// Where the operation regions of one kind lie.
#[derive(Clone, Copy, Debug, PartialEq, Eq, Structural)]
pub struct UfsMcqOprInfo {
    pub offset: usize,
    pub stride: usize,
}

impl UfsMcqOprInfo {
    /// Regions from `offset` on, `stride` apart.
    pub fn new(offset: usize, stride: usize) -> (r: Self)
        ensures
            r == (UfsMcqOprInfo { offset, stride }),
    {
        UfsMcqOprInfo { offset, stride }
    }

    /// Offset of the first region.
    pub fn offset(&self) -> (r: usize)
        ensures
            r == self.offset,
    {
        self.offset
    }

    /// Distance between two regions.
    pub fn stride(&self) -> (r: usize)
        ensures
            r == self.stride,
    {
        self.stride
    }
}

/// Where all operation regions lie.
#[derive(Clone, Copy, Debug, PartialEq, Eq, Structural)]
pub struct UfsMcqOprSet {
    pub sqd: UfsMcqOprInfo,
    pub sqis: UfsMcqOprInfo,
    pub cqd: UfsMcqOprInfo,
    pub cqis: UfsMcqOprInfo,
}

impl UfsMcqOprSet {
    /// The set of these four.
    pub fn new(
        sqd: UfsMcqOprInfo,
        sqis: UfsMcqOprInfo,
        cqd: UfsMcqOprInfo,
        cqis: UfsMcqOprInfo,
    ) -> (r: Self)
        ensures
            r == (UfsMcqOprSet { sqd, sqis, cqd, cqis }),
    {
        UfsMcqOprSet { sqd, sqis, cqd, cqis }
    }

    /// The set that queue 0's configuration block describes.
    pub fn default_set(sqdao: u32, sqisao: u32, cqdao: u32, cqisao: u32) -> (r: Self)
        ensures
            r == (UfsMcqOprSet {
                sqd: UfsMcqOprInfo { offset: sqdao as usize, stride: MCQ_DEFAULT_OPR_STRIDE },
                sqis: UfsMcqOprInfo { offset: sqisao as usize, stride: MCQ_DEFAULT_OPR_STRIDE },
                cqd: UfsMcqOprInfo { offset: cqdao as usize, stride: MCQ_DEFAULT_OPR_STRIDE },
                cqis: UfsMcqOprInfo { offset: cqisao as usize, stride: MCQ_DEFAULT_OPR_STRIDE },
            }),
    {
        UfsMcqOprSet::new(
            UfsMcqOprInfo::new(sqdao as usize, MCQ_DEFAULT_OPR_STRIDE),
            UfsMcqOprInfo::new(sqisao as usize, MCQ_DEFAULT_OPR_STRIDE),
            UfsMcqOprInfo::new(cqdao as usize, MCQ_DEFAULT_OPR_STRIDE),
            UfsMcqOprInfo::new(cqisao as usize, MCQ_DEFAULT_OPR_STRIDE),
        )
    }

    /// The regions of one kind.
    pub open spec fn region(self, region: UfsMcqOprRegion) -> UfsMcqOprInfo {
        match region {
            UfsMcqOprRegion::Sqd => self.sqd,
            UfsMcqOprRegion::Sqis => self.sqis,
            UfsMcqOprRegion::Cqd => self.cqd,
            UfsMcqOprRegion::Cqis => self.cqis,
        }
    }

    /// Offset of a register in a queue's operation region.
    pub open spec fn place(self, region: UfsMcqOprRegion, queue: usize, reg: usize) -> int {
        self.region(region).offset + self.region(region).stride * queue + reg
    }

    /// Every register of the queue's operation regions has an offset.
    pub open spec fn addressable(self, queue: usize) -> bool {
        &&& self.place(UfsMcqOprRegion::Sqd, queue, 0x10) <= usize::MAX
        &&& self.place(UfsMcqOprRegion::Sqis, queue, 0x10) <= usize::MAX
        &&& self.place(UfsMcqOprRegion::Cqd, queue, 0x10) <= usize::MAX
        &&& self.place(UfsMcqOprRegion::Cqis, queue, 0x10) <= usize::MAX
    }

    /// Whether every register of the queue's operation regions has an offset.
    pub fn is_addressable(&self, queue: usize) -> (r: bool)
        ensures
            r == self.addressable(queue),
    {
        let mut r = true;
        let infos = [self.sqd, self.sqis, self.cqd, self.cqis];
        for i in 0..4usize
            invariant
                infos@ == seq![self.sqd, self.sqis, self.cqd, self.cqis],
                r == (forall|j: int|
                    0 <= j < i ==> (#[trigger] infos@[j]).offset + infos@[j].stride * queue + 0x10
                        <= usize::MAX),
        {
            let info = infos[i];
            proof {
                assert(0 <= info.stride * queue) by (nonlinear_arith)
                    requires
                        0 <= info.stride,
                        0 <= queue,
                ;
            }
            let fits = match info.stride.checked_mul(queue) {
                Some(span) => {
                    match span.checked_add(info.offset) {
                        Some(end) => end.checked_add(0x10).is_some(),
                        None => false,
                    }
                },
                None => false,
            };
            r = r && fits;
        }
        assert(infos@[0] == self.sqd);
        assert(infos@[1] == self.sqis);
        assert(infos@[2] == self.cqd);
        assert(infos@[3] == self.cqis);
        r
    }

    /// The regions of one kind.
    pub fn get(&self, region: UfsMcqOprRegion) -> (r: UfsMcqOprInfo)
        ensures
            r == self.region(region),
    {
        match region {
            UfsMcqOprRegion::Sqd => self.sqd,
            UfsMcqOprRegion::Sqis => self.sqis,
            UfsMcqOprRegion::Cqd => self.cqd,
            UfsMcqOprRegion::Cqis => self.cqis,
        }
    }

    /// Offset of a register in a queue's operation region.
    pub fn mcq_opr_offset(&self, region: UfsMcqOprRegion, queue: usize, reg: usize) -> (r: usize)
        requires
            self.addressable(queue),
            reg <= 0x10,
        ensures
            r == self.place(region, queue, reg),
    {
        let info = self.get(region);
        proof {
            assert(0 <= info.stride * queue) by (nonlinear_arith)
                requires
                    0 <= info.stride,
                    0 <= queue,
            ;
        }
        info.offset + info.stride * queue + reg
    }

    /// Where the head of a submission queue is read.
    pub fn mcq_sq_head_offset(&self, queue: usize) -> (r: usize)
        requires
            self.addressable(queue),
        ensures
            r == self.place(UfsMcqOprRegion::Sqd, queue, REG_MCQ_SQHP),
    {
        self.mcq_opr_offset(UfsMcqOprRegion::Sqd, queue, REG_MCQ_SQHP)
    }

    /// Where the tail of a completion queue is read.
    pub fn mcq_cq_tail_offset(&self, queue: usize) -> (r: usize)
        requires
            self.addressable(queue),
        ensures
            r == self.place(UfsMcqOprRegion::Cqd, queue, REG_MCQ_CQTP),
    {
        self.mcq_opr_offset(UfsMcqOprRegion::Cqd, queue, REG_MCQ_CQTP)
    }

    /// Where the interrupt status of a completion queue is read.
    pub fn mcq_cqis_offset(&self, queue: usize) -> (r: usize)
        requires
            self.addressable(queue),
        ensures
            r == self.place(UfsMcqOprRegion::Cqis, queue, REG_MCQ_CQIS),
    {
        self.mcq_opr_offset(UfsMcqOprRegion::Cqis, queue, REG_MCQ_CQIS)
    }

    /// Moves the tail of a submission queue.
    pub fn write_mcq_sq_tail(&self, queue: usize, tail: u32) -> (r: RegOp)
        requires
            self.addressable(queue),
        ensures
            r == (RegOp::Write {
                offset: self.place(UfsMcqOprRegion::Sqd, queue, REG_MCQ_SQTP) as usize,
                value: tail,
            }),
    {
        RegOp::Write {
            offset: self.mcq_opr_offset(UfsMcqOprRegion::Sqd, queue, REG_MCQ_SQTP),
            value: tail,
        }
    }

    /// Writes the runtime control of a submission queue.
    pub fn write_mcq_sq_runtime_control(&self, queue: usize, value: u32) -> (r: RegOp)
        requires
            self.addressable(queue),
        ensures
            r == (RegOp::Write {
                offset: self.place(UfsMcqOprRegion::Sqd, queue, REG_MCQ_SQRTC) as usize,
                value: value,
            }),
    {
        RegOp::Write {
            offset: self.mcq_opr_offset(UfsMcqOprRegion::Sqd, queue, REG_MCQ_SQRTC),
            value: value,
        }
    }

    /// Moves the head of a completion queue.
    pub fn write_mcq_cq_head(&self, queue: usize, head: u32) -> (r: RegOp)
        requires
            self.addressable(queue),
        ensures
            r == (RegOp::Write {
                offset: self.place(UfsMcqOprRegion::Cqd, queue, REG_MCQ_CQHP) as usize,
                value: head,
            }),
    {
        RegOp::Write {
            offset: self.mcq_opr_offset(UfsMcqOprRegion::Cqd, queue, REG_MCQ_CQHP),
            value: head,
        }
    }

    /// Acknowledges interrupts of a completion queue.
    pub fn write_mcq_cqis(&self, queue: usize, value: u32) -> (r: RegOp)
        requires
            self.addressable(queue),
        ensures
            r == (RegOp::Write {
                offset: self.place(UfsMcqOprRegion::Cqis, queue, REG_MCQ_CQIS) as usize,
                value: value,
            }),
    {
        RegOp::Write {
            offset: self.mcq_opr_offset(UfsMcqOprRegion::Cqis, queue, REG_MCQ_CQIS),
            value: value,
        }
    }

    /// Enables the interrupt for new entries of a completion queue.
    pub fn enable_mcq_cq_tail_push_intr(&self, queue: usize) -> (r: RegOp)
        requires
            self.addressable(queue),
        ensures
            r == (RegOp::Write {
                offset: self.place(UfsMcqOprRegion::Cqis, queue, REG_MCQ_CQIE) as usize,
                value: MCQ_CQIS_TAIL_ENT_PUSH_STS,
            }),
    {
        RegOp::Write {
            offset: self.mcq_opr_offset(UfsMcqOprRegion::Cqis, queue, REG_MCQ_CQIE),
            value: MCQ_CQIS_TAIL_ENT_PUSH_STS,
        }
    }

    /// Waiting for a bit of a submission queue's runtime status.
    pub open spec fn sq_status_poll(self, queue: usize, mask: u32, set: bool) -> RegOp {
        RegOp::Poll {
            offset: self.place(UfsMcqOprRegion::Sqd, queue, REG_MCQ_SQRTS) as usize,
            mask,
            value: if set {
                mask
            } else {
                0
            },
            interval_us: MCQ_POLL_INTERVAL_US,
            timeout_us: MCQ_POLL_TIMEOUT_US,
        }
    }

    /// Waits for a bit of a submission queue's runtime status.
    fn wait_mcq_sq_status(&self, queue: usize, mask: u32, set: bool) -> (r: RegOp)
        requires
            self.addressable(queue),
        ensures
            r == self.sq_status_poll(queue, mask, set),
    {
        RegOp::Poll {
            offset: self.mcq_opr_offset(UfsMcqOprRegion::Sqd, queue, REG_MCQ_SQRTS),
            mask,
            value: if set {
                mask
            } else {
                0
            },
            interval_us: MCQ_POLL_INTERVAL_US,
            timeout_us: MCQ_POLL_TIMEOUT_US,
        }
    }

    /// What stopping or starting a submission queue does.
    pub open spec fn sq_control_ops(self, queue: usize, control: u32, stopped: bool) -> Seq<RegOp> {
        seq![
            RegOp::Write {
                offset: self.place(UfsMcqOprRegion::Sqd, queue, REG_MCQ_SQRTC) as usize,
                value: control,
            },
            self.sq_status_poll(queue, MCQ_SQ_STS, stopped),
        ]
    }

    /// Stops a submission queue and waits until it has stopped.
    pub fn stop_mcq_sq(&self, queue: usize) -> (r: Vec<RegOp>)
        requires
            self.addressable(queue),
        ensures
            r@ == self.sq_control_ops(queue, MCQ_SQ_STOP, true),
    {
        let mut ops: Vec<RegOp> = Vec::new();
        ops.push(self.write_mcq_sq_runtime_control(queue, MCQ_SQ_STOP));
        ops.push(self.wait_mcq_sq_status(queue, MCQ_SQ_STS, true));
        assert(ops@ =~= self.sq_control_ops(queue, MCQ_SQ_STOP, true));
        ops
    }

    /// Starts a submission queue and waits until it runs.
    pub fn start_mcq_sq(&self, queue: usize) -> (r: Vec<RegOp>)
        requires
            self.addressable(queue),
        ensures
            r@ == self.sq_control_ops(queue, MCQ_SQ_START, false),
    {
        let mut ops: Vec<RegOp> = Vec::new();
        ops.push(self.write_mcq_sq_runtime_control(queue, MCQ_SQ_START));
        ops.push(self.wait_mcq_sq_status(queue, MCQ_SQ_STS, false));
        assert(ops@ =~= self.sq_control_ops(queue, MCQ_SQ_START, false));
        ops
    }

    /// Names the command that a submission queue is to be cleaned of.
    pub fn write_mcq_sq_cleanup_target(&self, queue: usize, lun: u8, tag: u8) -> (r: RegOp)
        requires
            self.addressable(queue),
        ensures
            r == (RegOp::Write {
                offset: self.place(UfsMcqOprRegion::Sqd, queue, REG_MCQ_SQCTI) as usize,
                value: (lun * 256 + tag) as u32,
            }),
    {
        RegOp::Write {
            offset: self.mcq_opr_offset(UfsMcqOprRegion::Sqd, queue, REG_MCQ_SQCTI),
            value: (lun as u32) * 256 + tag as u32,
        }
    }

    /// What cleaning a submission queue does.
    pub open spec fn sq_cleanup_ops(self, queue: usize) -> Seq<RegOp> {
        seq![
            RegOp::SetBits {
                offset: self.place(UfsMcqOprRegion::Sqd, queue, REG_MCQ_SQRTC) as usize,
                bits: MCQ_SQ_ICU,
            },
            self.sq_status_poll(queue, MCQ_SQ_CUS, true),
        ]
    }

    /// Cleans a submission queue of the named command and waits until that is
    /// done.
    pub fn initiate_mcq_sq_cleanup(&self, queue: usize) -> (r: Vec<RegOp>)
        requires
            self.addressable(queue),
        ensures
            r@ == self.sq_cleanup_ops(queue),
    {
        let mut ops: Vec<RegOp> = Vec::new();
        ops.push(
            RegOp::SetBits {
                offset: self.mcq_opr_offset(UfsMcqOprRegion::Sqd, queue, REG_MCQ_SQRTC),
                bits: MCQ_SQ_ICU,
            },
        );
        ops.push(self.wait_mcq_sq_status(queue, MCQ_SQ_CUS, true));
        assert(ops@ =~= self.sq_cleanup_ops(queue));
        ops
    }

    /// The error code of a cleanup, out of the runtime status.
    pub fn mcq_sq_cleanup_error_code(status: u32) -> (r: u32)
        ensures
            r == (status / 16) % 16,
    {
        (status / 16) % 16
    }
}

/// The capabilities that the controller reports, as read from its registers.
#[derive(Clone, Copy, Debug, PartialEq, Eq, Structural)]
pub struct UfsReg {
    pub cap: u32,
    pub mcq_cap: u32,
}

impl UfsReg {
    /// Number of transfer request slots.
    pub open spec fn slots(self) -> nat {
        (self.cap % 32 + 1) as nat
    }

    /// Number of transfer request slots with multi-circular queues.
    pub open spec fn slots_mcq(self) -> nat {
        (self.cap % 256 + 1) as nat
    }

    /// The controller has multi-circular queues.
    pub open spec fn has_mcq(self) -> bool {
        (self.cap / 0x4000_0000) % 2 == 1
    }

    /// Number of queues.
    pub open spec fn queues(self) -> nat {
        (self.mcq_cap % 256 + 1) as nat
    }

    /// Offset of the first queue's configuration block.
    pub open spec fn cfg_base(self) -> nat {
        ((self.mcq_cap / 0x1_0000) % 256 * 0x200) as nat
    }

    /// Offset of a register in a queue's configuration block.
    pub open spec fn cfg_place(self, queue: usize, reg: usize) -> int {
        self.cfg_base() + 0x40 * queue + reg
    }

    /// Number of transfer request slots.
    pub fn nutrs(&self) -> (r: usize)
        ensures
            r == self.slots(),
    {
        (self.cap % 32) as usize + 1
    }

    /// Whether the controller has multi-circular queues.
    pub fn mcq_supported(&self) -> (r: bool)
        ensures
            r == self.has_mcq(),
    {
        (self.cap / 0x4000_0000) % 2 == 1
    }

    /// Number of transfer request slots with multi-circular queues.
    pub fn nutrs_mcq(&self) -> (r: usize)
        ensures
            r == self.slots_mcq(),
    {
        (self.cap % 256) as usize + 1
    }

    /// Number of task management request slots.
    pub fn nutmrs(&self) -> (r: usize)
        ensures
            r == (self.cap / 0x1_0000) % 8 + 1,
    {
        ((self.cap / 0x1_0000) % 8) as usize + 1
    }

    /// Whether the link hibernates by itself.
    pub fn autoh8(&self) -> (r: bool)
        ensures
            r == ((self.cap / 0x80_0000) % 2 == 1),
    {
        (self.cap / 0x80_0000) % 2 == 1
    }

    /// Number of queues.
    pub fn mcq_max_queues(&self) -> (r: usize)
        ensures
            r == self.queues(),
    {
        (self.mcq_cap % 256) as usize + 1
    }

    /// Offset of the first queue's configuration block.
    pub fn mcq_queue_cfg_base(&self) -> (r: usize)
        ensures
            r == self.cfg_base(),
    {
        ((self.mcq_cap / 0x1_0000) % 256) as usize * MCQ_QCFGPTR_UNIT
    }

    /// Offset of a register in a queue's configuration block.
    pub fn mcq_queue_cfg_offset(&self, queue: usize, reg: usize) -> (r: usize)
        requires
            self.cfg_place(queue, reg) <= usize::MAX,
        ensures
            r == self.cfg_place(queue, reg),
    {
        self.mcq_queue_cfg_base() + MCQ_QCFG_STRIDE * queue + reg
    }

    /// Writes a register in a queue's configuration block.
    pub fn write_mcq_queue_cfg(&self, queue: usize, reg: usize, value: u32) -> (r: RegOp)
        requires
            self.cfg_place(queue, reg) <= usize::MAX,
        ensures
            r == (RegOp::Write { offset: self.cfg_place(queue, reg) as usize, value }),
    {
        RegOp::Write { offset: self.mcq_queue_cfg_offset(queue, reg), value }
    }

    /// Low half of an address.
    pub fn dma_addr_lo(dma_addr: u64) -> (r: u32)
        ensures
            r == dma_addr % 0x1_0000_0000,
    {
        (dma_addr % 0x1_0000_0000) as u32
    }

    /// High half of an address.
    pub fn dma_addr_hi(dma_addr: u64) -> (r: u32)
        ensures
            r == dma_addr / 0x1_0000_0000,
    {
        (dma_addr / 0x1_0000_0000) as u32
    }

    /// The two writes of an address into a queue's configuration block.
    pub open spec fn addr_writes(
        self,
        queue: usize,
        low_reg: usize,
        high_reg: usize,
        dma_addr: u64,
    ) -> Seq<RegOp> {
        seq![
            RegOp::Write {
                offset: self.cfg_place(queue, low_reg) as usize,
                value: (dma_addr % 0x1_0000_0000) as u32,
            },
            RegOp::Write {
                offset: self.cfg_place(queue, high_reg) as usize,
                value: (dma_addr / 0x1_0000_0000) as u32,
            },
        ]
    }

    /// Writes an address into a queue's configuration block, low half first.
    fn write_mcq_queue_dma_addr(
        &self,
        queue: usize,
        low_reg: usize,
        high_reg: usize,
        dma_addr: u64,
    ) -> (r: Vec<RegOp>)
        requires
            self.cfg_place(queue, low_reg) <= usize::MAX,
            self.cfg_place(queue, high_reg) <= usize::MAX,
        ensures
            r@ == self.addr_writes(queue, low_reg, high_reg, dma_addr),
    {
        let mut ops: Vec<RegOp> = Vec::new();
        ops.push(self.write_mcq_queue_cfg(queue, low_reg, Self::dma_addr_lo(dma_addr)));
        ops.push(self.write_mcq_queue_cfg(queue, high_reg, Self::dma_addr_hi(dma_addr)));
        assert(ops@ =~= self.addr_writes(queue, low_reg, high_reg, dma_addr));
        ops
    }

    /// Attributes of an enabled queue with this many entries.
    pub open spec fn queue_attr(max_entries: usize) -> Result<u32, Error> {
        if max_entries > u32::MAX || max_entries == 0 {
            Err(Error::EINVAL)
        } else if max_entries * 8 > u32::MAX {
            Err(Error::EOVERFLOW)
        } else {
            Ok(MCQ_QUEUE_EN | (max_entries * 8 - 1) as u32)
        }
    }

    /// Attributes of an enabled queue with this many entries.
    pub fn mcq_queue_attr(max_entries: usize) -> (r: Result<u32, Error>)
        ensures
            r == Self::queue_attr(max_entries),
    {
        let entries = match u32::try_from(max_entries) {
            Ok(entries) => entries,
            Err(_) => return Err(Error::EINVAL),
        };
        let dwords = match entries.checked_mul(MCQ_ENTRY_SIZE_IN_DWORD) {
            Some(dwords) => dwords,
            None => return Err(Error::EOVERFLOW),
        };
        match dwords.checked_sub(1) {
            Some(size) => Ok(MCQ_QUEUE_EN | size),
            None => Err(Error::EINVAL),
        }
    }

    /// Tells the controller where a submission queue is.
    pub fn set_mcq_sq_base_addr(&self, queue: usize, dma_addr: u64) -> (r: Vec<RegOp>)
        requires
            self.cfg_place(queue, REG_MCQ_CQISAO) <= usize::MAX,
        ensures
            r@ == self.addr_writes(queue, REG_MCQ_SQLBA, REG_MCQ_SQUBA, dma_addr),
    {
        self.write_mcq_queue_dma_addr(queue, REG_MCQ_SQLBA, REG_MCQ_SQUBA, dma_addr)
    }

    /// Tells the controller where a completion queue is.
    pub fn set_mcq_cq_base_addr(&self, queue: usize, dma_addr: u64) -> (r: Vec<RegOp>)
        requires
            self.cfg_place(queue, REG_MCQ_CQISAO) <= usize::MAX,
        ensures
            r@ == self.addr_writes(queue, REG_MCQ_CQLBA, REG_MCQ_CQUBA, dma_addr),
    {
        self.write_mcq_queue_dma_addr(queue, REG_MCQ_CQLBA, REG_MCQ_CQUBA, dma_addr)
    }

    /// What enabling a submission queue writes.
    pub open spec fn sq_enable(
        self,
        queue: usize,
        max_entries: usize,
        cq_id: usize,
    ) -> Result<RegOp, Error> {
        match Self::queue_attr(max_entries) {
            Err(e) => Err(e),
            Ok(attr) => if cq_id > u32::MAX {
                Err(Error::EINVAL)
            } else {
                Ok(
                    RegOp::Write {
                        offset: self.cfg_place(queue, REG_MCQ_SQATTR) as usize,
                        value: attr | ((cq_id as u32) << 16),
                    },
                )
            },
        }
    }

    /// Enables a submission queue that reports to completion queue `cq_id`.
    pub fn enable_mcq_sq(&self, queue: usize, max_entries: usize, cq_id: usize) -> (r: Result<
        RegOp,
        Error,
    >)
        requires
            self.cfg_place(queue, REG_MCQ_CQISAO) <= usize::MAX,
        ensures
            r == self.sq_enable(queue, max_entries, cq_id),
    {
        let attr = match Self::mcq_queue_attr(max_entries) {
            Ok(attr) => attr,
            Err(e) => return Err(e),
        };
        let cq_id = match u32::try_from(cq_id) {
            Ok(cq_id) => cq_id,
            Err(_) => return Err(Error::EINVAL),
        };
        Ok(self.write_mcq_queue_cfg(queue, REG_MCQ_SQATTR, attr | (cq_id << MCQ_QUEUE_ID_SHIFT)))
    }

    /// What enabling a completion queue writes.
    pub open spec fn cq_enable(self, queue: usize, max_entries: usize) -> Result<RegOp, Error> {
        match Self::queue_attr(max_entries) {
            Err(e) => Err(e),
            Ok(attr) => Ok(
                RegOp::Write {
                    offset: self.cfg_place(queue, REG_MCQ_CQATTR) as usize,
                    value: attr,
                },
            ),
        }
    }

    /// Enables a completion queue.
    pub fn enable_mcq_cq(&self, queue: usize, max_entries: usize) -> (r: Result<RegOp, Error>)
        requires
            self.cfg_place(queue, REG_MCQ_CQISAO) <= usize::MAX,
        ensures
            r == self.cq_enable(queue, max_entries),
    {
        match Self::mcq_queue_attr(max_entries) {
            Ok(attr) => Ok(self.write_mcq_queue_cfg(queue, REG_MCQ_CQATTR, attr)),
            Err(e) => Err(e),
        }
    }
}

/// Limits the number of active commands in the queue configuration.
pub fn config_mcq_max_active_cmds(max_active_cmds: u32) -> (r: Result<RegOp, Error>)
    ensures
        r == (if max_active_cmds == 0 {
            Err::<RegOp, Error>(Error::EINVAL)
        } else if max_active_cmds > MCQ_MAX_ACTIVE_CMDS {
            Err(Error::EOVERFLOW)
        } else {
            Ok(
                RegOp::Replace {
                    offset: UFS_MCQ_CFG,
                    mask: MCQ_CFG_MAX_ACTIVE_CMDS_MASK,
                    bits: ((max_active_cmds - 1) as u32) << 8,
                },
            )
        }),
{
    if max_active_cmds == 0 {
        return Err(Error::EINVAL);
    }
    if max_active_cmds > MCQ_MAX_ACTIVE_CMDS {
        return Err(Error::EOVERFLOW);
    }
    Ok(
        RegOp::Replace {
            offset: UFS_MCQ_CFG,
            mask: MCQ_CFG_MAX_ACTIVE_CMDS_MASK,
            bits: (max_active_cmds - 1) << 8,
        },
    )
}

/// The configuration that is written holds the limit in its field and keeps
/// every other bit.
pub proof fn law_max_active_cmds_field(cfg: u32, max_active_cmds: u32)
    requires
        0 < max_active_cmds <= MCQ_MAX_ACTIVE_CMDS,
    ensures
        ({
            let op = RegOp::Replace {
                offset: UFS_MCQ_CFG,
                mask: MCQ_CFG_MAX_ACTIVE_CMDS_MASK,
                bits: ((max_active_cmds - 1) as u32) << 8,
            };
            let v = written(op, cfg)->0;
            &&& written(op, cfg) is Some
            &&& (v / 256) % 512 == max_active_cmds - 1
            &&& v & !MCQ_CFG_MAX_ACTIVE_CMDS_MASK == cfg & !MCQ_CFG_MAX_ACTIVE_CMDS_MASK
        }),
{
    let m = (max_active_cmds - 1) as u32;
    assert(m < 512 ==> (((cfg & !0x0001_FF00u32) | (m << 8)) / 256) % 512 == m) by (bit_vector);
    assert(m < 512 ==> ((cfg & !0x0001_FF00u32) | (m << 8)) & !0x0001_FF00u32 == cfg
        & !0x0001_FF00u32) by (bit_vector);
}

/// Switches the controller to multi-circular queues.
pub fn enable_mcq_mode() -> (r: RegOp)
    ensures
        r == (RegOp::SetBits { offset: UFS_MEM_CFG, bits: MEM_CFG_MCQ_MODE_SELECT }),
{
    RegOp::SetBits { offset: UFS_MEM_CFG, bits: MEM_CFG_MCQ_MODE_SELECT }
}

/// Switches the controller back to the single doorbell.
pub fn disable_mcq_mode() -> (r: RegOp)
    ensures
        r == (RegOp::ClearBits { offset: UFS_MEM_CFG, bits: MEM_CFG_MCQ_MODE_SELECT }),
{
    RegOp::ClearBits { offset: UFS_MEM_CFG, bits: MEM_CFG_MCQ_MODE_SELECT }
}

/// Switches event interrupts by message on.
pub fn enable_mcq_esi() -> (r: RegOp)
    ensures
        r == (RegOp::SetBits { offset: UFS_MEM_CFG, bits: MEM_CFG_ESI_ENABLE }),
{
    RegOp::SetBits { offset: UFS_MEM_CFG, bits: MEM_CFG_ESI_ENABLE }
}

/// The two writes of an address into a pair of registers.
pub open spec fn addr_pair(low: usize, high: usize, addr: u64) -> Seq<RegOp> {
    seq![
        RegOp::Write { offset: low, value: (addr % 0x1_0000_0000) as u32 },
        RegOp::Write { offset: high, value: (addr / 0x1_0000_0000) as u32 },
    ]
}

/// Writes an address into a pair of registers, low half first.
fn write_addr_pair(low: usize, high: usize, addr: u64) -> (r: Vec<RegOp>)
    ensures
        r@ == addr_pair(low, high, addr),
{
    let mut ops: Vec<RegOp> = Vec::new();
    ops.push(RegOp::Write { offset: low, value: UfsReg::dma_addr_lo(addr) });
    ops.push(RegOp::Write { offset: high, value: UfsReg::dma_addr_hi(addr) });
    assert(ops@ =~= addr_pair(low, high, addr));
    ops
}

/// The halves that are written make up the address.
pub proof fn law_addr_pair(low: usize, high: usize, addr: u64)
    ensures
        addr_pair(low, high, addr).len() == 2,
        addr_pair(low, high, addr)[0]->Write_value + 0x1_0000_0000 * addr_pair(
            low,
            high,
            addr,
        )[1]->Write_value == addr,
{
}

/// Sets the address of event interrupt messages.
pub fn config_mcq_esi(addr: u64) -> (r: Vec<RegOp>)
    ensures
        r@ == addr_pair(UFS_ESILBA, UFS_ESIUBA, addr),
{
    write_addr_pair(UFS_ESILBA, UFS_ESIUBA, addr)
}

/// Sets the address of the transfer request list.
pub fn set_utrdl_base(addr: u64) -> (r: Vec<RegOp>)
    ensures
        r@ == addr_pair(UTP_TRANSFER_REQ_LIST_BASE_L, UTP_TRANSFER_REQ_LIST_BASE_H, addr),
{
    write_addr_pair(UTP_TRANSFER_REQ_LIST_BASE_L, UTP_TRANSFER_REQ_LIST_BASE_H, addr)
}

/// Sets the address of the task request list.
pub fn set_utmrdl_base(addr: u64) -> (r: Vec<RegOp>)
    ensures
        r@ == addr_pair(UTP_TASK_REQ_LIST_BASE_L, UTP_TASK_REQ_LIST_BASE_H, addr),
{
    write_addr_pair(UTP_TASK_REQ_LIST_BASE_L, UTP_TASK_REQ_LIST_BASE_H, addr)
}

/// Rings the doorbell of one transfer request slot.
pub fn ring_utrl_doorbell(tag: u32) -> (r: RegOp)
    requires
        tag < 32,
    ensures
        r == (RegOp::Write { offset: UTP_TRANSFER_REQ_DOOR_BELL, value: 1u32 << tag }),
{
    RegOp::Write { offset: UTP_TRANSFER_REQ_DOOR_BELL, value: 1u32 << tag }
}

/// Gives up transfer request slots.
pub fn clear_utrl_slots(mask: u32) -> (r: RegOp)
    ensures
        r == (RegOp::Write { offset: UTP_TRANSFER_REQ_LIST_CLEAR, value: mask }),
{
    RegOp::Write { offset: UTP_TRANSFER_REQ_LIST_CLEAR, value: mask }
}

/// Rings the doorbell of task management request slots.
pub fn ring_utmrl_doorbell(mask: u32) -> (r: RegOp)
    ensures
        r == (RegOp::Write { offset: UTP_TASK_REQ_DOOR_BELL, value: mask }),
{
    RegOp::Write { offset: UTP_TASK_REQ_DOOR_BELL, value: mask }
}

/// Gives up task management request slots.
pub fn clear_utmrl_slots(mask: u32) -> (r: RegOp)
    ensures
        r == (RegOp::Write { offset: UTP_TASK_REQ_LIST_CLEAR, value: mask }),
{
    RegOp::Write { offset: UTP_TASK_REQ_LIST_CLEAR, value: mask }
}

/// Enables the controller.
pub fn ctrl_enable() -> (r: RegOp)
    ensures
        r == (RegOp::SetBits { offset: CONTROLLER_ENABLE_REG, bits: HCE_ENABLE }),
{
    RegOp::SetBits { offset: CONTROLLER_ENABLE_REG, bits: HCE_ENABLE }
}

/// Disables the controller.
pub fn ctrl_disable() -> (r: RegOp)
    ensures
        r == (RegOp::Write { offset: CONTROLLER_ENABLE_REG, value: 0 }),
{
    RegOp::Write { offset: CONTROLLER_ENABLE_REG, value: 0 }
}

/// Whether the controller is enabled.
pub fn ctrl_enabled(hce: u32) -> (r: bool)
    ensures
        r == (hce % 2 == 1),
{
    hce % 2 == 1
}

/// Leaves the operations behind it out unless the controller is enabled.
pub fn if_ctrl_enabled() -> (r: RegOp)
    ensures
        r == (RegOp::Guard { offset: CONTROLLER_ENABLE_REG, bits: HCE_ENABLE }),
{
    RegOp::Guard { offset: CONTROLLER_ENABLE_REG, bits: HCE_ENABLE }
}

/// What stands behind the guard is performed exactly when the controller is
/// enabled.
pub proof fn law_guard_tells_enabled(hce: u32)
    ensures
        hce & HCE_ENABLE != 0 <==> hce % 2 == 1,
{
    assert(hce & 1u32 != 0 <==> hce % 2 == 1) by (bit_vector);
}

/// Acknowledges every interrupt that is pending, if any is.
pub fn clear_all_interrupts() -> (r: RegOp)
    ensures
        r == (RegOp::WriteBack { offset: INTERRUPT_STATUS }),
{
    RegOp::WriteBack { offset: INTERRUPT_STATUS }
}

/// Disables every interrupt.
pub fn disable_interrupts() -> (r: RegOp)
    ensures
        r == (RegOp::Write { offset: INTERRUPT_ENABLE, value: 0 }),
{
    RegOp::Write { offset: INTERRUPT_ENABLE, value: 0 }
}

/// Waiting until the masked bits of a register have a value.
fn wait_for(offset: usize, mask: u32, value: u32, interval_us: i64, timeout_ms: i64) -> (r: RegOp)
    requires
        i64::MIN <= timeout_ms * 1000 <= i64::MAX,
    ensures
        r == (RegOp::Poll {
            offset,
            mask,
            value,
            interval_us,
            timeout_us: (timeout_ms * 1000) as i64,
        }),
{
    RegOp::Poll { offset, mask, value, interval_us, timeout_us: timeout_ms * 1000 }
}

/// Waits until the controller is enabled.
pub fn wait_for_ctrl_enable(interval_us: i64, timeout_ms: i64) -> (r: RegOp)
    requires
        i64::MIN <= timeout_ms * 1000 <= i64::MAX,
    ensures
        r == (RegOp::Poll {
            offset: CONTROLLER_ENABLE_REG,
            mask: HCE_ENABLE,
            value: HCE_ENABLE,
            interval_us,
            timeout_us: (timeout_ms * 1000) as i64,
        }),
{
    wait_for(CONTROLLER_ENABLE_REG, HCE_ENABLE, HCE_ENABLE, interval_us, timeout_ms)
}

/// Waits until the controller is disabled.
pub fn wait_for_ctrl_disable(interval_us: i64, timeout_ms: i64) -> (r: RegOp)
    requires
        i64::MIN <= timeout_ms * 1000 <= i64::MAX,
    ensures
        r == (RegOp::Poll {
            offset: CONTROLLER_ENABLE_REG,
            mask: HCE_ENABLE,
            value: 0,
            interval_us,
            timeout_us: (timeout_ms * 1000) as i64,
        }),
{
    wait_for(CONTROLLER_ENABLE_REG, HCE_ENABLE, 0, interval_us, timeout_ms)
}

/// Waits until the controller takes interconnect commands.
pub fn wait_for_uic_cmd_ready(interval_us: i64, timeout_ms: i64) -> (r: RegOp)
    requires
        i64::MIN <= timeout_ms * 1000 <= i64::MAX,
    ensures
        r == (RegOp::Poll {
            offset: CONTROLLER_STATUS,
            mask: HCS_UIC_COMMAND_READY,
            value: HCS_UIC_COMMAND_READY,
            interval_us,
            timeout_us: (timeout_ms * 1000) as i64,
        }),
{
    wait_for(CONTROLLER_STATUS, HCS_UIC_COMMAND_READY, HCS_UIC_COMMAND_READY, interval_us, timeout_ms)
}

/// Waits until the controller takes transfer requests, task requests and
/// interconnect commands.
pub fn wait_for_request_ready(interval_us: i64, timeout_ms: i64) -> (r: RegOp)
    requires
        i64::MIN <= timeout_ms * 1000 <= i64::MAX,
    ensures
        r == (RegOp::Poll {
            offset: CONTROLLER_STATUS,
            mask: HCS_READY_MASK,
            value: HCS_READY_MASK,
            interval_us,
            timeout_us: (timeout_ms * 1000) as i64,
        }),
{
    wait_for(CONTROLLER_STATUS, HCS_READY_MASK, HCS_READY_MASK, interval_us, timeout_ms)
}

/// Enables the interrupts of interconnect commands.
pub fn enable_uic_interrupts() -> (r: RegOp)
    ensures
        r == (RegOp::SetBits { offset: INTERRUPT_ENABLE, bits: UIC_INTR_MASK }),
{
    RegOp::SetBits { offset: INTERRUPT_ENABLE, bits: UIC_INTR_MASK }
}

/// The interrupts of interconnect commands that are pending and enabled.
pub fn read_uic_interrupts(is: u32, ie: u32) -> (r: u32)
    ensures
        r == is & ie & UIC_INTR_MASK,
{
    is & ie & UIC_INTR_MASK
}

/// Acknowledges interrupts of interconnect commands.
pub fn confirm_uic_interrupts(value: u32) -> (r: RegOp)
    ensures
        r == (RegOp::Write { offset: INTERRUPT_STATUS, value: value & UIC_INTR_MASK }),
{
    RegOp::Write { offset: INTERRUPT_STATUS, value: value & UIC_INTR_MASK }
}

/// Acknowledges an interconnect error.
pub fn confirm_uic_error() -> (r: RegOp)
    ensures
        r == (RegOp::Write { offset: INTERRUPT_STATUS, value: UIC_ERROR }),
{
    RegOp::Write { offset: INTERRUPT_STATUS, value: UIC_ERROR }
}

/// The result code of an interconnect command.
pub fn get_uic_cmd_result(arg2: u32) -> (r: u32)
    ensures
        r == arg2 % 256,
{
    arg2 % 256
}

/// The status of a power mode change.
pub fn get_power_mode_change_status(hcs: u32) -> (r: u32)
    ensures
        r == (hcs / 256) % 8,
{
    (hcs / 256) % 8
}

/// The interrupts of transfers that are pending and enabled.
pub fn read_transfer_interrupts(is: u32, ie: u32) -> (r: u32)
    ensures
        r == is & ie & TRANSFER_INTR_MASK,
{
    is & ie & TRANSFER_INTR_MASK
}

/// Acknowledges interrupts of transfers.
pub fn confirm_transfer_interrupts(value: u32) -> (r: RegOp)
    ensures
        r == (RegOp::Write { offset: INTERRUPT_STATUS, value: value & TRANSFER_INTR_MASK }),
{
    RegOp::Write { offset: INTERRUPT_STATUS, value: value & TRANSFER_INTR_MASK }
}

/// Enables the interrupts of completed requests and of errors.
pub fn enable_interrupts() -> (r: RegOp)
    ensures
        r == (RegOp::SetBits {
            offset: INTERRUPT_ENABLE,
            bits: UTP_TRANSFER_REQ_COMPL | ERROR_MASK,
        }),
{
    RegOp::SetBits { offset: INTERRUPT_ENABLE, bits: UTP_TRANSFER_REQ_COMPL | ERROR_MASK }
}

/// Switches interrupt aggregation off.
pub fn disable_transfer_req_int_aggr() -> (r: RegOp)
    ensures
        r == (RegOp::Write { offset: UTP_TRANSFER_REQ_INT_AGG_CONTROL, value: 0 }),
{
    RegOp::Write { offset: UTP_TRANSFER_REQ_INT_AGG_CONTROL, value: 0 }
}

/// Enables the interrupts of completion queues.
pub fn enable_mcq_interrupts() -> (r: RegOp)
    ensures
        r == (RegOp::SetBits { offset: INTERRUPT_ENABLE, bits: MCQ_CQ_EVENT_STATUS }),
{
    RegOp::SetBits { offset: INTERRUPT_ENABLE, bits: MCQ_CQ_EVENT_STATUS }
}

/// The writes that start both request lists.
pub open spec fn run_ops() -> Seq<RegOp> {
    seq![
        RegOp::Write { offset: UTP_TASK_REQ_LIST_RUN_STOP, value: 1 },
        RegOp::Write { offset: UTP_TRANSFER_REQ_LIST_RUN_STOP, value: 1 },
    ]
}

/// Starts both request lists, the task list first.
pub fn enable_run_stop() -> (r: Vec<RegOp>)
    ensures
        r@ == run_ops(),
{
    let mut ops: Vec<RegOp> = Vec::new();
    ops.push(RegOp::Write { offset: UTP_TASK_REQ_LIST_RUN_STOP, value: 1 });
    ops.push(RegOp::Write { offset: UTP_TRANSFER_REQ_LIST_RUN_STOP, value: 1 });
    assert(ops@ =~= run_ops());
    ops
}

/// The writes that stop both request lists.
pub open spec fn stop_ops() -> Seq<RegOp> {
    seq![
        RegOp::Write { offset: UTP_TRANSFER_REQ_LIST_RUN_STOP, value: 0 },
        RegOp::Write { offset: UTP_TASK_REQ_LIST_RUN_STOP, value: 0 },
    ]
}

/// Stops both request lists, the transfer list first.
pub fn disable_run_stop() -> (r: Vec<RegOp>)
    ensures
        r@ == stop_ops(),
{
    let mut ops: Vec<RegOp> = Vec::new();
    ops.push(RegOp::Write { offset: UTP_TRANSFER_REQ_LIST_RUN_STOP, value: 0 });
    ops.push(RegOp::Write { offset: UTP_TASK_REQ_LIST_RUN_STOP, value: 0 });
    assert(ops@ =~= stop_ops());
    ops
}

/// Acknowledges completed transfer requests.
pub fn write_utrlcnr(value: u32) -> (r: RegOp)
    ensures
        r == (RegOp::Write {
            offset: UTP_TRANSFER_REQ_LIST_COMPLETION_NOTIFICATION,
            value,
        }),
{
    RegOp::Write { offset: UTP_TRANSFER_REQ_LIST_COMPLETION_NOTIFICATION, value }
}

/// Whether an interconnect command has completed.
pub fn is_uic_command_completion(interrupt_status: u32) -> (r: bool)
    ensures
        r == (interrupt_status & UIC_COMMAND_COMPL != 0),
{
    (interrupt_status & UIC_COMMAND_COMPL) != 0
}

/// Whether the power mode has changed.
pub fn is_uic_power_mode(interrupt_status: u32) -> (r: bool)
    ensures
        r == (interrupt_status & UIC_POWER_MODE != 0),
{
    (interrupt_status & UIC_POWER_MODE) != 0
}

/// Whether an error is reported.
pub fn is_error_interrupt(interrupt_status: u32) -> (r: bool)
    ensures
        r == (interrupt_status & ERROR_MASK != 0),
{
    (interrupt_status & ERROR_MASK) != 0
}

/// Whether an interconnect error is reported.
pub fn is_uic_error_interrupt(interrupt_status: u32) -> (r: bool)
    ensures
        r == (interrupt_status & UIC_ERROR != 0),
{
    (interrupt_status & UIC_ERROR) != 0
}

/// Whether an error is reported that is no interconnect error.
pub fn is_transfer_recovery_interrupt(interrupt_status: u32) -> (r: bool)
    ensures
        r == (interrupt_status & (ERROR_MASK & !UIC_ERROR) != 0),
{
    (interrupt_status & (ERROR_MASK & !UIC_ERROR)) != 0
}

/// An error is an interconnect error or one that calls for recovery by itself.
pub proof fn law_error_interrupts(interrupt_status: u32)
    ensures
        interrupt_status & ERROR_MASK != 0 <==> interrupt_status & UIC_ERROR != 0
            || interrupt_status & (ERROR_MASK & !UIC_ERROR) != 0,
{
    assert(interrupt_status & 0x0007_1884 != 0 <==> interrupt_status & 0x4 != 0 || interrupt_status
        & (0x0007_1884 & !0x4u32) != 0) by (bit_vector);
}

/// Where the registers of a host controller lie.
pub proof fn law_register_offsets()
    ensures
        CONTROLLER_CAPABILITIES == 0x00,
        MCQCAP == 0x04,
        INTERRUPT_STATUS == 0x20,
        INTERRUPT_ENABLE == 0x24,
        CONTROLLER_STATUS == 0x30,
        CONTROLLER_ENABLE_REG == 0x34,
        UIC_ERROR_CODE_PHY_ADAPTER_LAYER == 0x38,
        UIC_ERROR_CODE_DATA_LINK_LAYER == 0x3c,
        UIC_ERROR_CODE_NETWORK_LAYER == 0x40,
        UIC_ERROR_CODE_TRANSPORT_LAYER == 0x44,
        UIC_ERROR_CODE_DME == 0x48,
        UTP_TRANSFER_REQ_INT_AGG_CONTROL == 0x4c,
        UTP_TRANSFER_REQ_LIST_BASE_L == 0x50,
        UTP_TRANSFER_REQ_LIST_BASE_H == 0x54,
        UTP_TRANSFER_REQ_DOOR_BELL == 0x58,
        UTP_TRANSFER_REQ_LIST_CLEAR == 0x5c,
        UTP_TRANSFER_REQ_LIST_RUN_STOP == 0x60,
        UTP_TRANSFER_REQ_LIST_COMPLETION_NOTIFICATION == 0x64,
        UTP_TASK_REQ_LIST_BASE_L == 0x70,
        UTP_TASK_REQ_LIST_BASE_H == 0x74,
        UTP_TASK_REQ_DOOR_BELL == 0x78,
        UTP_TASK_REQ_LIST_CLEAR == 0x7c,
        UTP_TASK_REQ_LIST_RUN_STOP == 0x80,
        UIC_COMMAND == 0x90,
        UIC_ARG1 == 0x94,
        UIC_ARG2 == 0x98,
        UIC_ARG3 == 0x9c,
        UFS_MEM_CFG == 0x300,
        UFS_MCQ_CFG == 0x380,
        UFS_ESILBA == 0x384,
        UFS_ESIUBA == 0x388,
{
}

/// Where the registers of a queue lie in its configuration block and in its
/// operation regions.
pub proof fn law_queue_register_offsets()
    ensures
        REG_MCQ_SQATTR == 0x00,
        REG_MCQ_SQLBA == 0x04,
        REG_MCQ_SQUBA == 0x08,
        REG_MCQ_SQDAO == 0x0c,
        REG_MCQ_SQISAO == 0x10,
        REG_MCQ_CQATTR == 0x20,
        REG_MCQ_CQLBA == 0x24,
        REG_MCQ_CQUBA == 0x28,
        REG_MCQ_CQDAO == 0x2c,
        REG_MCQ_CQISAO == 0x30,
        REG_MCQ_SQHP == 0x00,
        REG_MCQ_SQTP == 0x04,
        REG_MCQ_SQRTC == 0x08,
        REG_MCQ_SQCTI == 0x0c,
        REG_MCQ_SQRTS == 0x10,
        REG_MCQ_CQHP == 0x00,
        REG_MCQ_CQTP == 0x04,
        REG_MCQ_CQIS == 0x00,
        REG_MCQ_CQIE == 0x04,
{
}

/// Which bits of the registers mean what.
pub proof fn law_register_bits()
    ensures
        MCQ_CQIS_TAIL_ENT_PUSH_STS == 0x1,
        MCQ_SQ_START == 0x0,
        MCQ_SQ_STOP == 0x1,
        MCQ_SQ_ICU == 0x2,
        MCQ_SQ_STS == 0x1,
        MCQ_SQ_CUS == 0x2,
        UTP_TRANSFER_REQ_COMPL == 0x1,
        UIC_ERROR == 0x4,
        UIC_POWER_MODE == 0x10,
        UIC_HIBERNATE_EXIT == 0x20,
        UIC_HIBERNATE_ENTER == 0x40,
        UIC_LINK_LOST == 0x80,
        UIC_COMMAND_COMPL == 0x400,
        DEVICE_FATAL_ERROR == 0x800,
        UTP_ERROR == 0x1000,
        CONTROLLER_FATAL_ERROR == 0x10000,
        SYSTEM_BUS_FATAL_ERROR == 0x20000,
        CRYPTO_ENGINE_FATAL_ERROR == 0x40000,
        MCQ_CQ_EVENT_STATUS == 0x100000,
        HCS_READY_MASK == 0xe,
        HCS_UIC_COMMAND_READY == 0x8,
        HCE_ENABLE == 0x1,
        MEM_CFG_MCQ_MODE_SELECT == 0x1,
        MEM_CFG_ESI_ENABLE == 0x2,
{
}

/// What each operation leaves in a register. A write leaves its value; replacing
/// leaves the new bits under the mask and the old ones outside it; writing back
/// leaves what was read, and writes nothing where that is 0; a guard and a poll
/// write nothing.
pub proof fn law_operations_write(
    offset: usize,
    value: u32,
    mask: u32,
    bits: u32,
    read: u32,
    interval_us: i64,
    timeout_us: i64,
)
    ensures
        written(RegOp::Write { offset, value }, read) == Some(value),
        bits & !mask == 0 ==> (written(RegOp::Replace { offset, mask, bits }, read) matches Some(v)
            && v & mask == bits && v & !mask == read & !mask),
        written(RegOp::WriteBack { offset }, read) is Some <==> read != 0,
        read != 0 ==> written(RegOp::WriteBack { offset }, read) == Some(read),
        written(RegOp::Guard { offset, bits }, read) is None,
        written(RegOp::Poll { offset, mask, value, interval_us, timeout_us }, read) is None,
{
    assert(bits & !mask == 0 ==> (((read & !mask) | bits) & mask == bits && ((read & !mask) | bits)
        & !mask == read & !mask)) by (bit_vector);
}

/// An address goes into a pair of registers low half first, each half into its
/// own register.
pub proof fn law_address_halves_in_order(low: usize, high: usize, addr: u64)
    ensures
        addr_pair(low, high, addr)[0] matches RegOp::Write { offset, value } && offset == low
            && value == addr % 0x1_0000_0000,
        addr_pair(low, high, addr)[1] matches RegOp::Write { offset, value } && offset == high
            && value == addr / 0x1_0000_0000,
{
}

/// Both request lists are started by writing 1 and stopped by writing 0. The task
/// list is the first to start and the last to stop.
pub proof fn law_request_lists_start_and_stop()
    ensures
        run_ops() == seq![
            RegOp::Write { offset: 0x80, value: 1 },
            RegOp::Write { offset: 0x60, value: 1 },
        ],
        stop_ops() == seq![
            RegOp::Write { offset: 0x60, value: 0 },
            RegOp::Write { offset: 0x80, value: 0 },
        ],
{
}

/// How a submission queue is stopped and started: 1 or 0 is written 8 bytes into
/// its doorbell region, and then bit 0 of the register 16 bytes into it is waited
/// for to be set or clear, every 20 microseconds and for half a second.
pub proof fn law_queue_stops_and_starts(oprs: UfsMcqOprSet, queue: usize)
    requires
        oprs.addressable(queue),
    ensures
        ({
            let region = oprs.sqd.offset + oprs.sqd.stride * queue;
            let stop = oprs.sq_control_ops(queue, MCQ_SQ_STOP, true);
            let start = oprs.sq_control_ops(queue, MCQ_SQ_START, false);
            &&& stop.len() == 2
            &&& stop[0] matches RegOp::Write { offset, value } && offset == region + 8 && value == 1
            &&& stop[1] matches RegOp::Poll { offset, mask, value, interval_us, timeout_us } && {
                &&& offset == region + 0x10
                &&& mask == 1
                &&& value == 1
                &&& interval_us == 20
                &&& timeout_us == 500_000
            }
            &&& start.len() == 2
            &&& start[0] matches RegOp::Write { offset, value } && offset == region + 8 && value
                == 0
            &&& start[1] matches RegOp::Poll { offset, mask, value, interval_us, timeout_us } && {
                &&& offset == region + 0x10
                &&& mask == 1
                &&& value == 0
                &&& interval_us == 20
                &&& timeout_us == 500_000
            }
        }),
{
    assert(0 <= oprs.sqd.stride * queue) by (nonlinear_arith)
        requires
            0 <= oprs.sqd.stride,
            0 <= queue,
    ;
}

/// How a submission queue is cleaned: bit 1 is set 8 bytes into its doorbell
/// region, and then bit 1 of the register 16 bytes into it is waited for.
pub proof fn law_queue_is_cleaned(oprs: UfsMcqOprSet, queue: usize)
    requires
        oprs.addressable(queue),
    ensures
        ({
            let region = oprs.sqd.offset + oprs.sqd.stride * queue;
            let ops = oprs.sq_cleanup_ops(queue);
            &&& ops.len() == 2
            &&& ops[0] matches RegOp::SetBits { offset, bits } && offset == region + 8 && bits == 2
            &&& ops[1] matches RegOp::Poll { offset, mask, value, interval_us, timeout_us } && {
                &&& offset == region + 0x10
                &&& mask == 2
                &&& value == 2
                &&& interval_us == 20
                &&& timeout_us == 500_000
            }
        }),
{
    assert(0 <= oprs.sqd.stride * queue) by (nonlinear_arith)
        requires
            0 <= oprs.sqd.stride,
            0 <= queue,
    ;
}

/// Each kind of operation region has its own place, and the regions of a kind are
/// a stride apart.
pub proof fn law_regions_have_their_places(oprs: UfsMcqOprSet, queue: usize, reg: usize)
    ensures
        oprs.place(UfsMcqOprRegion::Sqd, queue, reg) == oprs.sqd.offset + oprs.sqd.stride * queue
            + reg,
        oprs.place(UfsMcqOprRegion::Sqis, queue, reg) == oprs.sqis.offset + oprs.sqis.stride * queue
            + reg,
        oprs.place(UfsMcqOprRegion::Cqd, queue, reg) == oprs.cqd.offset + oprs.cqd.stride * queue
            + reg,
        oprs.place(UfsMcqOprRegion::Cqis, queue, reg) == oprs.cqis.offset + oprs.cqis.stride * queue
            + reg,
        MCQ_DEFAULT_OPR_STRIDE == 0x30,
{
}

/// What the attributes of an enabled queue hold: the top bit, and the size of the
/// ring in double words, less one. A ring without entries has none, and neither
/// has one whose size does not fit.
pub proof fn law_queue_attributes(max_entries: usize)
    ensures
        max_entries == 0 || max_entries > u32::MAX <==> UfsReg::queue_attr(max_entries) == Err::<
            u32,
            Error,
        >(Error::EINVAL),
        0 < max_entries <= u32::MAX && max_entries * 8 > u32::MAX ==> UfsReg::queue_attr(
            max_entries,
        ) == Err::<u32, Error>(Error::EOVERFLOW),
        0 < max_entries && max_entries * 8 <= 0x8000_0000 ==> (UfsReg::queue_attr(
            max_entries,
        ) matches Ok(v) && v == 0x8000_0000 + (max_entries * 8 - 1)),
{
    if 0 < max_entries && max_entries * 8 <= 0x8000_0000 {
        let size = (max_entries * 8 - 1) as u32;
        assert(size < 0x8000_0000 ==> 0x8000_0000u32 | size == 0x8000_0000 + size) by (bit_vector);
    }
}

/// Which interconnect errors are fatal. An error register counts only with its top
/// bit set. Of the data link layer, bit 13 is fatal; of the network layer any of
/// the low three bits is, of the transport layer any of the low seven, of the
/// device management entity the lowest. The PHY adapter layer's errors never are.
pub proof fn law_fatal_interconnect_errors(e: UicErrorStatus)
    ensures
        ({
            let top = 0x8000_0000int;
            &&& e.is_fatal() <==> {
                ||| e.data_link >= top && e.data_link as int / 0x2000 % 2 == 1
                ||| e.network >= top && e.network % 8 > 0
                ||| e.transport >= top && e.transport % 128 > 0
                ||| e.dme >= top && e.dme % 2 > 0
            }
            &&& e.data_link < top && e.network < top && e.transport < top && e.dme < top
                ==> !e.is_fatal()
        }),
{
}

/// The numbers of the states of a power mode change.
pub proof fn law_power_mode_numbers()
    ensures
        PowerMode::OK.number() == 0,
        PowerMode::Local.number() == 1,
        PowerMode::Remote.number() == 2,
        PowerMode::Busy.number() == 3,
        PowerMode::ErrorCap.number() == 4,
        PowerMode::FatalError.number() == 5,
{
}

/// What the controller's capabilities say: the number of slots in bits 0 to 4, or
/// in bits 0 to 7 with multi-circular queues, less one; the number of task slots in
/// bits 16 to 18, less one; bit 23 whether the link hibernates by itself; bit 30
/// whether there are multi-circular queues, and bits 0 to 7 of their own
/// capabilities how many, less one.
pub proof fn law_capabilities(
    reg: UfsReg,
    slots: usize,
    mcq_slots: usize,
    task_slots: usize,
    hibernates: bool,
    mcq: bool,
    queues: usize,
)
    requires
        call_ensures(UfsReg::nutrs, (&reg,), slots),
        call_ensures(UfsReg::nutrs_mcq, (&reg,), mcq_slots),
        call_ensures(UfsReg::nutmrs, (&reg,), task_slots),
        call_ensures(UfsReg::autoh8, (&reg,), hibernates),
        call_ensures(UfsReg::mcq_supported, (&reg,), mcq),
        call_ensures(UfsReg::mcq_max_queues, (&reg,), queues),
    ensures
        slots - 1 == reg.cap % 32,
        mcq_slots - 1 == reg.cap % 256,
        task_slots - 1 == reg.cap as int / 0x1_0000 % 8,
        hibernates <==> reg.cap as int / 0x80_0000 % 2 == 1,
        mcq <==> reg.cap as int / 0x4000_0000 % 2 == 1,
        queues - 1 == reg.mcq_cap % 256,
        1 <= slots <= 32,
        1 <= mcq_slots <= 256,
        1 <= task_slots <= 8,
        1 <= queues <= 256,
{
}

/// Limiting the active commands writes their number, less one, from bit 8 of the
/// register at 0x380 on. There may be 512.
pub proof fn law_active_commands_are_limited(
    max_active_cmds: u32,
    r: Result<RegOp, Error>,
    cfg: u32,
)
    requires
        call_ensures(config_mcq_max_active_cmds, (max_active_cmds,), r),
    ensures
        r is Ok <==> 1 <= max_active_cmds <= 512,
        max_active_cmds == 0 ==> r == Err::<RegOp, Error>(Error::EINVAL),
        max_active_cmds > 512 ==> r == Err::<RegOp, Error>(Error::EOVERFLOW),
        r matches Ok(op) ==> {
            &&& op matches RegOp::Replace { offset, .. } && offset == 0x380
            &&& written(op, cfg) matches Some(v) && v as int / 256 % 512 == max_active_cmds - 1
        },
{
    if r is Ok {
        law_max_active_cmds_field(cfg, max_active_cmds);
    }
}

/// The doorbell of a slot is rung by its bit; what is given up or acknowledged is
/// written as it is, each to its own register.
pub proof fn law_doorbell_registers(
    tag: u32,
    mask: u32,
    ring: RegOp,
    clear: RegOp,
    task_ring: RegOp,
    task_clear: RegOp,
    notify: RegOp,
)
    requires
        tag < 32,
        call_ensures(ring_utrl_doorbell, (tag,), ring),
        call_ensures(clear_utrl_slots, (mask,), clear),
        call_ensures(ring_utmrl_doorbell, (mask,), task_ring),
        call_ensures(clear_utmrl_slots, (mask,), task_clear),
        call_ensures(write_utrlcnr, (mask,), notify),
    ensures
        ring == (RegOp::Write { offset: 0x58, value: 1u32 << tag }),
        clear == (RegOp::Write { offset: 0x5c, value: mask }),
        task_ring == (RegOp::Write { offset: 0x78, value: mask }),
        task_clear == (RegOp::Write { offset: 0x7c, value: mask }),
        notify == (RegOp::Write { offset: 0x64, value: mask }),
{
}

/// Enabling the controller sets its enable bit, disabling clears the register, and
/// either is waited for until that is what it shows.
pub proof fn law_controller_enable_bit(
    enable: RegOp,
    disable: RegOp,
    up: RegOp,
    down: RegOp,
    interval_us: i64,
    timeout_ms: i64,
)
    requires
        i64::MIN <= timeout_ms * 1000 <= i64::MAX,
        call_ensures(ctrl_enable, (), enable),
        call_ensures(ctrl_disable, (), disable),
        call_ensures(wait_for_ctrl_enable, (interval_us, timeout_ms), up),
        call_ensures(wait_for_ctrl_disable, (interval_us, timeout_ms), down),
    ensures
        enable == (RegOp::SetBits { offset: 0x34, bits: 1 }),
        disable == (RegOp::Write { offset: 0x34, value: 0 }),
        up matches RegOp::Poll { offset, mask, value, interval_us: i, timeout_us } && {
            &&& offset == 0x34
            &&& mask == 1
            &&& value == 1
            &&& i == interval_us
            &&& timeout_us == timeout_ms * 1000
        },
        down matches RegOp::Poll { offset, mask, value, interval_us: i, timeout_us } && {
            &&& offset == 0x34
            &&& mask == 1
            &&& value == 0
            &&& i == interval_us
            &&& timeout_us == timeout_ms * 1000
        },
{
}

/// The queue mode is switched on and off by bit 0, and event messages by bit 1, of
/// the register at 0x300; the interrupts are enabled and acknowledged in the
/// registers at 0x24 and 0x20.
pub proof fn law_mode_and_interrupt_registers(
    value: u32,
    mode_on: RegOp,
    mode_off: RegOp,
    messages: RegOp,
    queue_events: RegOp,
    commands: RegOp,
    all: RegOp,
    none: RegOp,
    uic_ack: RegOp,
    transfer_ack: RegOp,
    error_ack: RegOp,
)
    requires
        call_ensures(enable_mcq_mode, (), mode_on),
        call_ensures(disable_mcq_mode, (), mode_off),
        call_ensures(enable_mcq_esi, (), messages),
        call_ensures(enable_mcq_interrupts, (), queue_events),
        call_ensures(enable_uic_interrupts, (), commands),
        call_ensures(clear_all_interrupts, (), all),
        call_ensures(disable_interrupts, (), none),
        call_ensures(confirm_uic_interrupts, (value,), uic_ack),
        call_ensures(confirm_transfer_interrupts, (value,), transfer_ack),
        call_ensures(confirm_uic_error, (), error_ack),
    ensures
        mode_on == (RegOp::SetBits { offset: 0x300, bits: 1 }),
        mode_off == (RegOp::ClearBits { offset: 0x300, bits: 1 }),
        messages == (RegOp::SetBits { offset: 0x300, bits: 2 }),
        queue_events == (RegOp::SetBits { offset: 0x24, bits: 0x10_0000 }),
        commands == (RegOp::SetBits { offset: 0x24, bits: 0x470 }),
        all == (RegOp::WriteBack { offset: 0x20 }),
        none == (RegOp::Write { offset: 0x24, value: 0 }),
        uic_ack == (RegOp::Write { offset: 0x20, value: value & 0x470 }),
        transfer_ack == (RegOp::Write { offset: 0x20, value: value & 0x17_1885 }),
        error_ack == (RegOp::Write { offset: 0x20, value: 4 }),
{
}

/// What the registers report: the result of an interconnect command in the low
/// byte of its second argument, the state of a power mode change in bits 8 to 10
/// of the controller status, the error of a cleanup in bits 4 to 7 of the queue's
/// runtime status.
pub proof fn law_reported_fields(
    arg2: u32,
    hcs: u32,
    status: u32,
    hce: u32,
    result: u32,
    power: u32,
    cleanup: u32,
    enabled: bool,
)
    requires
        call_ensures(get_uic_cmd_result, (arg2,), result),
        call_ensures(get_power_mode_change_status, (hcs,), power),
        call_ensures(UfsMcqOprSet::mcq_sq_cleanup_error_code, (status,), cleanup),
        call_ensures(ctrl_enabled, (hce,), enabled),
    ensures
        result < 256 && (arg2 - result) % 256 == 0,
        power < 8 && power == hcs as int / 0x100 % 8,
        cleanup < 16 && cleanup == status as int / 0x10 % 16,
        enabled <==> hce % 2 == 1,
{
}

/// Where a queue's registers are read and written: the head of the submission
/// queue at the start of its doorbell region and its tail 4 bytes on, its runtime
/// control, the command to clean it of and its status behind; the head of the
/// completion queue at the start of its own and its tail 4 bytes on; its events at
/// the start of the interrupt region.
pub proof fn law_queue_registers(
    oprs: UfsMcqOprSet,
    queue: usize,
    value: u32,
    lun: u8,
    tag: u8,
    sq_head: usize,
    sq_tail: RegOp,
    control: RegOp,
    target: RegOp,
    cq_head: RegOp,
    cq_tail: usize,
    events: usize,
    ack: RegOp,
)
    requires
        oprs.addressable(queue),
        call_ensures(UfsMcqOprSet::mcq_sq_head_offset, (&oprs, queue), sq_head),
        call_ensures(UfsMcqOprSet::write_mcq_sq_tail, (&oprs, queue, value), sq_tail),
        call_ensures(UfsMcqOprSet::write_mcq_sq_runtime_control, (&oprs, queue, value), control),
        call_ensures(UfsMcqOprSet::write_mcq_sq_cleanup_target, (&oprs, queue, lun, tag), target),
        call_ensures(UfsMcqOprSet::write_mcq_cq_head, (&oprs, queue, value), cq_head),
        call_ensures(UfsMcqOprSet::mcq_cq_tail_offset, (&oprs, queue), cq_tail),
        call_ensures(UfsMcqOprSet::mcq_cqis_offset, (&oprs, queue), events),
        call_ensures(UfsMcqOprSet::write_mcq_cqis, (&oprs, queue, value), ack),
    ensures
        ({
            let sqd = oprs.sqd.offset + oprs.sqd.stride * queue;
            let cqd = oprs.cqd.offset + oprs.cqd.stride * queue;
            let cqis = oprs.cqis.offset + oprs.cqis.stride * queue;
            &&& sq_head == sqd
            &&& sq_tail matches RegOp::Write { offset, value: v } && offset == sqd + 4 && v == value
            &&& control matches RegOp::Write { offset, value: v } && offset == sqd + 8 && v == value
            &&& target matches RegOp::Write { offset, value: v } && offset == sqd + 12 && v == lun
                * 256 + tag
            &&& cq_head matches RegOp::Write { offset, value: v } && offset == cqd && v == value
            &&& cq_tail == cqd + 4
            &&& events == cqis
            &&& ack matches RegOp::Write { offset, value: v } && offset == cqis && v == value
        }),
{
    assert(0 <= oprs.sqd.stride * queue && 0 <= oprs.cqd.stride * queue && 0 <= oprs.cqis.stride
        * queue) by (nonlinear_arith)
        requires
            0 <= oprs.sqd.stride,
            0 <= oprs.cqd.stride,
            0 <= oprs.cqis.stride,
            0 <= queue,
    ;
}

} // verus!
