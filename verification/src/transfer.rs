//! How transfers are spread over hardware queues.

use vstd::prelude::*;

use crate::command::TASK_TAG_COUNT;
use crate::error::Error;
use crate::reg::UfsReg;

verus! {

/// Number of queues set aside for reads.
pub const UFS_MCQ_DEFAULT_READ_QUEUES: usize = 0;

/// Number of queues set aside for polling.
pub const UFS_MCQ_DEFAULT_POLL_QUEUES: usize = 1;

/// Number of requests that the block layer may queue.
pub const UFS_SOFTWARE_QUEUE_DEPTH: usize = 256;

/// Number of processors that there may be, at least one.
pub open spec fn cpu_count(nr_cpu_ids: u32) -> nat {
    if nr_cpu_ids == 0 {
        1
    } else {
        nr_cpu_ids as nat
    }
}

/// Number of processors that there may be, at least one.
pub fn possible_cpus(nr_cpu_ids: u32) -> (r: usize)
    ensures
        r == cpu_count(nr_cpu_ids),
{
    if nr_cpu_ids == 0 {
        1
    } else {
        nr_cpu_ids as usize
    }
}

/// Configuration of multi-circular queues.
#[derive(Clone, Copy, Debug, PartialEq, Eq, Structural)]
pub struct McqConfig {
    pub max_queues: usize,
    pub total_queues: usize,
    pub default_queues: usize,
    pub read_queues: usize,
    pub interrupt_queues: usize,
    pub poll_queues: usize,
    pub max_active_commands: usize,
    pub task_tag_count: usize,
    pub software_queue_depth: usize,
    pub ring_entries: usize,
}

impl McqConfig {
    /// The configuration of a controller with multi-circular queues. One queue
    /// is polled; of the others, as many as there are processors raise
    /// interrupts.
    pub open spec fn of(reg: UfsReg, cpus: nat) -> Self {
        let max_queues = reg.queues();
        let default_queues = if max_queues - 1 <= cpus {
            (max_queues - 1) as usize
        } else {
            cpus as usize
        };
        McqConfig {
            max_queues: max_queues as usize,
            total_queues: (default_queues + 1) as usize,
            default_queues,
            read_queues: 0,
            interrupt_queues: default_queues,
            poll_queues: 1,
            max_active_commands: reg.slots_mcq() as usize,
            task_tag_count: 256,
            software_queue_depth: 256,
            ring_entries: (reg.slots_mcq() + 1) as usize,
        }
    }

    /// How the block layer's queues map to the hardware queues.
    pub fn queue_map(&self) -> (r: Result<UfsQueueMap, Error>)
        ensures
            r == UfsQueueMap::of(
                self.total_queues,
                self.default_queues,
                self.read_queues,
                self.poll_queues,
            ),
    {
        UfsQueueMap::new(
            self.total_queues,
            self.default_queues,
            self.read_queues,
            self.poll_queues,
        )
    }

    /// Whether a queue is polled.
    pub fn is_poll_queue(&self, queue: usize) -> (r: bool)
        ensures
            r == (self.interrupt_queues <= queue < self.total_queues),
    {
        queue >= self.interrupt_queues && queue < self.total_queues
    }
}

/// How transfers get to the controller.
#[derive(Clone, Copy, Debug, PartialEq, Eq, Structural)]
pub enum UfsTransferConfig {
    /// By a single doorbell register.
    Sdb { tag_count: usize },
    /// By multi-circular queues.
    Mcq(McqConfig),
}

impl UfsTransferConfig {
    /// The configuration for a controller.
    pub open spec fn of(reg: UfsReg, cpus: nat) -> Result<Self, Error> {
        if !reg.has_mcq() {
            Ok(UfsTransferConfig::Sdb { tag_count: reg.slots() as usize })
        } else if reg.queues() <= 1 {
            Err(Error::ENOTSUPP)
        } else {
            Ok(UfsTransferConfig::Mcq(McqConfig::of(reg, cpus)))
        }
    }

    /// The configuration for a controller on a machine with this many
    /// processors.
    pub fn new(reg: &UfsReg, nr_cpu_ids: u32) -> (r: Result<Self, Error>)
        ensures
            r == Self::of(*reg, cpu_count(nr_cpu_ids)),
    {
        if !reg.mcq_supported() {
            let tag_count = reg.nutrs();
            if tag_count == 0 || tag_count > 32 {
                return Err(Error::EINVAL);
            }
            return Ok(UfsTransferConfig::Sdb { tag_count });
        }
        let max_queues = reg.mcq_max_queues();
        let read_queues = UFS_MCQ_DEFAULT_READ_QUEUES;
        let poll_queues = UFS_MCQ_DEFAULT_POLL_QUEUES;
        let reserved_queues = match read_queues.checked_add(poll_queues) {
            Some(reserved_queues) => reserved_queues,
            None => return Err(Error::EOVERFLOW),
        };
        if max_queues <= reserved_queues {
            return Err(Error::ENOTSUPP);
        }
        let cpus = possible_cpus(nr_cpu_ids);
        let default_queues = if max_queues - reserved_queues <= cpus {
            max_queues - reserved_queues
        } else {
            cpus
        };
        let interrupt_queues = match default_queues.checked_add(read_queues) {
            Some(interrupt_queues) => interrupt_queues,
            None => return Err(Error::EOVERFLOW),
        };
        let total_queues = match interrupt_queues.checked_add(poll_queues) {
            Some(total_queues) => total_queues,
            None => return Err(Error::EOVERFLOW),
        };
        let slots = reg.nutrs_mcq();
        let max_active_commands = if slots <= TASK_TAG_COUNT {
            slots
        } else {
            TASK_TAG_COUNT
        };
        let ring_entries = match max_active_commands.checked_add(1) {
            Some(ring_entries) => ring_entries,
            None => return Err(Error::EOVERFLOW),
        };
        if interrupt_queues == 0 || max_active_commands == 0 {
            return Err(Error::EINVAL);
        }
        Ok(
            UfsTransferConfig::Mcq(
                McqConfig {
                    max_queues,
                    total_queues,
                    default_queues,
                    read_queues,
                    interrupt_queues,
                    poll_queues,
                    max_active_commands,
                    task_tag_count: TASK_TAG_COUNT,
                    software_queue_depth: UFS_SOFTWARE_QUEUE_DEPTH,
                    ring_entries,
                },
            ),
        )
    }

    /// Number of task tags.
    pub open spec fn tags(self) -> usize {
        match self {
            UfsTransferConfig::Sdb { tag_count } => tag_count,
            UfsTransferConfig::Mcq(config) => config.task_tag_count,
        }
    }

    /// Number of requests that the block layer may queue.
    pub open spec fn depth(self) -> usize {
        match self {
            UfsTransferConfig::Sdb { .. } => UFS_SOFTWARE_QUEUE_DEPTH,
            UfsTransferConfig::Mcq(config) => config.software_queue_depth,
        }
    }

    /// Number of commands that may be active at the controller.
    pub open spec fn active_limit(self) -> usize {
        match self {
            UfsTransferConfig::Sdb { tag_count } => tag_count,
            UfsTransferConfig::Mcq(config) => config.max_active_commands,
        }
    }

    /// How the block layer's queues map to the hardware queues.
    pub open spec fn map(self) -> Result<UfsQueueMap, Error> {
        match self {
            UfsTransferConfig::Sdb { .. } => Ok(UfsQueueMap::single()),
            UfsTransferConfig::Mcq(c) => UfsQueueMap::of(
                c.total_queues,
                c.default_queues,
                c.read_queues,
                c.poll_queues,
            ),
        }
    }

    /// Number of hardware queues.
    pub open spec fn hw_queue_count(self) -> usize {
        match self {
            UfsTransferConfig::Sdb { .. } => 1,
            UfsTransferConfig::Mcq(config) => config.total_queues,
        }
    }

    /// Number of task tags.
    pub fn tag_count(&self) -> (r: usize)
        ensures
            r == self.tags(),
    {
        match *self {
            UfsTransferConfig::Sdb { tag_count } => tag_count,
            UfsTransferConfig::Mcq(config) => config.task_tag_count,
        }
    }

    /// Number of requests that the block layer may queue. It exceeds the number
    /// of commands that may be active, so that submitters do not wait for a
    /// request before they can reap polled commands.
    pub fn software_queue_depth(&self) -> (r: usize)
        ensures
            r == self.depth(),
    {
        match *self {
            UfsTransferConfig::Sdb { .. } => UFS_SOFTWARE_QUEUE_DEPTH,
            UfsTransferConfig::Mcq(config) => config.software_queue_depth,
        }
    }

    /// Number of commands that may be active at the controller.
    pub fn max_active_commands(&self) -> (r: usize)
        ensures
            r == self.active_limit(),
    {
        match *self {
            UfsTransferConfig::Sdb { tag_count } => tag_count,
            UfsTransferConfig::Mcq(config) => config.max_active_commands,
        }
    }

    /// How the block layer's queues map to the hardware queues.
    pub fn queue_map(&self) -> (r: Result<UfsQueueMap, Error>)
        ensures
            r == self.map(),
    {
        match *self {
            UfsTransferConfig::Sdb { .. } => Ok(UfsQueueMap::sdb()),
            UfsTransferConfig::Mcq(config) => config.queue_map(),
        }
    }
}

/// What a hardware queue is used for.
#[derive(Clone, Copy, Debug, PartialEq, Eq, Structural)]
pub enum QueueType {
    Default,
    Read,
    Poll,
}

/// A range of hardware queues.
#[derive(Clone, Copy, Debug, PartialEq, Eq, Structural)]
pub struct UfsQueueRange {
    pub offset: usize,
    pub count: usize,
}

impl UfsQueueRange {
    /// The queue is in the range.
    pub open spec fn has(self, queue: int) -> bool {
        self.offset <= queue < self.offset + self.count
    }

    /// First queue of the range.
    pub fn offset(&self) -> (r: usize)
        ensures
            r == self.offset,
    {
        self.offset
    }

    /// Number of queues in the range.
    pub fn count(&self) -> (r: usize)
        ensures
            r == self.count,
    {
        self.count
    }
}

/// How the block layer's queues map to the hardware queues.
#[derive(Clone, Copy, Debug, PartialEq, Eq, Structural)]
pub struct UfsQueueMap {
    pub nr_hw_queues: usize,
    pub default: UfsQueueRange,
    pub read: UfsQueueRange,
    pub poll: UfsQueueRange,
}

impl UfsQueueMap {
    /// The one queue of a single doorbell, which is polled as well.
    pub open spec fn single() -> Self {
        UfsQueueMap {
            nr_hw_queues: 1,
            default: UfsQueueRange { offset: 0, count: 1 },
            read: UfsQueueRange { offset: 0, count: 0 },
            poll: UfsQueueRange { offset: 0, count: 1 },
        }
    }

    /// The map of queues for default use, then for reads, then for polling.
    pub open spec fn of(
        nr_hw_queues: usize,
        default_queues: usize,
        read_queues: usize,
        poll_queues: usize,
    ) -> Result<Self, Error> {
        if default_queues + read_queues + poll_queues > usize::MAX {
            Err(Error::EOVERFLOW)
        } else if nr_hw_queues == 0 || default_queues + read_queues + poll_queues != nr_hw_queues {
            Err(Error::EINVAL)
        } else {
            Ok(
                UfsQueueMap {
                    nr_hw_queues,
                    default: UfsQueueRange { offset: 0, count: default_queues },
                    read: UfsQueueRange { offset: default_queues, count: read_queues },
                    poll: UfsQueueRange {
                        offset: (default_queues + read_queues) as usize,
                        count: poll_queues,
                    },
                },
            )
        }
    }

    /// The map of a single doorbell.
    pub fn sdb() -> (r: Self)
        ensures
            r == Self::single(),
    {
        UfsQueueMap {
            nr_hw_queues: 1,
            default: UfsQueueRange { offset: 0, count: 1 },
            read: UfsQueueRange { offset: 0, count: 0 },
            poll: UfsQueueRange { offset: 0, count: 1 },
        }
    }

    /// The map of queues for default use, then for reads, then for polling.
    pub fn new(
        nr_hw_queues: usize,
        default_queues: usize,
        read_queues: usize,
        poll_queues: usize,
    ) -> (r: Result<Self, Error>)
        ensures
            r == Self::of(nr_hw_queues, default_queues, read_queues, poll_queues),
    {
        let interrupt_queues = match default_queues.checked_add(read_queues) {
            Some(interrupt_queues) => interrupt_queues,
            None => return Err(Error::EOVERFLOW),
        };
        let mapped_queues = match interrupt_queues.checked_add(poll_queues) {
            Some(mapped_queues) => mapped_queues,
            None => return Err(Error::EOVERFLOW),
        };
        if nr_hw_queues == 0 || mapped_queues != nr_hw_queues {
            return Err(Error::EINVAL);
        }
        let read_offset = default_queues;
        let poll_offset = interrupt_queues;
        Ok(
            UfsQueueMap {
                nr_hw_queues,
                default: UfsQueueRange { offset: 0, count: default_queues },
                read: UfsQueueRange { offset: read_offset, count: read_queues },
                poll: UfsQueueRange { offset: poll_offset, count: poll_queues },
            },
        )
    }

    /// Number of hardware queues.
    pub fn nr_hw_queues(&self) -> (r: usize)
        ensures
            r == self.nr_hw_queues,
    {
        self.nr_hw_queues
    }

    /// The queues of one use.
    pub open spec fn range_of(self, kind: QueueType) -> UfsQueueRange {
        match kind {
            QueueType::Default => self.default,
            QueueType::Read => self.read,
            QueueType::Poll => self.poll,
        }
    }

    /// The queues of one use.
    pub fn range(&self, kind: QueueType) -> (r: UfsQueueRange)
        ensures
            r == self.range_of(kind),
    {
        match kind {
            QueueType::Default => self.default,
            QueueType::Read => self.read,
            QueueType::Poll => self.poll,
        }
    }

    /// Number of queue maps that the layout needs.
    pub open spec fn maps_needed(self) -> u32 {
        if self.poll.count > 0 {
            3
        } else if self.read.count > 0 {
            2
        } else {
            1
        }
    }

    /// Number of blk-mq queue maps required to express this layout.
    pub fn num_maps(&self) -> (r: u32)
        ensures
            r == self.maps_needed(),
    {
        if self.poll.count > 0 {
            3
        } else if self.read.count > 0 {
            2
        } else {
            1
        }
    }
}

/// Every hardware queue of a map has exactly one use.
pub proof fn law_queue_uses_partition(
    nr_hw_queues: usize,
    default_queues: usize,
    read_queues: usize,
    poll_queues: usize,
    queue: int,
)
    requires
        UfsQueueMap::of(nr_hw_queues, default_queues, read_queues, poll_queues) is Ok,
    ensures
        ({
            let map = UfsQueueMap::of(nr_hw_queues, default_queues, read_queues, poll_queues)->Ok_0;
            &&& 0 <= queue < nr_hw_queues <==> map.default.has(queue) || map.read.has(queue)
                || map.poll.has(queue)
            &&& !(map.default.has(queue) && map.read.has(queue))
            &&& !(map.default.has(queue) && map.poll.has(queue))
            &&& !(map.read.has(queue) && map.poll.has(queue))
        }),
{
}

/// A configuration asks for no more than the controller has, maps every
/// hardware queue, leaves a tag for every active command, and gives the rings
/// one slot more than there can be active commands.
pub proof fn law_config_fits_controller(reg: UfsReg, nr_cpu_ids: u32)
    requires
        UfsTransferConfig::of(reg, cpu_count(nr_cpu_ids)) is Ok,
    ensures
        ({
            let config = UfsTransferConfig::of(reg, cpu_count(nr_cpu_ids))->Ok_0;
            &&& config.map() matches Ok(map) && map.nr_hw_queues == config.hw_queue_count()
            &&& 0 < config.active_limit() <= config.tags() <= TASK_TAG_COUNT
            &&& config.active_limit() <= config.depth()
            &&& config matches UfsTransferConfig::Mcq(c) ==> {
                &&& c.total_queues <= c.max_queues == reg.queues()
                &&& 0 < c.interrupt_queues < c.total_queues
                &&& c.interrupt_queues <= cpu_count(nr_cpu_ids)
                &&& c.max_active_commands <= reg.slots_mcq()
                &&& c.ring_entries == c.max_active_commands + 1
            }
        }),
{
}

/// What the configuration is made of, as the controller's capability registers
/// have it. Bit 30 tells whether there are multi-circular queues. With them, one
/// queue is polled and the others raise interrupts: as many as the controller has
/// besides it, but no more than there are processors.
pub proof fn law_config_follows_capabilities(reg: UfsReg, nr_cpu_ids: u32)
    ensures
        ({
            let cpus = if nr_cpu_ids < 1 {
                1int
            } else {
                nr_cpu_ids as int
            };
            let others = reg.mcq_cap as int % 256;
            let raising = if others < cpus {
                others
            } else {
                cpus
            };
            let r = UfsTransferConfig::of(reg, cpu_count(nr_cpu_ids));
            if reg.cap as int / 0x4000_0000 % 2 == 0 {
                r == Ok::<UfsTransferConfig, Error>(
                    UfsTransferConfig::Sdb { tag_count: (reg.cap % 32 + 1) as usize },
                )
            } else if others == 0 {
                r == Err::<UfsTransferConfig, Error>(Error::ENOTSUPP)
            } else {
                r matches Ok(UfsTransferConfig::Mcq(c)) && {
                    &&& c.max_queues == others + 1
                    &&& c.poll_queues == 1
                    &&& c.read_queues == 0
                    &&& c.default_queues == raising
                    &&& c.interrupt_queues == raising
                    &&& c.total_queues == raising + 1
                    &&& c.max_active_commands == reg.cap % 256 + 1
                    &&& c.ring_entries == reg.cap % 256 + 2
                    &&& c.task_tag_count == 256
                    &&& c.software_queue_depth == 256
                }
            }
        }),
{
}

/// What a configuration promises the block layer: with a single doorbell, a tag
/// for every slot, and one queue that serves every use; with multi-circular
/// queues, what was configured. Either way it may queue 256 requests where the
/// configuration says nothing else.
pub proof fn law_config_limits(config: UfsTransferConfig)
    ensures
        config matches UfsTransferConfig::Sdb { tag_count } ==> {
            &&& config.tags() == tag_count
            &&& config.active_limit() == tag_count
            &&& config.depth() == 256
            &&& config.hw_queue_count() == 1
            &&& config.map() matches Ok(map) && map.nr_hw_queues == 1 && forall|queue: int| #![auto]
                {
                    &&& map.default.has(queue) <==> queue == 0
                    &&& map.poll.has(queue) <==> queue == 0
                    &&& !map.read.has(queue)
                }
        },
        config matches UfsTransferConfig::Mcq(c) ==> {
            &&& config.tags() == c.task_tag_count
            &&& config.active_limit() == c.max_active_commands
            &&& config.depth() == c.software_queue_depth
            &&& config.hw_queue_count() == c.total_queues
        },
{
}

/// A map hands the hardware queues out in order: first those for default use,
/// then those for reads, then those for polling. There is one exactly when it
/// uses every queue, and there is a queue.
pub proof fn law_queue_uses_in_order(
    nr_hw_queues: usize,
    default_queues: usize,
    read_queues: usize,
    poll_queues: usize,
    queue: int,
)
    ensures
        ({
            let r = UfsQueueMap::of(nr_hw_queues, default_queues, read_queues, poll_queues);
            let reads = default_queues + read_queues;
            &&& r is Ok <==> nr_hw_queues > 0 && reads + poll_queues == nr_hw_queues
            &&& r == Err::<UfsQueueMap, Error>(Error::EOVERFLOW) <==> reads + poll_queues
                > usize::MAX
            &&& r matches Ok(map) ==> {
                &&& map.nr_hw_queues == nr_hw_queues
                &&& map.range_of(QueueType::Default).has(queue) <==> 0 <= queue < default_queues
                &&& map.range_of(QueueType::Read).has(queue) <==> default_queues <= queue < reads
                &&& map.range_of(QueueType::Poll).has(queue) <==> reads <= queue < nr_hw_queues
            }
        }),
{
}

/// The block layer is given as many maps as it takes to reach every use that has
/// a queue, the default one always being the first, reads the second and polling
/// the third.
pub proof fn law_maps_reach_every_use(map: UfsQueueMap)
    ensures
        1 <= map.maps_needed() <= 3,
        map.range_of(QueueType::Poll).count > 0 <==> map.maps_needed() == 3,
        map.range_of(QueueType::Read).count > 0 ==> map.maps_needed() >= 2,
        map.range_of(QueueType::Read).count == 0 && map.range_of(QueueType::Poll).count == 0
            ==> map.maps_needed() == 1,
{
}

/// The configuration that is made for a controller is the one that its
/// capabilities call for, and a queue of it is polled exactly when it raises no
/// interrupt.
pub proof fn law_made_configuration(
    reg: UfsReg,
    nr_cpu_ids: u32,
    r: Result<UfsTransferConfig, Error>,
    config: McqConfig,
    queue: usize,
    polled: bool,
)
    requires
        call_ensures(UfsTransferConfig::new, (&reg, nr_cpu_ids), r),
        call_ensures(McqConfig::is_poll_queue, (&config, queue), polled),
    ensures
        r matches Ok(UfsTransferConfig::Sdb { tag_count }) ==> tag_count == reg.cap % 32 + 1,
        r matches Ok(UfsTransferConfig::Sdb { .. }) <==> reg.cap as int / 0x4000_0000 % 2 == 0,
        r is Err <==> reg.cap as int / 0x4000_0000 % 2 == 1 && reg.mcq_cap % 256 == 0,
        r matches Ok(UfsTransferConfig::Mcq(c)) ==> {
            &&& c.total_queues == c.interrupt_queues + 1
            &&& c.interrupt_queues == reg.mcq_cap % 256 || c.interrupt_queues == nr_cpu_ids
                || c.interrupt_queues == 1
            &&& c.interrupt_queues <= reg.mcq_cap % 256
            &&& c.max_active_commands == reg.cap % 256 + 1
            &&& config == c ==> (polled <==> queue == c.interrupt_queues)
        },
{
    law_config_follows_capabilities(reg, nr_cpu_ids);
}

} // verus!
