//! Setting up the multi-circular queues.

use vstd::prelude::*;

use crate::error::Error;
use crate::hci::{CqEntry, Utrd};
use crate::mcq::{McqView, UfsMcqQueue, MCQ_MAX_ENTRIES};
use crate::reg::{
    self, RegOp, UfsMcqOprRegion, UfsMcqOprSet, UfsReg, MCQ_CQIS_TAIL_ENT_PUSH_STS, REG_MCQ_CQDAO,
    REG_MCQ_CQIE, REG_MCQ_CQISAO, REG_MCQ_CQLBA, REG_MCQ_CQUBA, REG_MCQ_SQDAO, REG_MCQ_SQISAO,
    REG_MCQ_SQLBA, REG_MCQ_SQUBA,
};
use crate::transfer::McqConfig;

verus! {

/// Where a queue pair's memory lies.
#[derive(Clone, Copy, Debug, PartialEq, Eq, Structural)]
pub struct QueueMemory {
    pub sqe_addr: u64,
    pub cqe_addr: u64,
}

/// Every queue of a set is well formed and stands at its own number.
pub open spec fn queue_set(queues: Seq<UfsMcqQueue>) -> bool {
    forall|i: int|
        0 <= i < queues.len() ==> (#[trigger] queues[i]).wf() && queues[i]@.id == i
}

/// An empty queue pair: both rings are blank and stand at their first slot.
pub open spec fn blank_queue(
    ring_entries: usize,
    oprs: UfsMcqOprSet,
    id: int,
    memory: QueueMemory,
) -> McqView {
    McqView {
        id: id as u32,
        max_entries: ring_entries as nat,
        sqe: Seq::new(ring_entries as nat, |i: int| Utrd::blank()),
        cqe: Seq::new(ring_entries as nat, |i: int| CqEntry::blank()),
        sq_tail: 0,
        cq_tail: 0,
        cq_head: 0,
        oprs,
        sqe_addr: memory.sqe_addr,
        cqe_addr: memory.cqe_addr,
    }
}

/// Empty queue pairs for a configuration, in this memory.
pub fn new_queues(config: &McqConfig, oprs: UfsMcqOprSet, memory: &Vec<QueueMemory>) -> (r: Result<
    Vec<UfsMcqQueue>,
    Error,
>)
    requires
        memory.len() == config.total_queues,
        config.total_queues <= u32::MAX,
        config.ring_entries <= MCQ_MAX_ENTRIES,
        forall|id: usize| id < config.total_queues ==> #[trigger] oprs.addressable(id),
    ensures
        match r {
            Ok(queues) => {
                &&& config.ring_entries > 0 || config.total_queues == 0
                &&& queues.len() == config.total_queues
                &&& queue_set(queues@)
                &&& forall|i: int|
                    0 <= i < queues.len() ==> (#[trigger] queues@[i])@ == blank_queue(
                        config.ring_entries,
                        oprs,
                        i,
                        memory@[i],
                    )
            },
            Err(e) => config.ring_entries == 0 && config.total_queues > 0 && e == Error::EINVAL,
        },
{
    let ring_entries = match u32::try_from(config.ring_entries) {
        Ok(ring_entries) => ring_entries,
        Err(_) => return Err(Error::EOVERFLOW),
    };
    let mut queues: Vec<UfsMcqQueue> = Vec::new();
    for id in 0..config.total_queues
        invariant
            memory.len() == config.total_queues,
            config.total_queues <= u32::MAX,
            config.ring_entries <= MCQ_MAX_ENTRIES,
            ring_entries == config.ring_entries,
            id > 0 ==> ring_entries > 0,
            forall|id: usize| id < config.total_queues ==> #[trigger] oprs.addressable(id),
            queues.len() == id,
            queue_set(queues@),
            forall|i: int|
                0 <= i < queues.len() ==> (#[trigger] queues@[i])@ == blank_queue(
                    config.ring_entries,
                    oprs,
                    i,
                    memory@[i],
                ),
    {
        let queue_id = match u32::try_from(id) {
            Ok(queue_id) => queue_id,
            Err(_) => return Err(Error::EOVERFLOW),
        };
        assert(oprs.addressable(id));
        match UfsMcqQueue::new(
            queue_id,
            ring_entries,
            oprs,
            memory[id].sqe_addr,
            memory[id].cqe_addr,
        ) {
            Ok(queue) => queues.push(queue),
            Err(e) => return Err(e),
        }
    }
    Ok(queues)
}

/// The write of a region's offset into a queue's configuration block.
pub open spec fn region_write(
    reg: UfsReg,
    q: McqView,
    cfg_reg: usize,
    region: UfsMcqOprRegion,
) -> RegOp {
    RegOp::Write {
        offset: reg.cfg_place(q.id as usize, cfg_reg) as usize,
        value: (q.oprs.place(region, q.id as usize, 0) % 0x1_0000_0000) as u32,
    }
}

/// What sets a queue pair up: the addresses of both queues, the places of their
/// operation regions, the interrupt if the queue is to raise one, and at last
/// the completion queue and the submission queue are enabled.
pub open spec fn setup_ops(reg: UfsReg, queue: UfsMcqQueue, interrupt: bool) -> Seq<RegOp> {
    let q = queue@;
    let id = q.id as usize;
    reg.addr_writes(id, REG_MCQ_SQLBA, REG_MCQ_SQUBA, queue.sqe_address()) + seq![
        region_write(reg, q, REG_MCQ_SQDAO, UfsMcqOprRegion::Sqd),
        region_write(reg, q, REG_MCQ_SQISAO, UfsMcqOprRegion::Sqis),
    ] + reg.addr_writes(id, REG_MCQ_CQLBA, REG_MCQ_CQUBA, queue.cqe_address()) + seq![
        region_write(reg, q, REG_MCQ_CQDAO, UfsMcqOprRegion::Cqd),
        region_write(reg, q, REG_MCQ_CQISAO, UfsMcqOprRegion::Cqis),
    ] + if interrupt {
        seq![
            RegOp::Write {
                offset: q.oprs.place(UfsMcqOprRegion::Cqis, id, REG_MCQ_CQIE) as usize,
                value: MCQ_CQIS_TAIL_ENT_PUSH_STS,
            },
        ]
    } else {
        Seq::empty()
    } + seq![
        reg.cq_enable(id, q.max_entries as usize)->Ok_0,
        reg.sq_enable(id, q.max_entries as usize, id)->Ok_0,
    ]
}

/// What sets the first `n` queue pairs up, one after the other.
pub open spec fn all_setup_ops(
    reg: UfsReg,
    queues: Seq<UfsMcqQueue>,
    interrupt_queues: usize,
    n: nat,
) -> Seq<RegOp>
    decreases n,
{
    if n == 0 {
        Seq::empty()
    } else {
        all_setup_ops(reg, queues, interrupt_queues, (n - 1) as nat) + setup_ops(
            reg,
            queues[n - 1],
            n - 1 < interrupt_queues,
        )
    }
}

/// Sets one queue pair up. Its positions start over.
fn configure_queue(queue: &mut UfsMcqQueue, reg: &UfsReg, interrupt: bool) -> (r: Result<
    Vec<RegOp>,
    Error,
>)
    requires
        old(queue).wf(),
        reg.cfg_place(old(queue)@.id as usize, REG_MCQ_CQISAO) <= usize::MAX,
    ensures
        final(queue).wf(),
        final(queue)@ == (McqView { sq_tail: 0, cq_tail: 0, cq_head: 0, ..old(queue)@ }),
        r matches Ok(ops) && ops@ == setup_ops(*reg, *old(queue), interrupt),
{
    let id = queue.id() as usize;
    let oprs = queue.oprs();
    let entries = queue.max_entries() as usize;
    let mut ops = reg.set_mcq_sq_base_addr(id, queue.sqe_dma_addr());
    let sqd = oprs.mcq_opr_offset(UfsMcqOprRegion::Sqd, id, 0);
    ops.push(
        reg.write_mcq_queue_cfg(id, REG_MCQ_SQDAO, (sqd as u64 % 0x1_0000_0000) as u32),
    );
    let sqis = oprs.mcq_opr_offset(UfsMcqOprRegion::Sqis, id, 0);
    ops.push(
        reg.write_mcq_queue_cfg(id, REG_MCQ_SQISAO, (sqis as u64 % 0x1_0000_0000) as u32),
    );
    let mut cq = reg.set_mcq_cq_base_addr(id, queue.cqe_dma_addr());
    ops.append(&mut cq);
    let cqd = oprs.mcq_opr_offset(UfsMcqOprRegion::Cqd, id, 0);
    ops.push(
        reg.write_mcq_queue_cfg(id, REG_MCQ_CQDAO, (cqd as u64 % 0x1_0000_0000) as u32),
    );
    let cqis = oprs.mcq_opr_offset(UfsMcqOprRegion::Cqis, id, 0);
    ops.push(
        reg.write_mcq_queue_cfg(id, REG_MCQ_CQISAO, (cqis as u64 % 0x1_0000_0000) as u32),
    );
    queue.reset_slots();
    if interrupt {
        ops.push(oprs.enable_mcq_cq_tail_push_intr(id));
    }
    match reg.enable_mcq_cq(id, entries) {
        Ok(op) => ops.push(op),
        Err(e) => return Err(e),
    }
    match reg.enable_mcq_sq(id, entries, id) {
        Ok(op) => ops.push(op),
        Err(e) => return Err(e),
    }
    assert(ops@ =~= setup_ops(*reg, *old(queue), interrupt));
    Ok(ops)
}

/// The queue pairs after they were set up: as before, but both rings stand at
/// their first slot.
pub open spec fn rewound(before: Seq<UfsMcqQueue>, after: Seq<UfsMcqQueue>) -> bool {
    &&& after.len() == before.len()
    &&& forall|i: int|
        0 <= i < before.len() ==> (#[trigger] after[i])@ == (McqView {
            sq_tail: 0,
            cq_tail: 0,
            cq_head: 0,
            ..before[i]@
        })
}

/// Sets all queue pairs up. The first `interrupt_queues` of them raise
/// interrupts.
pub fn configure_registers_with_interrupt_queues(
    queues: &mut Vec<UfsMcqQueue>,
    reg: &UfsReg,
    interrupt_queues: usize,
) -> (r: Result<Vec<RegOp>, Error>)
    requires
        queue_set(old(queues)@),
        forall|id: usize|
            id < old(queues).len() ==> #[trigger] reg.cfg_place(id, REG_MCQ_CQISAO) <= usize::MAX,
    ensures
        if interrupt_queues > old(queues).len() {
            r == Err::<Vec<RegOp>, Error>(Error::EINVAL) && final(queues)@ == old(queues)@
        } else {
            &&& r matches Ok(ops) && ops@ == all_setup_ops(
                *reg,
                old(queues)@,
                interrupt_queues,
                old(queues).len() as nat,
            )
            &&& queue_set(final(queues)@)
            &&& rewound(old(queues)@, final(queues)@)
        },
{
    if interrupt_queues > queues.len() {
        return Err(Error::EINVAL);
    }
    let mut ops: Vec<RegOp> = Vec::new();
    let count = queues.len();
    for i in 0..count
        invariant
            count == old(queues).len(),
            queues.len() == count,
            queue_set(old(queues)@),
            queue_set(queues@),
            forall|id: usize|
                id < count ==> #[trigger] reg.cfg_place(id, REG_MCQ_CQISAO) <= usize::MAX,
            ops@ == all_setup_ops(*reg, old(queues)@, interrupt_queues, i as nat),
            forall|j: int| i <= j < count ==> #[trigger] queues@[j] == old(queues)@[j],
            forall|j: int|
                0 <= j < i ==> (#[trigger] queues@[j])@ == (McqView {
                    sq_tail: 0,
                    cq_tail: 0,
                    cq_head: 0,
                    ..old(queues)@[j]@
                }),
    {
        assert(queues@[i as int] == old(queues)@[i as int]);
        assert(reg.cfg_place(i, REG_MCQ_CQISAO) <= usize::MAX);
        let queue = &mut queues[i];
        match configure_queue(queue, reg, i < interrupt_queues) {
            Ok(mut queue_ops) => ops.append(&mut queue_ops),
            Err(e) => return Err(e),
        }
    }
    Ok(ops)
}

/// Why multi-circular queues cannot be activated, if they cannot.
pub open spec fn activation_error(queues: nat, config: McqConfig) -> Option<Error> {
    if config.interrupt_queues > queues {
        Some(Error::EINVAL)
    } else if config.max_active_commands == 0 {
        Some(Error::EINVAL)
    } else if config.max_active_commands > reg::MCQ_MAX_ACTIVE_CMDS {
        Some(Error::EOVERFLOW)
    } else {
        None
    }
}

/// What activating multi-circular queues came to.
pub struct Activation {
    /// The register operations, which are due whatever the outcome is.
    pub ops: Vec<RegOp>,
    /// Whether the queues are active once the operations are done.
    pub outcome: Result<(), Error>,
}

/// What switches multi-circular queues on once every queue pair is set up.
pub open spec fn switch_on_ops(config: McqConfig) -> Seq<RegOp> {
    seq![
        RegOp::Replace {
            offset: reg::UFS_MCQ_CFG,
            mask: reg::MCQ_CFG_MAX_ACTIVE_CMDS_MASK,
            bits: ((config.max_active_commands - 1) as u32) << 8,
        },
        RegOp::SetBits { offset: reg::UFS_MEM_CFG, bits: reg::MEM_CFG_MCQ_MODE_SELECT },
        RegOp::SetBits { offset: reg::INTERRUPT_ENABLE, bits: reg::MCQ_CQ_EVENT_STATUS },
    ]
}

/// Activates multi-circular queues: every queue pair is set up, the number of
/// active commands is limited, and then the queue mode and its interrupts are
/// switched on. When the number of active commands cannot be limited, the queue
/// pairs are set up nevertheless.
pub fn activate(
    queues: &mut Vec<UfsMcqQueue>,
    reg: &UfsReg,
    config: &McqConfig,
) -> (r: Activation)
    requires
        queue_set(old(queues)@),
        forall|id: usize|
            id < old(queues).len() ==> #[trigger] reg.cfg_place(id, REG_MCQ_CQISAO) <= usize::MAX,
    ensures
        queue_set(final(queues)@),
        r.outcome == (match activation_error(old(queues).len() as nat, *config) {
            Some(e) => Err::<(), Error>(e),
            None => Ok(()),
        }),
        if config.interrupt_queues > old(queues).len() {
            r.ops@ == Seq::<RegOp>::empty() && final(queues)@ == old(queues)@
        } else {
            &&& r.ops@ == all_setup_ops(
                *reg,
                old(queues)@,
                config.interrupt_queues,
                old(queues).len() as nat,
            ) + (if r.outcome is Ok {
                switch_on_ops(*config)
            } else {
                Seq::empty()
            })
            &&& rewound(old(queues)@, final(queues)@)
        },
{
    let mut ops = match configure_registers_with_interrupt_queues(
        queues,
        reg,
        config.interrupt_queues,
    ) {
        Ok(ops) => ops,
        Err(e) => return Activation { ops: Vec::new(), outcome: Err(e) },
    };
    let ghost setup = ops@;
    assert(setup + Seq::<RegOp>::empty() =~= setup);
    let depth = match u32::try_from(config.max_active_commands) {
        Ok(depth) => depth,
        Err(_) => return Activation { ops, outcome: Err(Error::EOVERFLOW) },
    };
    match reg::config_mcq_max_active_cmds(depth) {
        Ok(op) => ops.push(op),
        Err(e) => return Activation { ops, outcome: Err(e) },
    }
    ops.push(reg::enable_mcq_mode());
    ops.push(reg::enable_mcq_interrupts());
    assert(ops@ =~= setup + switch_on_ops(*config));
    Activation { ops, outcome: Ok(()) }
}

/// The operation writes this value at this offset.
pub open spec fn writes(op: RegOp, offset: int, value: int) -> bool {
    op matches RegOp::Write { offset: o, value: v } && o == offset && v == value
}

/// Setting a queue pair up tells the controller where the driver will move it on.
/// The offset that is written for the doorbell of the submission queue is the one
/// at which, 4 bytes on, its tail is written later, and the one for the doorbell
/// of the completion queue is the one at which its head is written later; where
/// the queue raises interrupts, they are enabled 4 bytes into the interrupt region
/// that is written. The addresses are those of the queue's memory. Offsets are
/// written modulo 2^32.
pub proof fn law_setup_points_at_doorbells(reg: UfsReg, queue: UfsMcqQueue, interrupt: bool)
    requires
        queue.wf(),
        reg.cfg_place(queue@.id as usize, REG_MCQ_CQISAO) <= usize::MAX,
    ensures
        ({
            let q = queue@;
            let ops = setup_ops(reg, queue, interrupt);
            let block = reg.mcq_cap as int / 0x1_0000 % 256 * 0x200 + 0x40 * q.id;
            let tail = queue.sq_tail_write()->Write_offset;
            let head = queue.cq_head_write()->Write_offset;
            let sq_events = q.oprs.sqis.offset + q.oprs.sqis.stride * q.id;
            let cq_events = q.oprs.cqis.offset + q.oprs.cqis.stride * q.id;
            &&& ops.len() == if interrupt {
                11int
            } else {
                10
            }
            &&& writes(ops[0], block + 0x04, q.sqe_addr as int % 0x1_0000_0000)
            &&& writes(ops[1], block + 0x08, q.sqe_addr as int / 0x1_0000_0000)
            &&& writes(ops[2], block + 0x0c, (tail - 4) % 0x1_0000_0000)
            &&& writes(ops[3], block + 0x10, sq_events % 0x1_0000_0000)
            &&& writes(ops[4], block + 0x24, q.cqe_addr as int % 0x1_0000_0000)
            &&& writes(ops[5], block + 0x28, q.cqe_addr as int / 0x1_0000_0000)
            &&& writes(ops[6], block + 0x2c, head as int % 0x1_0000_0000)
            &&& writes(ops[7], block + 0x30, cq_events % 0x1_0000_0000)
            &&& interrupt ==> writes(ops[8], cq_events + 4, 1)
            &&& tail - 4 == q.oprs.sqd.offset + q.oprs.sqd.stride * q.id
            &&& head == q.oprs.cqd.offset + q.oprs.cqd.stride * q.id
        }),
{
    let q = queue@;
    let id = q.id as usize;
    crate::mcq::law_doorbell_writes(queue);
    assert(q.oprs.addressable(id));
    assert(0 <= q.oprs.sqis.stride * id) by (nonlinear_arith)
        requires
            0 <= q.oprs.sqis.stride,
            0 <= id,
    ;
    assert(0 <= q.oprs.cqis.stride * id) by (nonlinear_arith)
        requires
            0 <= q.oprs.cqis.stride,
            0 <= id,
    ;
}

/// With regions that 32 bits can name, the registers that setting a queue pair up
/// names and those that move the queue pair on later are the same: the doorbell
/// offset and 4 is where the tail is written, the other one where the head is.
pub proof fn law_doorbells_are_where_they_are_rung(
    reg: UfsReg,
    queue: UfsMcqQueue,
    interrupt: bool,
)
    requires
        queue.wf(),
        reg.cfg_place(queue@.id as usize, REG_MCQ_CQISAO) <= usize::MAX,
        queue.sq_tail_write()->Write_offset < 0x1_0000_0000,
        queue.cq_head_write()->Write_offset < 0x1_0000_0000,
    ensures
        ({
            let ops = setup_ops(reg, queue, interrupt);
            &&& ops[2]->Write_value + reg::REG_MCQ_SQTP == queue.sq_tail_write()->Write_offset
            &&& ops[6]->Write_value + reg::REG_MCQ_CQHP == queue.cq_head_write()->Write_offset
        }),
{
    law_setup_points_at_doorbells(reg, queue, interrupt);
    crate::mcq::law_doorbell_writes(queue);
    let q = queue@;
    let id = q.id as usize;
    assert(0 <= q.oprs.sqd.stride * id) by (nonlinear_arith)
        requires
            0 <= q.oprs.sqd.stride,
            0 <= id,
    ;
}

/// The last operations that set a queue pair up enable it, the completion queue
/// first: the top bit is set, the submission queue names its completion queue
/// from bit 16 on, and the low bits hold the size of the ring in double words,
/// less one.
pub proof fn law_setup_enables_last(reg: UfsReg, queue: UfsMcqQueue, interrupt: bool)
    requires
        queue.wf(),
        reg.cfg_place(queue@.id as usize, REG_MCQ_CQISAO) <= usize::MAX,
        queue@.id < 0x8000,
        queue@.max_entries <= 0x2000,
    ensures
        ({
            let q = queue@;
            let ops = setup_ops(reg, queue, interrupt);
            let block = reg.mcq_cap as int / 0x1_0000 % 256 * 0x200 + 0x40 * q.id;
            let size = q.max_entries * 8 - 1;
            &&& writes(ops[ops.len() - 2], block + 0x20, 0x8000_0000 + size)
            &&& writes(ops[ops.len() - 1], block, 0x8000_0000 + q.id * 0x1_0000 + size)
        }),
{
    let q = queue@;
    let size = (q.max_entries * 8 - 1) as u32;
    let id = q.id;
    assert(size < 0x1_0000 ==> 0x8000_0000u32 | size == 0x8000_0000 + size) by (bit_vector);
    assert(size < 0x1_0000 && id < 0x8000 ==> (0x8000_0000u32 | size) | (id << 16) == 0x8000_0000
        + id * 0x1_0000 + size) by (bit_vector);
}

/// All queue pairs are set up, one behind the other and each in full: ten
/// operations for each, and one more for each that raises interrupts.
pub proof fn law_every_queue_is_set_up(
    reg: UfsReg,
    queues: Seq<UfsMcqQueue>,
    interrupt_queues: usize,
    n: nat,
    i: int,
)
    requires
        n <= queues.len(),
        0 <= i < n,
    ensures
        ({
            let raising = if i < interrupt_queues {
                i
            } else {
                interrupt_queues as int
            };
            let start = 10 * i + raising;
            let ops = setup_ops(reg, queues[i], i < interrupt_queues);
            let all = all_setup_ops(reg, queues, interrupt_queues, n);
            &&& start + ops.len() <= all.len()
            &&& all.subrange(start, start + ops.len()) == ops
        }),
    decreases n,
{
    let before = all_setup_ops(reg, queues, interrupt_queues, (n - 1) as nat);
    let all = all_setup_ops(reg, queues, interrupt_queues, n);
    let ops = setup_ops(reg, queues[i], i < interrupt_queues);
    lemma_setup_len(reg, queues, interrupt_queues, (n - 1) as nat);
    if i < n - 1 {
        law_every_queue_is_set_up(reg, queues, interrupt_queues, (n - 1) as nat, i);
        let raising = if i < interrupt_queues {
            i
        } else {
            interrupt_queues as int
        };
        let start = 10 * i + raising;
        assert(all.subrange(start, start + ops.len()) =~= before.subrange(start, start + ops.len()));
    } else {
        assert(all.subrange(before.len() as int, (before.len() + ops.len()) as int) =~= ops);
    }
}

/// Number of operations that set the first `n` queue pairs up.
proof fn lemma_setup_len(
    reg: UfsReg,
    queues: Seq<UfsMcqQueue>,
    interrupt_queues: usize,
    n: nat,
)
    ensures
        all_setup_ops(reg, queues, interrupt_queues, n).len() == 10 * n + if n < interrupt_queues {
            n as int
        } else {
            interrupt_queues as int
        },
    decreases n,
{
    if n > 0 {
        lemma_setup_len(reg, queues, interrupt_queues, (n - 1) as nat);
    }
}

/// Multi-circular queues are switched on in this order: the number of active
/// commands is limited, then the queue mode is selected, then the queues may
/// raise interrupts.
pub proof fn law_switch_on_order(config: McqConfig, cfg: u32)
    requires
        0 < config.max_active_commands <= 512,
    ensures
        ({
            let ops = switch_on_ops(config);
            &&& ops.len() == 3
            &&& ops[0] matches RegOp::Replace { offset, .. } && offset == 0x380
            &&& reg::written(ops[0], cfg) matches Some(v) && (v / 256) % 512
                == config.max_active_commands - 1
            &&& ops[1] == (RegOp::SetBits { offset: 0x300, bits: 1 })
            &&& ops[2] == (RegOp::SetBits { offset: 0x24, bits: 0x10_0000 })
        }),
{
    reg::law_max_active_cmds_field(cfg, config.max_active_commands as u32);
}

/// Why multi-circular queues cannot be activated: more queues are to raise
/// interrupts than there are, or the number of active commands is 0 or above 512.
pub proof fn law_what_keeps_activation(queues: nat, config: McqConfig)
    ensures
        activation_error(queues, config) is None <==> config.interrupt_queues <= queues && 1
            <= config.max_active_commands <= 512,
        config.interrupt_queues > queues || config.max_active_commands == 0 ==> activation_error(
            queues,
            config,
        ) == Some(Error::EINVAL),
        config.interrupt_queues <= queues && config.max_active_commands > 512 ==> activation_error(
            queues,
            config,
        ) == Some(Error::EOVERFLOW),
{
}

/// A new queue pair is empty, stands at its first slots, has its own number and
/// memory, and has blank entries only.
pub proof fn law_new_queue_is_blank(
    ring_entries: usize,
    oprs: UfsMcqOprSet,
    id: int,
    memory: QueueMemory,
    slot: int,
)
    requires
        0 <= id <= u32::MAX,
        0 <= slot < ring_entries,
    ensures
        ({
            let q = blank_queue(ring_entries, oprs, id, memory);
            &&& q.id == id
            &&& q.max_entries == ring_entries
            &&& q.sqe.len() == ring_entries
            &&& q.cqe.len() == ring_entries
            &&& q.sqe[slot].bytes() == crate::endian::zeros(32)
            &&& q.cqe[slot].command_desc_base_addr == 0
            &&& q.sq_tail == 0 && q.cq_tail == 0 && q.cq_head == 0
            &&& q.oprs == oprs
            &&& q.sqe_addr == memory.sqe_addr
            &&& q.cqe_addr == memory.cqe_addr
        }),
{
    crate::hci::law_command_in_descriptor(
        crate::hci::UcdView::blank(),
        crate::query::UfsCmd::Device(crate::query::UfsDevCmd::Nop),
        0,
        0,
    );
}

/// Queue pairs that were set up are empty and otherwise as they were: number,
/// memory, registers and entries.
pub proof fn law_setup_only_rewinds(
    before: Seq<UfsMcqQueue>,
    after: Seq<UfsMcqQueue>,
    i: int,
)
    requires
        rewound(before, after),
        0 <= i < before.len(),
    ensures
        after.len() == before.len(),
        after[i]@.sq_tail == 0,
        after[i]@.cq_tail == 0,
        after[i]@.cq_head == 0,
        after[i]@.id == before[i]@.id,
        after[i]@.max_entries == before[i]@.max_entries,
        after[i]@.sqe == before[i]@.sqe,
        after[i]@.cqe == before[i]@.cqe,
        after[i]@.oprs == before[i]@.oprs,
        after[i]@.sqe_addr == before[i]@.sqe_addr,
        after[i]@.cqe_addr == before[i]@.cqe_addr,
{
}

/// Setting queue pairs up writes, as the doorbell offset of each submission queue,
/// the place of the write that later moves its tail, less 4, and as the one of each
/// completion queue the place of the write that later moves its head; an interrupt
/// is enabled 4 bytes into the region that is written for it, for the first queues
/// and for no other. The positions start over.
pub proof fn law_configured_doorbells(
    queues: &mut Vec<UfsMcqQueue>,
    reg: UfsReg,
    interrupt_queues: usize,
    r: Result<Vec<RegOp>, Error>,
    i: int,
    head: RegOp,
)
    requires
        queue_set(old(queues)@),
        0 <= i < old(queues)@.len(),
        reg.cfg_place(old(queues)@[i]@.id as usize, REG_MCQ_CQISAO) <= usize::MAX,
        call_ensures(
            configure_registers_with_interrupt_queues,
            (queues, &reg, interrupt_queues),
            r,
        ),
        call_ensures(UfsMcqQueue::commit_head, (&final(queues)@[i],), head),
    ensures
        r is Ok <==> interrupt_queues <= old(queues)@.len(),
        r matches Ok(ops) ==> {
            let q = old(queues)@[i]@;
            let after = final(queues)@[i];
            let block = reg.mcq_cap as int / 0x1_0000 % 256 * 0x200 + 0x40 * i;
            let tail = after.sq_tail_write()->Write_offset;
            let start = 10 * i + if i < interrupt_queues {
                i
            } else {
                interrupt_queues as int
            };
            &&& writes(ops@[start + 2], block + 0x0c, (tail - 4) % 0x1_0000_0000)
            &&& head matches RegOp::Write { offset, value } && {
                &&& writes(ops@[start + 6], block + 0x2c, offset as int % 0x1_0000_0000)
                &&& value == 0
            }
            &&& i < interrupt_queues ==> (ops@[start + 8] matches RegOp::Write { offset, value } && {
                &&& writes(ops@[start + 7], block + 0x30, (offset - 4) % 0x1_0000_0000)
                &&& value == 1
            })
            &&& after@.sq_tail == 0
            &&& after@.cq_head == 0
            &&& after@.cq_tail == 0
            &&& after@.id == i
        },
{
    if let Ok(ops) = r {
        let before = old(queues)@;
        let n = before.len();
        let queue = before[i];
        let all = all_setup_ops(reg, before, interrupt_queues, n);
        let own = setup_ops(reg, queue, i < interrupt_queues);
        let start = 10 * i + if i < interrupt_queues {
            i
        } else {
            interrupt_queues as int
        };
        law_setup_points_at_doorbells(reg, queue, i < interrupt_queues);
        law_every_queue_is_set_up(reg, before, interrupt_queues, n, i);
        assert(final(queues)@[i].wf());
        crate::mcq::law_doorbell_writes(queue);
        crate::mcq::law_doorbell_writes(final(queues)@[i]);
        assert forall|k: int| 0 <= k < own.len() implies #[trigger] own[k] == ops@[start + k] by {
            assert(all.subrange(start, start + own.len())[k] == all[start + k]);
        }
        assert(own[2] == ops@[start + 2] && own[6] == ops@[start + 6] && own[7] == ops@[start + 7]);
        if i < interrupt_queues {
            assert(own[8] == ops@[start + 8]);
        }
    }
}

/// Queue pairs are numbered in order, each in its own memory, all of the same size and
/// empty.
pub proof fn law_new_queues_are_numbered(
    config: McqConfig,
    oprs: UfsMcqOprSet,
    memory: Vec<QueueMemory>,
    r: Result<Vec<UfsMcqQueue>, Error>,
    i: int,
)
    requires
        config.total_queues <= u32::MAX,
        call_ensures(new_queues, (&config, oprs, &memory), r),
    ensures
        r is Err <==> config.ring_entries == 0 && config.total_queues > 0,
        r matches Ok(queues) ==> queues.len() == config.total_queues && (0 <= i < queues.len() ==> {
            let q = queues@[i]@;
            &&& q.id == i
            &&& q.max_entries == config.ring_entries
            &&& q.sqe_addr == memory@[i].sqe_addr && q.cqe_addr == memory@[i].cqe_addr
            &&& q.sq_tail == 0 && q.cq_tail == 0 && q.cq_head == 0
            &&& q.oprs == oprs
        }),
{
}

/// Activation sets every queue pair up in turn and only then switches the controller
/// over; it goes through exactly when nothing keeps it.
pub proof fn law_activation_sets_up_then_switches(
    queues: &mut Vec<UfsMcqQueue>,
    reg: UfsReg,
    config: McqConfig,
    r: Activation,
    i: int,
)
    requires
        call_ensures(activate, (queues, &reg, &config), r),
        config.interrupt_queues <= old(queues).len(),
        0 <= i < old(queues).len(),
    ensures
        ({
            let raising = if i < config.interrupt_queues {
                i
            } else {
                config.interrupt_queues as int
            };
            let start = 10 * i + raising;
            let ops = setup_ops(reg, old(queues)@[i], i < config.interrupt_queues);
            &&& start + ops.len() <= r.ops@.len()
            &&& r.ops@.subrange(start, start + ops.len()) == ops
            &&& r.outcome is Ok <==> activation_error(old(queues).len() as nat, config) is None
            &&& r.outcome is Ok ==> r.ops@.subrange(
                r.ops@.len() - switch_on_ops(config).len(),
                r.ops@.len() as int,
            ) == switch_on_ops(config)
        }),
{
    let n = old(queues).len() as nat;
    law_every_queue_is_set_up(reg, old(queues)@, config.interrupt_queues, n, i);
    let all = all_setup_ops(reg, old(queues)@, config.interrupt_queues, n);
    let raising = if i < config.interrupt_queues {
        i
    } else {
        config.interrupt_queues as int
    };
    let start = 10 * i + raising;
    let ops = setup_ops(reg, old(queues)@[i], i < config.interrupt_queues);
    assert(r.ops@.subrange(start, start + ops.len()) =~= all.subrange(start, start + ops.len()));
    if r.outcome is Ok {
        assert(r.ops@.subrange(
            r.ops@.len() - switch_on_ops(config).len(),
            r.ops@.len() as int,
        ) =~= switch_on_ops(config));
    }
}

} // verus!
