//! A pair of circular queues: submissions to the controller, completions from it.

use vstd::prelude::*;

use crate::error::Error;
use crate::hci::{CqEntry, SqEntry, Utrd, CQ_ENTRY_SIZE, UTRD_SIZE};
use crate::reg::{RegOp, UfsMcqOprRegion, UfsMcqOprSet, REG_MCQ_CQHP, REG_MCQ_CQIS, REG_MCQ_SQTP};

verus! {

/// Largest number of entries whose byte offsets fit in a register.
pub const MCQ_MAX_ENTRIES: u32 = 0x07ff_ffff;

/// The slot after `slot` in a ring of `n` slots.
pub open spec fn next_slot(slot: nat, n: nat) -> nat {
    if slot + 1 == n {
        0
    } else {
        slot + 1
    }
}

/// Number of entries between head and tail of a ring of `n` slots.
pub open spec fn ring_len(head: nat, tail: nat, n: nat) -> nat {
    if head <= tail {
        (tail - head) as nat
    } else {
        (n + tail - head) as nat
    }
}

/// The slot that comes `i` slots after `head` in a ring of `n` slots.
pub open spec fn slot_after(head: nat, i: nat, n: nat) -> nat {
    if head + i < n {
        head + i
    } else {
        (head + i - n) as nat
    }
}

/// The slot at a byte offset.
pub open spec fn slot_at(offset: u32, entry_size: u32, max_entries: u32) -> Result<u32, Error> {
    if offset % entry_size != 0 || offset / entry_size >= max_entries {
        Err(Error::EINVAL)
    } else {
        Ok((offset / entry_size) as u32)
    }
}

/// Contents, positions and places of a queue pair.
#[verifier::ext_equal]
pub struct McqView {
    pub id: u32,
    pub max_entries: nat,
    pub sqe: Seq<SqEntry>,
    pub cqe: Seq<CqEntry>,
    pub sq_tail: nat,
    pub cq_tail: nat,
    pub cq_head: nat,
    pub oprs: UfsMcqOprSet,
    pub sqe_addr: u64,
    pub cqe_addr: u64,
}

impl McqView {
    /// The positions are slots and the queue's registers can be addressed.
    pub open spec fn valid(self) -> bool {
        &&& 0 < self.max_entries <= MCQ_MAX_ENTRIES
        &&& self.sqe.len() == self.max_entries
        &&& self.cqe.len() == self.max_entries
        &&& self.sq_tail < self.max_entries
        &&& self.cq_tail < self.max_entries
        &&& self.cq_head < self.max_entries
        &&& self.oprs.addressable(self.id as usize)
    }

    /// With an entry added to the submission queue.
    pub open spec fn submitted(self, entry: SqEntry) -> Self {
        McqView {
            sqe: self.sqe.update(self.sq_tail as int, entry),
            sq_tail: next_slot(self.sq_tail, self.max_entries),
            ..self
        }
    }

    /// The completion in a slot, if the slot holds one.
    pub open spec fn entry(self, slot: nat) -> Option<CqEntry> {
        let cqe = self.cqe[slot as int];
        if cqe.command_desc_base_addr == 0 {
            None
        } else {
            Some(cqe)
        }
    }

    /// The oldest completion, if its slot holds one.
    pub open spec fn oldest(self) -> Option<CqEntry> {
        self.entry(self.cq_head)
    }

    /// With the oldest entry taken out of the completion queue.
    pub open spec fn consumed(self) -> Self {
        McqView {
            cqe: self.cqe.update(self.cq_head as int, CqEntry::blank()),
            cq_head: next_slot(self.cq_head, self.max_entries),
            ..self
        }
    }
}

/// A submission queue with its completion queue.
///
/// The entries are the driver's image of the memory that it shares with the
/// controller.
pub struct UfsMcqQueue {
    id: u32,
    max_entries: u32,
    sqe: Vec<SqEntry>,
    cqe: Vec<CqEntry>,
    sqe_addr: u64,
    cqe_addr: u64,
    sq_tail_slot: u32,
    cq_tail_slot: u32,
    cq_head_slot: u32,
    oprs: UfsMcqOprSet,
}

impl View for UfsMcqQueue {
    type V = McqView;

    closed spec fn view(&self) -> McqView {
        McqView {
            id: self.id,
            max_entries: self.max_entries as nat,
            sqe: self.sqe@,
            cqe: self.cqe@,
            sq_tail: self.sq_tail_slot as nat,
            cq_tail: self.cq_tail_slot as nat,
            cq_head: self.cq_head_slot as nat,
            oprs: self.oprs,
            sqe_addr: self.sqe_addr,
            cqe_addr: self.cqe_addr,
        }
    }
}

impl UfsMcqQueue {
    /// The queue's positions are slots.
    pub open spec fn wf(self) -> bool {
        self@.valid()
    }

    /// Address of the submission queue's memory.
    pub open spec fn sqe_address(self) -> u64 {
        self@.sqe_addr
    }

    /// Address of the completion queue's memory.
    pub open spec fn cqe_address(self) -> u64 {
        self@.cqe_addr
    }

    /// An empty queue pair in memory at these addresses.
    pub fn new(id: u32, max_entries: u32, oprs: UfsMcqOprSet, sqe_addr: u64, cqe_addr: u64) -> (r:
        Result<Self, Error>)
        requires
            max_entries <= MCQ_MAX_ENTRIES,
            oprs.addressable(id as usize),
        ensures
            match r {
                Ok(q) => {
                    &&& max_entries > 0
                    &&& q.wf()
                    &&& q@ == (McqView {
                        id,
                        max_entries: max_entries as nat,
                        sqe: Seq::new(max_entries as nat, |i: int| Utrd::blank()),
                        cqe: Seq::new(max_entries as nat, |i: int| CqEntry::blank()),
                        sq_tail: 0,
                        cq_tail: 0,
                        cq_head: 0,
                        oprs,
                        sqe_addr,
                        cqe_addr,
                    })
                },
                Err(e) => max_entries == 0 && e == Error::EINVAL,
            },
    {
        if max_entries == 0 {
            return Err(Error::EINVAL);
        }
        let mut sqe: Vec<SqEntry> = Vec::new();
        let mut cqe: Vec<CqEntry> = Vec::new();
        for i in 0..max_entries
            invariant
                sqe@ == Seq::new(i as nat, |j: int| Utrd::blank()),
                cqe@ == Seq::new(i as nat, |j: int| CqEntry::blank()),
        {
            sqe.push(Utrd::default());
            cqe.push(CqEntry::default());
            assert(sqe@ =~= Seq::new((i + 1) as nat, |j: int| Utrd::blank()));
            assert(cqe@ =~= Seq::new((i + 1) as nat, |j: int| CqEntry::blank()));
        }
        Ok(
            UfsMcqQueue {
                id,
                max_entries,
                sqe,
                cqe,
                sqe_addr,
                cqe_addr,
                sq_tail_slot: 0,
                cq_tail_slot: 0,
                cq_head_slot: 0,
                oprs,
            },
        )
    }

    /// Number of the queue.
    pub fn id(&self) -> (r: u32)
        ensures
            r == self@.id,
    {
        self.id
    }

    /// Number of slots.
    pub fn max_entries(&self) -> (r: u32)
        ensures
            r == self@.max_entries,
    {
        self.max_entries
    }

    /// Address of the submission queue's memory.
    pub fn sqe_dma_addr(&self) -> (r: u64)
        ensures
            r == self.sqe_address(),
    {
        self.sqe_addr
    }

    /// Address of the completion queue's memory.
    pub fn cqe_dma_addr(&self) -> (r: u64)
        ensures
            r == self.cqe_address(),
    {
        self.cqe_addr
    }

    /// Where the next submission goes.
    pub fn sq_tail_slot(&self) -> (r: u32)
        ensures
            r == self@.sq_tail,
    {
        self.sq_tail_slot
    }

    /// Where the next submission goes, as an index.
    pub fn sq_tail_index(&self) -> (r: Result<usize, Error>)
        requires
            self.wf(),
        ensures
            r == Ok::<usize, Error>(self@.sq_tail as usize),
    {
        let index = self.sq_tail_slot as usize;
        if index >= self.max_entries as usize {
            return Err(Error::EINVAL);
        }
        Ok(index)
    }

    /// Byte offset of a submission slot.
    pub fn sq_slot_offset(slot: u32) -> (r: u32)
        requires
            slot <= MCQ_MAX_ENTRIES,
        ensures
            r == slot * 32,
    {
        slot * UTRD_SIZE as u32
    }

    /// Byte offset of a completion slot.
    pub fn cq_slot_offset(slot: u32) -> (r: u32)
        requires
            slot <= MCQ_MAX_ENTRIES,
        ensures
            r == slot * 32,
    {
        slot * CQ_ENTRY_SIZE as u32
    }

    /// The slot at a byte offset.
    pub fn offset_to_slot(offset: u32, entry_size: u32, max_entries: u32) -> (r: Result<u32, Error>)
        requires
            entry_size > 0,
        ensures
            r == slot_at(offset, entry_size, max_entries),
    {
        if offset % entry_size != 0 {
            return Err(Error::EINVAL);
        }
        let slot = offset / entry_size;
        if slot >= max_entries {
            return Err(Error::EINVAL);
        }
        Ok(slot)
    }

    /// The submission slot at a byte offset.
    pub fn sq_offset_to_slot(&self, offset: u32) -> (r: Result<u32, Error>)
        ensures
            r == slot_at(offset, 32, self@.max_entries as u32),
    {
        Self::offset_to_slot(offset, UTRD_SIZE as u32, self.max_entries)
    }

    /// The completion slot at a byte offset.
    pub fn cq_offset_to_slot(&self, offset: u32) -> (r: Result<u32, Error>)
        ensures
            r == slot_at(offset, 32, self@.max_entries as u32),
    {
        Self::offset_to_slot(offset, CQ_ENTRY_SIZE as u32, self.max_entries)
    }

    /// The slot after a slot of either ring.
    pub fn slot_behind(&self, slot: u32) -> (r: u32)
        requires
            self.wf(),
            slot < self@.max_entries,
        ensures
            r == next_slot(slot as nat, self@.max_entries),
            r < self@.max_entries,
    {
        let next = slot + 1;
        if next == self.max_entries {
            0
        } else {
            next
        }
    }

    /// The submission slot after the tail.
    pub fn next_sq_tail_slot(&self) -> (r: u32)
        requires
            self.wf(),
        ensures
            r == next_slot(self@.sq_tail, self@.max_entries),
    {
        self.slot_behind(self.sq_tail_slot)
    }

    /// Whether the submission queue is full, given the head that the controller
    /// reports.
    pub fn sq_is_full(&self, head_offset: u32) -> (r: Result<bool, Error>)
        requires
            self.wf(),
        ensures
            r == (match slot_at(head_offset, 32, self@.max_entries as u32) {
                Ok(head) => Ok::<bool, Error>(
                    next_slot(self@.sq_tail, self@.max_entries) == head,
                ),
                Err(e) => Err(e),
            }),
    {
        match self.sq_offset_to_slot(head_offset) {
            Ok(head) => Ok(self.next_sq_tail_slot() == head),
            Err(e) => Err(e),
        }
    }

    /// Where the controller puts the next completion, as far as is known.
    pub fn cq_tail_slot(&self) -> (r: u32)
        ensures
            r == self@.cq_tail,
    {
        self.cq_tail_slot
    }

    /// Where the next completion is taken from.
    pub fn cq_head_slot(&self) -> (r: u32)
        ensures
            r == self@.cq_head,
    {
        self.cq_head_slot
    }

    /// Takes over the completion tail that the controller reports.
    pub fn update_cq_tail_slot(&mut self, tail_offset: u32) -> (r: Result<(), Error>)
        requires
            old(self).wf(),
        ensures
            final(self).wf(),
            match slot_at(tail_offset, 32, old(self)@.max_entries as u32) {
                Ok(tail) => r == Ok::<(), Error>(()) && final(self)@ == (McqView {
                    cq_tail: tail as nat,
                    ..old(self)@
                }),
                Err(e) => r == Err::<(), Error>(e) && final(self)@ == old(self)@,
            },
    {
        match self.cq_offset_to_slot(tail_offset) {
            Ok(tail) => {
                self.cq_tail_slot = tail;
                Ok(())
            },
            Err(e) => Err(e),
        }
    }

    /// Whether no completion is left.
    pub fn cq_is_empty(&self) -> (r: bool)
        ensures
            r == (self@.cq_head == self@.cq_tail),
    {
        self.cq_head_slot == self.cq_tail_slot
    }

    /// Acknowledges the events that the completion queue reports, if any.
    pub fn acknowledge_cq_events(&self, status: u32) -> (r: Option<RegOp>)
        requires
            self.wf(),
        ensures
            r == (if status != 0 {
                Some(
                    RegOp::Write {
                        offset: self@.oprs.place(
                            UfsMcqOprRegion::Cqis,
                            self@.id as usize,
                            REG_MCQ_CQIS,
                        ) as usize,
                        value: status,
                    },
                )
            } else {
                None
            }),
    {
        if status != 0 {
            Some(self.oprs.write_mcq_cqis(self.id as usize, status))
        } else {
            None
        }
    }

    /// Where the queue's operation regions lie.
    pub fn oprs(&self) -> (r: UfsMcqOprSet)
        ensures
            r == self@.oprs,
    {
        self.oprs
    }

    /// Moves every position to the first slot.
    pub fn reset_slots(&mut self)
        requires
            old(self).wf(),
        ensures
            final(self).wf(),
            final(self)@ == (McqView { sq_tail: 0, cq_tail: 0, cq_head: 0, ..old(self)@ }),
    {
        self.sq_tail_slot = 0;
        self.cq_tail_slot = 0;
        self.cq_head_slot = 0;
    }

    /// Adds an entry to the submission queue. The result is the byte offset of
    /// the new tail.
    pub fn write_sq_entry(&mut self, entry: SqEntry) -> (r: Result<u32, Error>)
        requires
            old(self).wf(),
        ensures
            final(self).wf(),
            final(self)@ == old(self)@.submitted(entry),
            r == Ok::<u32, Error>((final(self)@.sq_tail * 32) as u32),
    {
        let index = match self.sq_tail_index() {
            Ok(index) => index,
            Err(e) => return Err(e),
        };
        self.sqe.set(index, entry);
        self.sq_tail_slot = self.next_sq_tail_slot();
        Ok(Self::sq_slot_offset(self.sq_tail_slot))
    }

    /// The write that tells the controller the submission tail.
    pub open spec fn sq_tail_write(self) -> RegOp {
        RegOp::Write {
            offset: self@.oprs.place(UfsMcqOprRegion::Sqd, self@.id as usize, REG_MCQ_SQTP) as usize,
            value: (self@.sq_tail * 32) as u32,
        }
    }

    /// Takes an entry back that was added to the submission queue but that the
    /// controller was not told of: moves the tail back to where it was.
    pub fn set_sq_tail_slot(&mut self, slot: u32)
        requires
            old(self).wf(),
            slot < old(self)@.max_entries,
        ensures
            final(self).wf(),
            final(self)@ == (McqView { sq_tail: slot as nat, ..old(self)@ }),
    {
        self.sq_tail_slot = slot;
    }

    /// Takes over a completion entry that the controller wrote.
    pub fn load_cq_entry(&mut self, slot: u32, entry: CqEntry) -> (r: Result<(), Error>)
        requires
            old(self).wf(),
        ensures
            final(self).wf(),
            if slot < old(self)@.max_entries {
                r == Ok::<(), Error>(()) && final(self)@ == (McqView {
                    cqe: old(self)@.cqe.update(slot as int, entry),
                    ..old(self)@
                })
            } else {
                r == Err::<(), Error>(Error::ERANGE) && final(self)@ == old(self)@
            },
    {
        if slot >= self.max_entries {
            return Err(Error::ERANGE);
        }
        self.cqe.set(slot as usize, entry);
        Ok(())
    }

    /// The write that tells the controller the completion head.
    pub open spec fn cq_head_write(self) -> RegOp {
        RegOp::Write {
            offset: self@.oprs.place(UfsMcqOprRegion::Cqd, self@.id as usize, REG_MCQ_CQHP) as usize,
            value: (self@.cq_head * 32) as u32,
        }
    }

    /// Tells the controller the completion head.
    pub fn commit_head(&self) -> (r: RegOp)
        requires
            self.wf(),
        ensures
            r == self.cq_head_write(),
    {
        self.oprs.write_mcq_cq_head(self.id as usize, Self::cq_slot_offset(self.cq_head_slot))
    }

    /// Takes the oldest completion and frees its slot. A slot that holds none
    /// is passed over.
    pub fn consume_entry(&mut self) -> (r: Option<CqEntry>)
        requires
            old(self).wf(),
        ensures
            final(self).wf(),
            final(self)@ == old(self)@.consumed(),
            r == old(self)@.oldest(),
    {
        let index = self.cq_head_slot as usize;
        let cqe = self.cqe[index];
        self.cqe.set(index, CqEntry::default());
        self.cq_head_slot = self.slot_behind(self.cq_head_slot);
        if cqe.is_empty() {
            None
        } else {
            Some(cqe)
        }
    }

    /// Takes the oldest completion, frees its slot and tells the controller the
    /// new head.
    pub fn consume_cq_entry(&mut self) -> (r: (Option<CqEntry>, RegOp))
        requires
            old(self).wf(),
        ensures
            final(self).wf(),
            final(self)@ == old(self)@.consumed(),
            r.0 == old(self)@.oldest(),
            r.1 == final(self).cq_head_write(),
    {
        let cqe = self.consume_entry();
        (cqe, self.commit_head())
    }
}

/// The byte offset of a slot leads back to the slot.
pub proof fn law_slot_offset_round_trip(slot: u32, max_entries: u32)
    requires
        slot < max_entries <= MCQ_MAX_ENTRIES,
    ensures
        slot * 32 <= u32::MAX,
        slot_at((slot * 32) as u32, 32, max_entries) == Ok::<u32, Error>(slot),
{
}

/// A submission queue with fewer than `max_entries - 1` outstanding entries is
/// not full, and a submission makes them one more. So a ring of one slot more
/// than there can be active commands never overruns its head.
pub proof fn law_sq_has_room(q: McqView, head: nat, entry: SqEntry)
    requires
        q.valid(),
        head < q.max_entries,
        ring_len(head, q.sq_tail, q.max_entries) + 1 < q.max_entries,
    ensures
        next_slot(q.sq_tail, q.max_entries) != head,
        q.submitted(entry).valid(),
        ring_len(head, q.submitted(entry).sq_tail, q.max_entries) == ring_len(
            head,
            q.sq_tail,
            q.max_entries,
        ) + 1,
{
}

/// Taking a completion leaves one fewer.
pub proof fn law_cq_drains(q: McqView)
    requires
        q.valid(),
        q.cq_head != q.cq_tail,
    ensures
        q.consumed().valid(),
        ring_len(q.consumed().cq_head, q.cq_tail, q.max_entries) + 1 == ring_len(
            q.cq_head,
            q.cq_tail,
            q.max_entries,
        ),
{
}

/// The offsets and values that move a queue pair on: the tail of the submission
/// queue stands 4 bytes into its doorbell region, the head of the completion
/// queue at the start of its own, and both count bytes in entries of 32.
pub proof fn law_doorbell_writes(queue: UfsMcqQueue)
    requires
        queue.wf(),
    ensures
        ({
            let q = queue@;
            let id = q.id as int;
            &&& queue.sq_tail_write() matches RegOp::Write { offset, value } && {
                &&& offset == q.oprs.sqd.offset + q.oprs.sqd.stride * id + 4
                &&& value == 32 * q.sq_tail
            }
            &&& queue.cq_head_write() matches RegOp::Write { offset, value } && {
                &&& offset == q.oprs.cqd.offset + q.oprs.cqd.stride * id
                &&& value == 32 * q.cq_head
            }
        }),
{
    let q = queue@;
    let id = q.id as usize;
    assert(q.oprs.addressable(id));
    assert(0 <= q.oprs.sqd.stride * id) by (nonlinear_arith)
        requires
            0 <= q.oprs.sqd.stride,
            0 <= id,
    ;
    assert(0 <= q.oprs.cqd.stride * id) by (nonlinear_arith)
        requires
            0 <= q.oprs.cqd.stride,
            0 <= id,
    ;
}

/// A submission puts the entry where the tail stood, leaves every other entry
/// alone, and moves the tail one slot on, from the last slot to the first.
pub proof fn law_submission_fills_tail(q: McqView, entry: SqEntry, slot: int)
    requires
        q.valid(),
        0 <= slot < q.max_entries,
    ensures
        ({
            let after = q.submitted(entry);
            &&& after.sqe[slot] == if slot == q.sq_tail {
                entry
            } else {
                q.sqe[slot]
            }
            &&& after.sq_tail == (q.sq_tail + 1) as int % q.max_entries as int
            &&& after.cqe == q.cqe
            &&& after.cq_head == q.cq_head
            &&& after.cq_tail == q.cq_tail
            &&& after.id == q.id
            &&& after.max_entries == q.max_entries
            &&& after.oprs == q.oprs
            &&& after.sqe_addr == q.sqe_addr
            &&& after.cqe_addr == q.cqe_addr
        }),
{
    assert((q.sq_tail + 1) as int % q.max_entries as int == next_slot(q.sq_tail, q.max_entries))
        by {
        if q.sq_tail + 1 < q.max_entries {
            vstd::arithmetic::div_mod::lemma_small_mod((q.sq_tail + 1) as nat, q.max_entries);
        } else {
            vstd::arithmetic::div_mod::lemma_mod_self_0(q.max_entries as int);
        }
    }
}

/// A completion that is taken is the one where the head stood; its slot is blank
/// afterwards, every other slot is as before, and the head moves one slot on,
/// from the last slot to the first.
pub proof fn law_consumption_takes_head(q: McqView, slot: int)
    requires
        q.valid(),
        0 <= slot < q.max_entries,
    ensures
        ({
            let after = q.consumed();
            &&& slot != q.cq_head ==> after.cqe[slot] == q.cqe[slot]
            &&& after.entry(q.cq_head) is None
            &&& after.cq_head == (q.cq_head + 1) as int % q.max_entries as int
            &&& after.sqe == q.sqe
            &&& after.sq_tail == q.sq_tail
            &&& after.cq_tail == q.cq_tail
            &&& after.id == q.id
            &&& after.max_entries == q.max_entries
            &&& after.oprs == q.oprs
            &&& q.entry(slot as nat) is Some <==> q.cqe[slot].command_desc_base_addr != 0
            &&& q.entry(slot as nat) is Some ==> q.entry(slot as nat)->0 == q.cqe[slot]
            &&& q.oldest() is Some ==> q.oldest()->0 == q.cqe[q.cq_head as int]
            &&& q.oldest() is Some <==> q.cqe[q.cq_head as int].command_desc_base_addr != 0
        }),
{
    assert((q.cq_head + 1) as int % q.max_entries as int == next_slot(q.cq_head, q.max_entries))
        by {
        if q.cq_head + 1 < q.max_entries {
            vstd::arithmetic::div_mod::lemma_small_mod((q.cq_head + 1) as nat, q.max_entries);
        } else {
            vstd::arithmetic::div_mod::lemma_mod_self_0(q.max_entries as int);
        }
    }
}

/// The slot that comes `i` slots after another is found by going on one slot at
/// a time, and as many slots lie between the two.
pub proof fn law_slots_follow_each_other(head: nat, i: nat, n: nat)
    requires
        head < n,
        i < n,
    ensures
        slot_after(head, i, n) < n,
        slot_after(head, i, n) == (head + i) as int % n as int,
        ring_len(head, slot_after(head, i, n), n) == i,
        slot_after(head, 0, n) == head,
        i + 1 < n ==> next_slot(slot_after(head, i, n), n) == slot_after(head, i + 1, n),
{
    if head + i < n {
        vstd::arithmetic::div_mod::lemma_small_mod(head + i, n);
    } else {
        vstd::arithmetic::div_mod::lemma_mod_add_multiples_vanish((head + i - n) as int, n as int);
        vstd::arithmetic::div_mod::lemma_small_mod((head + i - n) as nat, n);
    }
}

/// A byte offset names a slot exactly when it is that of the start of one.
pub proof fn law_offsets_name_slots(offset: u32, entry_size: u32, max_entries: u32)
    requires
        entry_size > 0,
    ensures
        slot_at(offset, entry_size, max_entries) matches Ok(slot) ==> {
            &&& slot < max_entries
            &&& slot * entry_size == offset
        },
        slot_at(offset, entry_size, max_entries) is Err ==> forall|slot: u32|
            slot < max_entries ==> #[trigger] (slot * entry_size) != offset,
{
    let q = (offset / entry_size) as int;
    vstd::arithmetic::div_mod::lemma_fundamental_div_mod(offset as int, entry_size as int);
    assert(entry_size * q == q * entry_size) by (nonlinear_arith);
    assert forall|slot: u32| slot < max_entries && #[trigger] (slot * entry_size)
        == offset implies slot_at(offset, entry_size, max_entries) is Ok by {
        vstd::arithmetic::div_mod::lemma_fundamental_div_mod_converse(
            offset as int,
            entry_size as int,
            slot as int,
            0,
        );
    }
}

/// What taking the oldest completion does: it is the one where the head stood, and
/// the controller is told the next slot, in bytes, at the start of the queue's
/// doorbell region.
pub proof fn law_taken_completion(queue: &mut UfsMcqQueue, r: (Option<CqEntry>, RegOp), slot: int)
    requires
        old(queue).wf(),
        call_ensures(UfsMcqQueue::consume_cq_entry, (queue,), r),
        0 <= slot < old(queue)@.max_entries,
    ensures
        ({
            let q = old(queue)@;
            let entry = q.cqe[q.cq_head as int];
            let next = (q.cq_head + 1) as int % q.max_entries as int;
            &&& r.0 == if entry.command_desc_base_addr == 0 {
                None
            } else {
                Some(entry)
            }
            &&& final(queue)@.cq_head == next
            &&& r.1 matches RegOp::Write { offset, value } && {
                &&& offset == q.oprs.cqd.offset + q.oprs.cqd.stride * q.id
                &&& value == 32 * next
            }
            &&& slot != q.cq_head ==> final(queue)@.cqe[slot] == q.cqe[slot]
            &&& final(queue)@.cqe[q.cq_head as int].command_desc_base_addr == 0
        }),
{
    law_consumption_takes_head(old(queue)@, slot);
    law_doorbell_writes(*final(queue));
}

/// When a submission queue is full: when one more entry would make its tail the
/// head that the controller reports. The head must be the offset of a slot.
pub proof fn law_full_submission_queue(queue: UfsMcqQueue, offset: u32, r: Result<bool, Error>)
    requires
        queue.wf(),
        call_ensures(UfsMcqQueue::sq_is_full, (&queue, offset), r),
    ensures
        ({
            let q = queue@;
            let head = (offset / 32) as nat;
            &&& r is Ok <==> offset % 32 == 0 && head < q.max_entries
            &&& r is Err ==> r == Err::<bool, Error>(Error::EINVAL)
            &&& r matches Ok(full) ==> (full <==> ring_len(head, q.sq_tail, q.max_entries) + 1
                == q.max_entries)
        }),
{
}

/// Events of a completion queue are acknowledged as they were read, at the start
/// of its interrupt region, and only if there are any.
pub proof fn law_events_are_acknowledged(queue: UfsMcqQueue, status: u32, r: Option<RegOp>)
    requires
        queue.wf(),
        call_ensures(UfsMcqQueue::acknowledge_cq_events, (&queue, status), r),
    ensures
        r is None <==> status == 0,
        r matches Some(op) ==> (op matches RegOp::Write { offset, value } && {
            &&& offset == queue@.oprs.cqis.offset + queue@.oprs.cqis.stride * queue@.id
            &&& value == status
        }),
{
    let q = queue@;
    let id = q.id as usize;
    assert(q.oprs.addressable(id));
    assert(0 <= q.oprs.cqis.stride * id) by (nonlinear_arith)
        requires
            0 <= q.oprs.cqis.stride,
            0 <= id,
    ;
}

/// The controller's tail offset names the slot behind its last completion. An entry
/// that it left in the slot at the head is the next one that is taken; one without
/// the address of a command is none.
pub proof fn law_left_entry_is_taken(
    queue: &mut UfsMcqQueue,
    told: &mut UfsMcqQueue,
    taken: &mut UfsMcqQueue,
    slot: u32,
    entry: CqEntry,
    tail_offset: u32,
    stored: Result<(), Error>,
    r: Result<(), Error>,
    e: Option<CqEntry>,
)
    requires
        old(queue).wf(),
        slot == old(queue)@.cq_head,
        call_ensures(UfsMcqQueue::load_cq_entry, (queue, slot, entry), stored),
        *old(told) == *final(queue),
        call_ensures(UfsMcqQueue::update_cq_tail_slot, (told, tail_offset), r),
        *old(taken) == *final(told),
        call_ensures(UfsMcqQueue::consume_entry, (taken,), e),
    ensures
        stored is Ok,
        r is Ok ==> final(told)@.cq_tail * 32 == tail_offset,
        r is Ok <==> tail_offset % 32 == 0 && tail_offset < old(queue)@.max_entries * 32,
        e is Some <==> entry.command_desc_base_addr != 0,
        e matches Some(taken_entry) ==> taken_entry == entry,
        final(told)@.cq_head == old(queue)@.cq_head,
{
    law_offsets_name_slots(tail_offset, 32, old(queue)@.max_entries as u32);
}

/// An entry that is submitted stands in the slot at the tail, and the offset that the
/// controller is told is that of the slot behind it.
pub proof fn law_submitted_entry(queue: &mut UfsMcqQueue, entry: SqEntry, r: Result<u32, Error>)
    requires
        old(queue).wf(),
        call_ensures(UfsMcqQueue::write_sq_entry, (queue, entry), r),
    ensures
        final(queue)@.sqe[old(queue)@.sq_tail as int] == entry,
        r matches Ok(offset) && offset == (if old(queue)@.sq_tail + 1 == old(queue)@.max_entries {
            0
        } else {
            (old(queue)@.sq_tail + 1) * 32
        }),
{
    law_submission_fills_tail(old(queue)@, entry, old(queue)@.sq_tail as int);
}

} // verus!
