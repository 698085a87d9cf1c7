//! Submitting commands to the controller and collecting the completed ones.

use vstd::prelude::*;

use crate::command::{TaskTag, TASK_TAG_COUNT};
use crate::dma::{DmaView, UfsDma};
use crate::error::Error;
use crate::hci::CqEntry;
use crate::mcq::{self, McqView, UfsMcqQueue};
use crate::reg::{self, RegOp, UfsMcqOprRegion, REG_MCQ_SQTP};
use crate::request::UfsRequestInner;

verus! {

/// Number of completions that are collected before they are looked at.
pub const COMPLETION_BATCH_SIZE: usize = 16;

/// Number of tags of the single doorbell.
pub const SDB_TAG_COUNT: u32 = 32;

/// A command that the controller has completed.
#[derive(Clone, Copy, Debug)]
pub struct CompletedRequest {
    pub task_tag: TaskTag,
    pub queue_id: u32,
    pub cqe: Option<CqEntry>,
}

/// A completion that no command owns.
#[derive(Clone, Copy, Debug)]
pub struct CompletionFault {
    pub reason: &'static str,
    pub tag: usize,
    pub queue_id: Option<u32>,
}

/// What a batch was filled with, how far it was taken out, and the first fault.
#[verifier::ext_equal]
pub struct BatchView {
    pub inserted: Seq<CompletedRequest>,
    pub taken: nat,
    pub fault: Option<CompletionFault>,
}

impl BatchView {
    /// No more was inserted than fits, and no more was taken than inserted.
    pub open spec fn valid(self) -> bool {
        self.taken <= self.inserted.len() <= COMPLETION_BATCH_SIZE
    }

    /// Nothing more fits.
    pub open spec fn full(self) -> bool {
        self.inserted.len() == COMPLETION_BATCH_SIZE
    }

    /// With one more completion.
    pub open spec fn with(self, request: CompletedRequest) -> Self {
        BatchView { inserted: self.inserted.push(request), ..self }
    }

    /// With a fault; the first one stays.
    pub open spec fn faulted(self, fault: CompletionFault) -> Self {
        BatchView {
            fault: match self.fault {
                Some(first) => Some(first),
                None => Some(fault),
            },
            ..self
        }
    }
}

/// A batch of completions.
pub struct CompletedRequests {
    requests: Vec<CompletedRequest>,
    pos: usize,
    fault: Option<CompletionFault>,
}

impl View for CompletedRequests {
    type V = BatchView;

    closed spec fn view(&self) -> BatchView {
        BatchView {
            inserted: self.requests@,
            taken: self.pos as nat,
            fault: self.fault,
        }
    }
}

/// Bit `i` of a mask is set.
pub open spec fn bit(mask: u32, i: u32) -> bool {
    (mask >> i) & 1 == 1
}

/// The tags below `n` whose bits are set, in ascending order.
pub open spec fn tags_below(mask: u32, n: nat) -> Seq<u32>
    decreases n,
{
    if n == 0 {
        Seq::empty()
    } else if bit(mask, (n - 1) as u32) {
        tags_below(mask, (n - 1) as nat).push((n - 1) as u32)
    } else {
        tags_below(mask, (n - 1) as nat)
    }
}

/// A tag of the single doorbell that has completed.
pub open spec fn sdb_completion(tag: u32) -> CompletedRequest {
    CompletedRequest { task_tag: TaskTag(tag as u8), queue_id: 0, cqe: None }
}

/// The completions of the single doorbell that fit into a batch: those with the
/// lowest tags.
pub open spec fn sdb_fitting(batch: BatchView, mask: u32) -> Seq<u32> {
    let tags = tags_below(mask, 32);
    let room = COMPLETION_BATCH_SIZE - batch.inserted.len();
    if tags.len() <= room {
        tags
    } else {
        tags.take(room)
    }
}

impl CompletedRequests {
    /// No more was inserted than fits, and no more was taken than inserted.
    pub open spec fn wf(self) -> bool {
        self@.valid()
    }

    /// An empty batch.
    pub fn new() -> (r: Self)
        ensures
            r.wf(),
            r@ == (BatchView { inserted: Seq::empty(), taken: 0, fault: None }),
    {
        CompletedRequests { requests: Vec::new(), pos: 0, fault: None }
    }

    /// Adds a completion.
    pub fn insert(&mut self, task_tag: TaskTag, queue_id: u32, cqe: Option<CqEntry>) -> (r: Result<
        (),
        Error,
    >)
        requires
            old(self).wf(),
        ensures
            final(self).wf(),
            if old(self)@.full() {
                r == Err::<(), Error>(Error::ENOMEM) && final(self)@ == old(self)@
            } else {
                r == Ok::<(), Error>(()) && final(self)@ == old(self)@.with(
                    CompletedRequest { task_tag, queue_id, cqe },
                )
            },
    {
        if self.requests.len() == COMPLETION_BATCH_SIZE {
            return Err(Error::ENOMEM);
        }
        self.requests.push(CompletedRequest { task_tag, queue_id, cqe });
        Ok(())
    }

    /// Adds the completions of the single doorbell whose bits are set, from the
    /// lowest tag on, as far as they fit. The result has the bits of those that
    /// were added.
    pub fn insert_sdb_mask(&mut self, mask: u32) -> (r: Result<u32, Error>)
        requires
            old(self).wf(),
        ensures
            final(self).wf(),
            final(self)@ == (BatchView {
                inserted: old(self)@.inserted + sdb_fitting(old(self)@, mask).map_values(
                    |tag: u32| sdb_completion(tag),
                ),
                ..old(self)@
            }),
            r matches Ok(inserted) && inserted & !mask == 0 && forall|i: u32|
                i < 32 ==> (#[trigger] bit(inserted, i) <==> sdb_fitting(
                    old(self)@,
                    mask,
                ).contains(i)),
    {
        let mut inserted: u32 = 0;
        let ghost mut chosen: Seq<u32> = Seq::empty();
        proof {
            assert(0u32 & !mask == 0) by (bit_vector);
            assert forall|i: u32| i < 32 implies !#[trigger] bit(0u32, i) by {
                assert((0u32 >> i) & 1 == 0) by (bit_vector)
                    requires
                        i < 32,
                ;
            }
            assert(self@.inserted =~= old(self)@.inserted + chosen.map_values(
                |tag: u32| sdb_completion(tag),
            ));
        }
        for tag in 0..SDB_TAG_COUNT
            invariant
                self.wf(),
                old(self).wf(),
                self@.taken == old(self)@.taken,
                self@.fault == old(self)@.fault,
                self@.inserted == old(self)@.inserted + chosen.map_values(
                    |tag: u32| sdb_completion(tag),
                ),
                ({
                    let tags = tags_below(mask, tag as nat);
                    let room = COMPLETION_BATCH_SIZE - old(self)@.inserted.len();
                    chosen == if tags.len() <= room {
                        tags
                    } else {
                        tags.take(room)
                    }
                }),
                inserted & !mask == 0,
                forall|i: u32| i < 32 ==> (#[trigger] bit(inserted, i) <==> chosen.contains(i)),
                forall|k: int| 0 <= k < chosen.len() ==> (#[trigger] chosen[k]) < tag,
        {
            let tag_mask = 1u32 << tag;
            proof {
                assert((mask & (1u32 << tag) != 0) == ((mask >> tag) & 1 == 1)) by (bit_vector)
                    requires
                        tag < 32,
                ;
            }
            if mask & tag_mask != 0 && !self.is_full() {
                match self.insert(TaskTag(tag as u8), 0, None) {
                    Ok(()) => {},
                    Err(e) => return Err(e),
                }
                proof {
                    let ghost before = inserted;
                    let ghost old_chosen = chosen;
                    assert(((inserted | (1u32 << tag)) & !mask) == 0) by (bit_vector)
                        requires
                            inserted & !mask == 0,
                            (mask >> tag) & 1 == 1,
                            tag < 32,
                    ;
                    chosen = chosen.push(tag);
                    assert forall|i: u32| i < 32 implies (#[trigger] bit(
                        before | (1u32 << tag),
                        i,
                    ) <==> chosen.contains(i)) by {
                        assert((((before | (1u32 << tag)) >> i) & 1 == 1) == ((before >> i) & 1 == 1
                            || i == tag)) by (bit_vector)
                            requires
                                i < 32,
                                tag < 32,
                        ;
                        assert(bit(before, i) <==> old_chosen.contains(i));
                        if old_chosen.contains(i) {
                            let k = choose|k: int|
                                0 <= k < old_chosen.len() && old_chosen[k] == i;
                            assert(chosen[k] == i);
                        }
                        if i == tag {
                            assert(chosen[old_chosen.len() as int] == i);
                        }
                    }
                    assert(self@.inserted =~= old(self)@.inserted + chosen.map_values(
                        |tag: u32| sdb_completion(tag),
                    ));
                }
                inserted = inserted | tag_mask;
            }
        }
        Ok(inserted)
    }

    /// Whether nothing more fits.
    pub fn is_full(&self) -> (r: bool)
        requires
            self.wf(),
        ensures
            r == self@.full(),
    {
        self.requests.len() == COMPLETION_BATCH_SIZE
    }

    /// Takes note of a fault, unless there was one before.
    pub fn record_fault(&mut self, reason: &'static str, tag: usize, queue_id: Option<u32>)
        requires
            old(self).wf(),
        ensures
            final(self).wf(),
            final(self)@ == old(self)@.faulted(CompletionFault { reason, tag, queue_id }),
    {
        if self.fault.is_none() {
            self.fault = Some(CompletionFault { reason, tag, queue_id });
        }
    }

    /// Takes the fault out.
    pub fn take_fault(&mut self) -> (r: Option<CompletionFault>)
        requires
            old(self).wf(),
        ensures
            final(self).wf(),
            r == old(self)@.fault,
            final(self)@ == (BatchView { fault: None, ..old(self)@ }),
    {
        let fault = self.fault;
        self.fault = None;
        fault
    }

    /// Takes the next completion out, in the order in which they were added.
    pub fn take_next(&mut self) -> (r: Option<CompletedRequest>)
        requires
            old(self).wf(),
        ensures
            final(self).wf(),
            if old(self)@.taken == old(self)@.inserted.len() {
                r is None && final(self)@ == old(self)@
            } else {
                &&& r == Some(old(self)@.inserted[old(self)@.taken as int])
                &&& final(self)@ == (BatchView { taken: old(self)@.taken + 1, ..old(self)@ })
            },
    {
        if self.pos == self.requests.len() {
            return None;
        }
        let request = self.requests[self.pos];
        self.pos = self.pos + 1;
        Some(request)
    }
}

/// What became of a submission.
#[derive(Clone, Copy, Debug)]
pub enum SubmissionOutcome {
    /// The request is with the controller as soon as this write is made.
    Submitted(RegOp),
    /// The request is not with the controller.
    NotSubmitted(Error),
}

/// Who looks for completions.
#[derive(Clone, Copy, Debug, PartialEq, Eq, Structural)]
pub enum SdbCompletionSource {
    Interrupt,
    Poll,
}

/// The commands that the single doorbell has outstanding, and which of them are
/// polled for.
#[derive(Clone, Copy, Debug, PartialEq, Eq, Structural)]
pub struct SdbCompletionState {
    pub outstanding: u32,
    pub polled: u32,
}

impl Default for SdbCompletionState {
    fn default() -> (r: Self)
        ensures
            r == (SdbCompletionState { outstanding: 0, polled: 0 }),
            r.wf(),
    {
        proof {
            assert(0u32 & !0u32 == 0) by (bit_vector);
        }
        SdbCompletionState { outstanding: 0, polled: 0 }
    }
}

impl SdbCompletionState {
    /// Only outstanding commands are polled for.
    pub open spec fn wf(self) -> bool {
        self.polled & !self.outstanding == 0
    }

    /// The commands that are done, for the one who looks.
    pub open spec fn eligible(self, doorbell: u32, source: SdbCompletionSource) -> u32 {
        match source {
            SdbCompletionSource::Interrupt => !doorbell & self.outstanding & !self.polled,
            SdbCompletionSource::Poll => !doorbell & self.outstanding & self.polled,
        }
    }

    /// The mask of a tag.
    pub open spec fn mask_of(tag: u32) -> Option<u32> {
        if tag < 32 {
            Some(1u32 << tag)
        } else {
            None
        }
    }

    /// The mask of a tag, if the doorbell has such a tag.
    pub fn tag_mask(tag: u32) -> (r: Option<u32>)
        ensures
            r == Self::mask_of(tag),
    {
        if tag < SDB_TAG_COUNT {
            Some(1u32 << tag)
        } else {
            None
        }
    }

    /// With a command handed to the controller.
    pub open spec fn submitted(self, mask: u32, polled: bool) -> Self {
        SdbCompletionState {
            outstanding: self.outstanding | mask,
            polled: if polled {
                self.polled | mask
            } else {
                self.polled & !mask
            },
        }
    }

    /// With commands collected.
    pub open spec fn collected(self, mask: u32) -> Self {
        SdbCompletionState { outstanding: self.outstanding & !mask, polled: self.polled & !mask }
    }

    /// Hands a prepared request to the controller.
    pub fn submit(
        &mut self,
        request: &mut UfsRequestInner,
        queue_id: u32,
        tag: u32,
        polled: bool,
    ) -> (r: SubmissionOutcome)
        requires
            old(self).wf(),
        ensures
            final(self).wf(),
            match Self::mask_of(tag) {
                None => {
                    &&& r == SubmissionOutcome::NotSubmitted(Error::EINVAL)
                    &&& *final(self) == *old(self)
                    &&& *final(request) == *old(request)
                },
                Some(mask) => if old(self).outstanding & mask != 0 {
                    &&& r == SubmissionOutcome::NotSubmitted(Error::EBUSY)
                    &&& *final(self) == *old(self)
                    &&& *final(request) == *old(request)
                } else {
                    match old(request).state.after_submit(queue_id) {
                        None => {
                            &&& r == SubmissionOutcome::NotSubmitted(Error::EIO)
                            &&& *final(self) == *old(self)
                            &&& final(request).state == old(request).state
                        },
                        Some(state) => {
                            &&& r == SubmissionOutcome::Submitted(
                                RegOp::Write {
                                    offset: reg::UTP_TRANSFER_REQ_DOOR_BELL,
                                    value: mask,
                                },
                            )
                            &&& *final(self) == old(self).submitted(mask, polled)
                            &&& final(request).state == state
                        },
                    }
                },
            },
    {
        let mask = match Self::tag_mask(tag) {
            Some(mask) => mask,
            None => return SubmissionOutcome::NotSubmitted(Error::EINVAL),
        };
        if self.outstanding & mask != 0 {
            return SubmissionOutcome::NotSubmitted(Error::EBUSY);
        }
        match request.mark_in_flight(queue_id) {
            Ok(()) => {},
            Err(e) => return SubmissionOutcome::NotSubmitted(e),
        }
        proof {
            law_sdb_polled_is_outstanding(*self, mask, polled);
        }
        self.outstanding = self.outstanding | mask;
        if polled {
            self.polled = self.polled | mask;
        } else {
            self.polled = self.polled & !mask;
        }
        SubmissionOutcome::Submitted(reg::ring_utrl_doorbell(tag))
    }

    /// Collects the commands that are done, as the doorbell register shows, and
    /// that the one who looks is to collect.
    pub fn collect(
        &mut self,
        doorbell: u32,
        source: SdbCompletionSource,
        requests: &mut CompletedRequests,
    ) -> (r: Result<(), Error>)
        requires
            old(self).wf(),
            old(requests).wf(),
        ensures
            final(self).wf(),
            final(requests).wf(),
            r == Ok::<(), Error>(()),
            ({
                let eligible = old(self).eligible(doorbell, source);
                let tags = sdb_fitting(old(requests)@, eligible);
                &&& final(requests)@ == (BatchView {
                    inserted: old(requests)@.inserted + tags.map_values(
                        |tag: u32| sdb_completion(tag),
                    ),
                    ..old(requests)@
                })
                &&& exists|mask: u32|
                    {
                        &&& *final(self) == old(self).collected(mask)
                        &&& mask & !eligible == 0
                        &&& forall|i: u32| i < 32 ==> (#[trigger] bit(mask, i) <==> tags.contains(i))
                    }
            }),
    {
        let completed = !doorbell & self.outstanding;
        let eligible = match source {
            SdbCompletionSource::Interrupt => completed & !self.polled,
            SdbCompletionSource::Poll => completed & self.polled,
        };
        let collected = match requests.insert_sdb_mask(eligible) {
            Ok(collected) => collected,
            Err(e) => return Err(e),
        };
        proof {
            law_sdb_polled_is_outstanding(*self, collected, false);
        }
        self.outstanding = self.outstanding & !collected;
        self.polled = self.polled & !collected;
        assert(*self == old(self).collected(collected));
        Ok(())
    }
}

/// Commands that are polled for stay outstanding until they are collected.
pub proof fn law_sdb_polled_is_outstanding(state: SdbCompletionState, mask: u32, polled: bool)
    requires
        state.wf(),
    ensures
        state.submitted(mask, polled).wf(),
        state.collected(mask).wf(),
{
    let p = state.polled;
    let o = state.outstanding;
    assert((p | mask) & !(o | mask) == 0) by (bit_vector)
        requires
            p & !o == 0,
    ;
    assert((p & !mask) & !(o | mask) == 0) by (bit_vector)
        requires
            p & !o == 0,
    ;
    assert((p & !mask) & !(o & !mask) == 0) by (bit_vector)
        requires
            p & !o == 0,
    ;
}

/// A command that is done is collected by exactly one of the two who look: by
/// polling if it is polled for, by the interrupt handler if not.
pub proof fn law_sdb_one_collector(state: SdbCompletionState, doorbell: u32)
    ensures
        state.eligible(doorbell, SdbCompletionSource::Interrupt) & state.eligible(
            doorbell,
            SdbCompletionSource::Poll,
        ) == 0,
        state.eligible(doorbell, SdbCompletionSource::Interrupt) | state.eligible(
            doorbell,
            SdbCompletionSource::Poll,
        ) == !doorbell & state.outstanding,
{
    let p = state.polled;
    let o = state.outstanding;
    assert((!doorbell & o & !p) & (!doorbell & o & p) == 0) by (bit_vector);
    assert((!doorbell & o & !p) | (!doorbell & o & p) == !doorbell & o) by (bit_vector);
}

/// A tag that was submitted cannot be submitted again before it is collected,
/// and can be afterwards.
pub proof fn law_sdb_tag_reuse(state: SdbCompletionState, tag: u32, polled: bool)
    requires
        tag < 32,
    ensures
        state.submitted(1u32 << tag, polled).outstanding & (1u32 << tag) != 0,
        state.submitted(1u32 << tag, polled).collected(1u32 << tag).outstanding & (1u32 << tag)
            == 0,
{
    let o = state.outstanding;
    assert((o | (1u32 << tag)) & (1u32 << tag) != 0 && ((o | (1u32 << tag)) & !(1u32 << tag)) & (
    1u32 << tag) == 0) by (bit_vector)
        requires
            tag < 32,
    ;
}

/// The completion that an entry stands for, if it leads to a command.
pub open spec fn completion_of(dma: DmaView, queue_id: u32, cqe: Option<CqEntry>) -> Option<
    CompletedRequest,
> {
    match cqe {
        None => None,
        Some(entry) => match dma.tag_of(entry) {
            Ok(tag) => if tag < TASK_TAG_COUNT {
                Some(CompletedRequest { task_tag: TaskTag(tag as u8), queue_id, cqe })
            } else {
                None
            },
            Err(_) => None,
        },
    }
}

/// The fault that an entry stands for, if it leads to no command.
pub open spec fn fault_of(dma: DmaView, queue_id: u32, cqe: Option<CqEntry>) -> Option<
    CompletionFault,
> {
    match cqe {
        None => None,
        Some(entry) => match dma.tag_of(entry) {
            Ok(tag) => if tag < TASK_TAG_COUNT {
                None
            } else {
                Some(
                    CompletionFault {
                        reason: "invalid MCQ completion task tag",
                        tag,
                        queue_id: Some(queue_id),
                    },
                )
            },
            Err(_) => Some(
                CompletionFault {
                    reason: "invalid MCQ completion descriptor",
                    tag: entry.task_tag as usize,
                    queue_id: Some(queue_id),
                },
            ),
        },
    }
}

/// The batch after one completion queue entry was looked at.
pub open spec fn sorted_in(
    batch: BatchView,
    dma: DmaView,
    queue_id: u32,
    cqe: Option<CqEntry>,
) -> BatchView {
    match completion_of(dma, queue_id, cqe) {
        Some(request) => batch.with(request),
        None => match fault_of(dma, queue_id, cqe) {
            Some(fault) => batch.faulted(fault),
            None => batch,
        },
    }
}

/// Queue and batch after the completion queue was drained, from the oldest entry
/// on, until it was empty or the batch was full.
pub open spec fn drained(q: McqView, batch: BatchView, dma: DmaView) -> (McqView, BatchView)
    decreases mcq::ring_len(q.cq_head, q.cq_tail, q.max_entries),
    when q.valid()
{
    if q.cq_head == q.cq_tail || batch.full() {
        (q, batch)
    } else {
        drained(q.consumed(), sorted_in(batch, dma, q.id, q.oldest()), dma)
    }
}

/// Draining leaves the queue's number, size and registers alone.
pub(crate) proof fn lemma_drained_id(q: McqView, batch: BatchView, dma: DmaView)
    requires
        q.valid(),
        batch.valid(),
    ensures
        drained(q, batch, dma).0.id == q.id,
        drained(q, batch, dma).0.valid(),
    decreases mcq::ring_len(q.cq_head, q.cq_tail, q.max_entries),
{
    if q.cq_head != q.cq_tail && !batch.full() {
        mcq::law_cq_drains(q);
        lemma_drained_id(q.consumed(), sorted_in(batch, dma, q.id, q.oldest()), dma);
    }
}

/// What a completion queue holds, from the oldest entry on. A slot that the
/// controller left blank holds nothing.
pub open spec fn pending(q: McqView) -> Seq<Option<CqEntry>> {
    Seq::new(
        mcq::ring_len(q.cq_head, q.cq_tail, q.max_entries),
        |i: int| q.entry(mcq::slot_after(q.cq_head, i as nat, q.max_entries)),
    )
}

/// The completions that entries stand for, in their order.
pub open spec fn completions_of(dma: DmaView, queue_id: u32, entries: Seq<Option<CqEntry>>) -> Seq<
    CompletedRequest,
>
    decreases entries.len(),
{
    if entries.len() == 0 {
        Seq::empty()
    } else {
        let rest = completions_of(dma, queue_id, entries.drop_first());
        match completion_of(dma, queue_id, entries[0]) {
            Some(request) => seq![request] + rest,
            None => rest,
        }
    }
}

/// The first fault among entries.
pub open spec fn first_fault(dma: DmaView, queue_id: u32, entries: Seq<Option<CqEntry>>) -> Option<
    CompletionFault,
>
    decreases entries.len(),
{
    if entries.len() == 0 {
        None
    } else {
        match fault_of(dma, queue_id, entries[0]) {
            Some(fault) => Some(fault),
            None => first_fault(dma, queue_id, entries.drop_first()),
        }
    }
}

/// An entry that is taken leaves the others in the queue, in their order.
proof fn lemma_pending_shrinks(q: McqView)
    requires
        q.valid(),
        q.cq_head != q.cq_tail,
    ensures
        pending(q).len() > 0,
        pending(q)[0] == q.oldest(),
        pending(q.consumed()) == pending(q).drop_first(),
{
    mcq::law_cq_drains(q);
    assert(mcq::slot_after(q.cq_head, 0, q.max_entries) == q.cq_head);
    assert forall|i: int| 0 <= i < pending(q.consumed()).len() implies pending(q.consumed())[i]
        == pending(q).drop_first()[i] by {
        let slot = mcq::slot_after(q.consumed().cq_head, i as nat, q.max_entries);
        assert(slot == mcq::slot_after(q.cq_head, (i + 1) as nat, q.max_entries));
        assert(slot != q.cq_head);
    }
    assert(pending(q.consumed()) =~= pending(q).drop_first());
}

/// No completion is lost when a completion queue is drained. What is taken out of
/// the queue is a first part of what it held; every entry of that part that leads
/// to a command is in the batch, in the same order, behind what was there before,
/// and nothing else is; the first entry that leads to none is the batch's fault,
/// unless it had one. The rest is still in the queue, and there is a rest only
/// when the batch is full.
pub proof fn law_drain_loses_nothing(q: McqView, batch: BatchView, dma: DmaView)
    requires
        q.valid(),
        batch.valid(),
    ensures
        ({
            let end = drained(q, batch, dma);
            let taken = pending(q).len() - pending(end.0).len();
            let part = pending(q).take(taken);
            &&& end.0.valid()
            &&& end.1.valid()
            &&& 0 <= taken <= pending(q).len()
            &&& pending(end.0) == pending(q).skip(taken)
            &&& pending(end.0).len() == 0 || end.1.full()
            &&& end.1.inserted == batch.inserted + completions_of(dma, q.id, part)
            &&& end.1.taken == batch.taken
            &&& end.1.fault == (match batch.fault {
                Some(fault) => Some(fault),
                None => first_fault(dma, q.id, part),
            })
        }),
    decreases mcq::ring_len(q.cq_head, q.cq_tail, q.max_entries),
{
    let all = pending(q);
    if q.cq_head != q.cq_tail && !batch.full() {
        mcq::law_cq_drains(q);
        lemma_pending_shrinks(q);
        let next = sorted_in(batch, dma, q.id, q.oldest());
        law_drain_loses_nothing(q.consumed(), next, dma);
        let end = drained(q, batch, dma);
        let taken = all.len() - pending(end.0).len();
        let part = all.take(taken);
        let later = pending(q.consumed()).take(taken - 1);
        assert(part.drop_first() =~= later);
        assert(part[0] == q.oldest());
        assert(pending(q.consumed()).skip(taken - 1) =~= all.skip(taken));
        assert(end.1.inserted =~= batch.inserted + completions_of(dma, q.id, part));
    } else {
        assert(all.skip(0) =~= all);
        assert(all.take(0).len() == 0);
        assert(batch.inserted + Seq::<CompletedRequest>::empty() =~= batch.inserted);
    }
}

/// A hardware queue pair at work.
pub struct McqHardwareQueue;

impl McqHardwareQueue {
    /// Hands a prepared request to the controller through a submission queue.
    /// `sq_head` is what reading the queue's head register gave.
    pub fn submit(
        queue: &mut UfsMcqQueue,
        dma: &UfsDma,
        request: &mut UfsRequestInner,
        tag: u32,
        sq_head: Result<u32, Error>,
    ) -> (r: SubmissionOutcome)
        requires
            old(queue).wf(),
            dma.wf(),
        ensures
            final(queue).wf(),
            match Self::refusal(old(queue)@, dma@, tag, sq_head) {
                Some(e) => {
                    &&& r == SubmissionOutcome::NotSubmitted(e)
                    &&& final(queue)@ == old(queue)@
                    &&& *final(request) == *old(request)
                },
                None => {
                    let entered = old(queue)@.submitted(dma@.utrdl[tag as int]);
                    match old(request).state.after_submit(old(queue)@.id) {
                        None => {
                            &&& r == SubmissionOutcome::NotSubmitted(Error::EIO)
                            &&& final(queue)@ == (McqView {
                                sq_tail: old(queue)@.sq_tail,
                                ..entered
                            })
                            &&& final(request).state == old(request).state
                        },
                        Some(state) => {
                            &&& r == SubmissionOutcome::Submitted(
                                RegOp::Write {
                                    offset: entered.oprs.place(
                                        UfsMcqOprRegion::Sqd,
                                        entered.id as usize,
                                        REG_MCQ_SQTP,
                                    ) as usize,
                                    value: (entered.sq_tail * 32) as u32,
                                },
                            )
                            &&& final(queue)@ == entered
                            &&& final(request).state == state
                        },
                    }
                },
            },
    {
        let full = match sq_head {
            Ok(sq_head) => queue.sq_is_full(sq_head),
            Err(e) => return SubmissionOutcome::NotSubmitted(e),
        };
        match full {
            Ok(true) => return SubmissionOutcome::NotSubmitted(Error::EBUSY),
            Err(e) => return SubmissionOutcome::NotSubmitted(e),
            Ok(false) => {},
        }
        let sqe = match dma.transfer_request_desc(tag as usize) {
            Ok(sqe) => sqe,
            Err(e) => return SubmissionOutcome::NotSubmitted(e),
        };
        let previous_tail = queue.sq_tail_slot();
        let tail = match queue.write_sq_entry(sqe) {
            Ok(tail) => tail,
            Err(e) => return SubmissionOutcome::NotSubmitted(e),
        };
        match request.mark_in_flight(queue.id()) {
            Ok(()) => {},
            Err(e) => {
                queue.set_sq_tail_slot(previous_tail);
                return SubmissionOutcome::NotSubmitted(e);
            },
        }
        SubmissionOutcome::Submitted(queue.oprs().write_mcq_sq_tail(queue.id() as usize, tail))
    }

    /// Why a submission queue does not take a command, if it does not.
    pub open spec fn refusal(
        q: McqView,
        dma: DmaView,
        tag: u32,
        sq_head: Result<u32, Error>,
    ) -> Option<Error> {
        match sq_head {
            Err(e) => Some(e),
            Ok(offset) => match mcq::slot_at(offset, 32, q.max_entries as u32) {
                Err(e) => Some(e),
                Ok(head) => if mcq::next_slot(q.sq_tail, q.max_entries) == head {
                    Some(Error::EBUSY)
                } else if tag >= dma.slots() {
                    Some(Error::ERANGE)
                } else {
                    None
                },
            },
        }
    }

    /// Collects completions from a completion queue whose tail register shows
    /// `tail_offset`. The result is the write that tells the controller the new
    /// head, if an entry was taken.
    pub fn collect_completions(
        queue: &mut UfsMcqQueue,
        dma: &UfsDma,
        tail_offset: u32,
        requests: &mut CompletedRequests,
    ) -> (r: Result<Option<RegOp>, Error>)
        requires
            old(queue).wf(),
            dma.wf(),
            old(requests).wf(),
        ensures
            final(queue).wf(),
            final(requests).wf(),
            match mcq::slot_at(tail_offset, 32, old(queue)@.max_entries as u32) {
                Err(e) => {
                    &&& r == Err::<Option<RegOp>, Error>(e)
                    &&& final(queue)@ == old(queue)@
                    &&& final(requests)@ == old(requests)@
                },
                Ok(tail) => {
                    let start = McqView { cq_tail: tail as nat, ..old(queue)@ };
                    let end = drained(start, old(requests)@, dma@);
                    &&& final(queue)@ == end.0
                    &&& final(requests)@ == end.1
                    &&& r == Ok::<Option<RegOp>, Error>(
                        if start.cq_head == start.cq_tail || old(requests)@.full() {
                            None
                        } else {
                            Some(final(queue).cq_head_write())
                        },
                    )
                },
            },
    {
        match queue.update_cq_tail_slot(tail_offset) {
            Ok(()) => {},
            Err(e) => return Err(e),
        }
        let mut consumed = false;
        let ghost start = queue@;
        let ghost batch = requests@;
        while !queue.cq_is_empty() && !requests.is_full()
            invariant
                queue.wf(),
                dma.wf(),
                requests.wf(),
                start.valid(),
                drained(queue@, requests@, dma@) == drained(start, batch, dma@),
                !consumed ==> queue@ == start && requests@ == batch,
                consumed ==> !(start.cq_head == start.cq_tail || batch.full()),
            decreases mcq::ring_len(queue@.cq_head, queue@.cq_tail, queue@.max_entries),
        {
            proof {
                mcq::law_cq_drains(queue@);
                reveal_with_fuel(drained, 2);
            }
            consumed = true;
            match queue.consume_entry() {
                Some(cqe) => {
                    match dma.tag_from_cq_entry(&cqe) {
                        Ok(tag) => {
                            match TaskTag::from_index(tag) {
                                Ok(task_tag) => {
                                    match requests.insert(task_tag, queue.id(), Some(cqe)) {
                                        Ok(()) => {},
                                        Err(e) => return Err(e),
                                    }
                                },
                                Err(_) => {
                                    requests.record_fault(
                                        "invalid MCQ completion task tag",
                                        tag,
                                        Some(queue.id()),
                                    );
                                },
                            }
                        },
                        Err(_) => {
                            requests.record_fault(
                                "invalid MCQ completion descriptor",
                                cqe.task_tag() as usize,
                                Some(queue.id()),
                            );
                        },
                    }
                },
                None => {},
            }
        }
        if consumed {
            Ok(Some(queue.commit_head()))
        } else {
            Ok(None)
        }
    }
}

/// Bits of combined masks.
proof fn lemma_bits(a: u32, b: u32, i: u32)
    requires
        i < 32,
    ensures
        bit(a | b, i) <==> bit(a, i) || bit(b, i),
        bit(a & b, i) <==> bit(a, i) && bit(b, i),
        bit(!a, i) <==> !bit(a, i),
        bit(1u32 << i, i),
        bit(1u32 << (a % 32), i) ==> i == a % 32,
{
    let t = a % 32;
    assert(((((a | b) >> i) & 1 == 1) <==> ((a >> i) & 1 == 1 || (b >> i) & 1 == 1)) && ((((a & b)
        >> i) & 1 == 1) <==> ((a >> i) & 1 == 1 && (b >> i) & 1 == 1)) && ((((!a) >> i) & 1 == 1)
        <==> !((a >> i) & 1 == 1)) && (((1u32 << i) >> i) & 1 == 1) && ((((1u32 << t) >> i) & 1 == 1)
        ==> i == t)) by (bit_vector)
        requires
            i < 32,
            t < 32,
    ;
}

/// The doorbell tells which commands are done: those that are outstanding and
/// whose bit the controller has cleared. Polling collects those of them that are
/// polled for, the interrupt handler the others.
pub proof fn law_sdb_collects_done_commands(state: SdbCompletionState, doorbell: u32, tag: u32)
    requires
        tag < 32,
    ensures
        ({
            let done = bit(state.outstanding, tag) && !bit(doorbell, tag);
            &&& bit(state.eligible(doorbell, SdbCompletionSource::Poll), tag) <==> done && bit(
                state.polled,
                tag,
            )
            &&& bit(state.eligible(doorbell, SdbCompletionSource::Interrupt), tag) <==> done
                && !bit(state.polled, tag)
        }),
{
    let p = state.polled;
    let o = state.outstanding;
    lemma_bits(doorbell, o, tag);
    lemma_bits(!doorbell, o, tag);
    lemma_bits(p, o, tag);
    lemma_bits(!doorbell & o, p, tag);
    lemma_bits(!doorbell & o, !p, tag);
}

/// A submission makes its own tag outstanding, and polled for if it is to be, and
/// touches no other tag. It rings the bit of the tag and no other.
pub proof fn law_sdb_submission_is_of_one_tag(
    state: SdbCompletionState,
    tag: u32,
    other: u32,
    polled: bool,
)
    requires
        tag < 32,
        other < 32,
    ensures
        SdbCompletionState::mask_of(tag) matches Some(mask) && {
            let after = state.submitted(mask, polled);
            &&& bit(mask, other) <==> other == tag
            &&& bit(after.outstanding, tag)
            &&& bit(after.polled, tag) <==> polled
            &&& other != tag ==> {
                &&& bit(after.outstanding, other) == bit(state.outstanding, other)
                &&& bit(after.polled, other) == bit(state.polled, other)
            }
        },
        forall|t: u32| t >= 32 ==> #[trigger] SdbCompletionState::mask_of(t) is None,
{
    let mask = 1u32 << tag;
    lemma_bits(tag, mask, other);
    lemma_bits(tag, mask, tag);
    lemma_bits(state.outstanding, mask, tag);
    lemma_bits(state.outstanding, mask, other);
    lemma_bits(state.polled, mask, tag);
    lemma_bits(state.polled, mask, other);
    lemma_bits(mask, mask, tag);
    lemma_bits(mask, mask, other);
    lemma_bits(state.polled, !mask, tag);
    lemma_bits(state.polled, !mask, other);
}

/// Collecting commands makes them free again, and touches no other.
pub proof fn law_sdb_collection_frees_tags(state: SdbCompletionState, mask: u32, tag: u32)
    requires
        tag < 32,
    ensures
        bit(state.collected(mask).outstanding, tag) <==> bit(state.outstanding, tag) && !bit(
            mask,
            tag,
        ),
        bit(state.collected(mask).polled, tag) <==> bit(state.polled, tag) && !bit(mask, tag),
{
    lemma_bits(mask, mask, tag);
    lemma_bits(state.outstanding, !mask, tag);
    lemma_bits(state.polled, !mask, tag);
}

/// The tags whose bits are set, each once and in ascending order.
proof fn lemma_tags_below(mask: u32, n: nat)
    requires
        n <= 32,
    ensures
        forall|i: int, j: int|
            0 <= i < j < tags_below(mask, n).len() ==> tags_below(mask, n)[i] < tags_below(
                mask,
                n,
            )[j],
        forall|i: int|
            0 <= i < tags_below(mask, n).len() ==> (#[trigger] tags_below(mask, n)[i]) < n && bit(
                mask,
                tags_below(mask, n)[i],
            ),
        forall|t: u32| t < n && #[trigger] bit(mask, t) ==> tags_below(mask, n).contains(t),
    decreases n,
{
    if n > 0 {
        let before = tags_below(mask, (n - 1) as nat);
        let tags = tags_below(mask, n);
        lemma_tags_below(mask, (n - 1) as nat);
        assert forall|t: u32| t < n && #[trigger] bit(mask, t) implies tags.contains(t) by {
            if t < n - 1 {
                let k = choose|k: int| 0 <= k < before.len() && before[k] == t;
                assert(tags[k] == t);
            } else {
                assert(tags[before.len() as int] == t);
            }
        }
    }
}

/// Completions of the single doorbell go into a batch of 16 from the lowest tag
/// on: each one once, only those that are done, and one stays behind only when the
/// batch is full, and then behind every lower one.
pub proof fn law_sdb_batch_takes_lowest_tags(batch: BatchView, mask: u32, tag: u32)
    requires
        batch.valid(),
        tag < 32,
    ensures
        ({
            let tags = sdb_fitting(batch, mask);
            &&& batch.inserted.len() + tags.len() <= 16
            &&& tags.contains(tag) ==> bit(mask, tag)
            &&& bit(mask, tag) && !tags.contains(tag) ==> {
                &&& batch.inserted.len() + tags.len() == 16
                &&& forall|k: int| 0 <= k < tags.len() ==> #[trigger] tags[k] < tag
            }
            &&& forall|i: int, j: int| 0 <= i < j < tags.len() ==> tags[i] < tags[j]
            &&& sdb_completion(tag).task_tag.0 == tag
            &&& sdb_completion(tag).queue_id == 0
            &&& sdb_completion(tag).cqe is None
        }),
{
    let all = tags_below(mask, 32);
    let tags = sdb_fitting(batch, mask);
    lemma_tags_below(mask, 32);
    if bit(mask, tag) && !tags.contains(tag) {
        assert(all.contains(tag));
        let k = choose|k: int| 0 <= k < all.len() && all[k] == tag;
        if k < tags.len() {
            assert(tags[k] == tag);
        }
    }
}

/// A batch keeps what it was given, in the order in which it was given, up to 16
/// completions, and the first of its faults.
pub proof fn law_batch_keeps_order(
    batch: BatchView,
    request: CompletedRequest,
    fault: CompletionFault,
    i: int,
)
    requires
        batch.valid(),
        0 <= i < batch.inserted.len(),
    ensures
        batch.full() <==> batch.inserted.len() == 16,
        batch.with(request).inserted.last() == request,
        batch.with(request).inserted[i] == batch.inserted[i],
        batch.with(request).fault == batch.fault,
        batch.faulted(fault).inserted == batch.inserted,
        batch.fault is Some ==> batch.faulted(fault).fault == batch.fault,
        batch.fault is None ==> batch.faulted(fault).fault == Some(fault),
{
}

/// What an entry of a completion queue is taken for. One that points at the
/// command descriptor of a slot completes the command of that slot; one that
/// points anywhere else is a fault of the queue, and so is one of a slot without a
/// task tag. An empty entry is neither.
pub proof fn law_entry_completes_its_slot(dma: DmaView, queue_id: u32, cqe: Option<CqEntry>)
    requires
        dma.valid(),
        dma.slots() <= usize::MAX,
    ensures
        cqe is None ==> completion_of(dma, queue_id, cqe) is None && fault_of(
            dma,
            queue_id,
            cqe,
        ) is None,
        cqe is Some ==> (completion_of(dma, queue_id, cqe) is Some <==> fault_of(
            dma,
            queue_id,
            cqe,
        ) is None),
        completion_of(dma, queue_id, cqe) matches Some(done) ==> {
            let address = cqe->0.command_desc_base_addr;
            &&& done.cqe == cqe
            &&& done.queue_id == queue_id
            &&& done.task_tag.0 < dma.slots()
            &&& dma.ucd_addr + done.task_tag.0 * 5120 == address - address % 128
        },
        fault_of(dma, queue_id, cqe) matches Some(fault) ==> fault.queue_id == Some(queue_id),
        forall|tag: int|
            cqe is Some && 0 <= tag < dma.slots() && tag < 256 && #[trigger] dma.ucd_address(tag)
                == cqe->0.command_desc_base_addr - cqe->0.command_desc_base_addr % 128
                ==> completion_of(dma, queue_id, cqe) is Some,
{
    if cqe is Some {
        if let Ok(tag) = dma.tag_of(cqe->0) {
            crate::dma::law_named_slot_holds_the_address(dma, cqe->0, tag);
        }
    }
}

/// A submission queue takes a command unless its head cannot be read, or is not
/// the offset of a slot, or the entry would fill the ring, or the command has no
/// slot.
pub proof fn law_submission_queue_refuses(
    q: McqView,
    dma: DmaView,
    tag: u32,
    offset: u32,
    e: Error,
)
    requires
        q.valid(),
    ensures
        McqHardwareQueue::refusal(q, dma, tag, Err(e)) == Some(e),
        ({
            let r = McqHardwareQueue::refusal(q, dma, tag, Ok(offset));
            let head = (offset / 32) as nat;
            if offset % 32 != 0 || head >= q.max_entries {
                r == Some(Error::EINVAL)
            } else if mcq::ring_len(head, q.sq_tail, q.max_entries) + 1 == q.max_entries {
                r == Some(Error::EBUSY)
            } else if tag >= dma.slots() {
                r == Some(Error::ERANGE)
            } else {
                r is None
            }
        }),
{
}

/// The bit of a tag, tested by its mask.
proof fn lemma_mask_tests_bit(mask: u32, tag: u32)
    requires
        tag < 32,
    ensures
        mask & (1u32 << tag) != 0 <==> bit(mask, tag),
{
    assert((mask & (1u32 << tag) != 0) == ((mask >> tag) & 1 == 1)) by (bit_vector)
        requires
            tag < 32,
    ;
}

/// What submitting through the single doorbell does: a prepared request goes to a
/// tag below 32 that is not outstanding; the write rings the bit of the tag and no
/// other; the tag is outstanding from then on, and polled for if asked; every other
/// tag is as before. A request that is refused leaves everything alone.
pub proof fn law_sdb_submission(
    state: &mut SdbCompletionState,
    request: &mut UfsRequestInner,
    queue_id: u32,
    tag: u32,
    polled: bool,
    r: SubmissionOutcome,
    other: u32,
)
    requires
        old(state).wf(),
        call_ensures(SdbCompletionState::submit, (state, request, queue_id, tag, polled), r),
        other < 32,
    ensures
        ({
            let free = tag < 32 && !bit(old(state).outstanding, tag);
            &&& r is Submitted <==> free && old(request).state is Prepared
            &&& tag >= 32 ==> r == SubmissionOutcome::NotSubmitted(Error::EINVAL)
            &&& tag < 32 && !free ==> r == SubmissionOutcome::NotSubmitted(Error::EBUSY)
            &&& free && !(old(request).state is Prepared) ==> r == SubmissionOutcome::NotSubmitted(
                Error::EIO,
            )
            &&& r is NotSubmitted ==> *final(state) == *old(state) && final(request).state == old(
                request,
            ).state
            &&& r matches SubmissionOutcome::Submitted(op) ==> {
                &&& op matches RegOp::Write { offset, value } && offset == 0x58 && (bit(
                    value,
                    other,
                ) <==> other == tag)
                &&& bit(final(state).outstanding, tag)
                &&& bit(final(state).polled, tag) <==> polled
                &&& other != tag ==> {
                    &&& bit(final(state).outstanding, other) == bit(old(state).outstanding, other)
                    &&& bit(final(state).polled, other) == bit(old(state).polled, other)
                }
                &&& final(request).state.submitted_to() == Some(queue_id)
                &&& final(request).state.held() == old(request).state.held()
                &&& final(request).state is InFlight
            }
        }),
{
    if tag < 32 {
        lemma_mask_tests_bit(old(state).outstanding, tag);
        law_sdb_submission_is_of_one_tag(*old(state), tag, other, polled);
    }
}

/// What collecting from the single doorbell does: a tag is collected exactly when
/// it is put into the batch; only a tag that is outstanding, whose bit the
/// controller has cleared, and that is for the one who looks, is; and such a tag is
/// left only when the batch is full.
pub proof fn law_sdb_collection(
    state: &mut SdbCompletionState,
    doorbell: u32,
    source: SdbCompletionSource,
    requests: &mut CompletedRequests,
    r: Result<(), Error>,
    tag: u32,
)
    requires
        old(state).wf(),
        old(requests).wf(),
        call_ensures(SdbCompletionState::collect, (state, doorbell, source, requests), r),
        tag < 32,
    ensures
        ({
            let before = old(requests)@.inserted.len();
            let new = final(requests)@.inserted.skip(before as int);
            let done = bit(old(state).outstanding, tag) && !bit(doorbell, tag) && (bit(
                old(state).polled,
                tag,
            ) <==> source is Poll);
            let taken = exists|k: int|
                0 <= k < new.len() && (#[trigger] new[k]).task_tag.0 == tag;
            &&& r is Ok
            &&& taken ==> done
            &&& done && !taken ==> final(requests)@.inserted.len() == 16
            &&& bit(final(state).outstanding, tag) <==> bit(old(state).outstanding, tag) && !taken
            &&& final(requests)@.inserted.take(before as int) == old(requests)@.inserted
        }),
{
    let eligible = old(state).eligible(doorbell, source);
    let tags = sdb_fitting(old(requests)@, eligible);
    let before = old(requests)@.inserted.len();
    let new = final(requests)@.inserted.skip(before as int);
    let mapped = tags.map_values(|tag: u32| sdb_completion(tag));
    assert(new =~= mapped);
    assert(final(requests)@.inserted.take(before as int) =~= old(requests)@.inserted);
    let mask = choose|mask: u32|
        {
            &&& *final(state) == old(state).collected(mask)
            &&& mask & !eligible == 0
            &&& forall|i: u32| i < 32 ==> (#[trigger] bit(mask, i) <==> tags.contains(i))
        };
    law_sdb_collects_done_commands(*old(state), doorbell, tag);
    law_sdb_collection_frees_tags(*old(state), mask, tag);
    law_sdb_batch_takes_lowest_tags(old(requests)@, eligible, tag);
    lemma_tags_below(eligible, 32);
    assert(bit(mask, tag) <==> tags.contains(tag));
    let taken = exists|k: int| 0 <= k < new.len() && (#[trigger] new[k]).task_tag.0 == tag;
    if tags.contains(tag) {
        let k = choose|k: int| 0 <= k < tags.len() && tags[k] == tag;
        assert(new[k].task_tag.0 == tag);
    }
    if taken {
        let k = choose|k: int| 0 <= k < new.len() && (#[trigger] new[k]).task_tag.0 == tag;
        assert(tags[k] < 32) by {
            assert(tags_below(eligible, 32)[k] < 32);
        }
        assert(tags[k] == tag);
    }
}

/// Completions come out of a batch in the order in which they went in, each once.
pub proof fn law_batch_is_taken_in_order(
    batch: &mut CompletedRequests,
    first: Option<CompletedRequest>,
    rest: &mut CompletedRequests,
    second: Option<CompletedRequest>,
)
    requires
        old(batch).wf(),
        call_ensures(CompletedRequests::take_next, (batch,), first),
        *old(rest) == *final(batch),
        call_ensures(CompletedRequests::take_next, (rest,), second),
    ensures
        ({
            let left = old(batch)@.inserted.skip(old(batch)@.taken as int);
            &&& left.len() >= 1 ==> first == Some(left[0])
            &&& left.len() >= 2 ==> second == Some(left[1])
            &&& left.len() == 0 ==> first is None
            &&& left.len() <= 1 ==> second is None
        }),
{
}

/// What submitting through a circular queue does: the slot's descriptor is put
/// where the tail stood, every other entry stays, and the write moves the tail one
/// slot on, 4 bytes into the queue's doorbell region and in bytes. The ring never
/// fills up.
pub proof fn law_mcq_submission(
    queue: &mut UfsMcqQueue,
    dma: UfsDma,
    request: &mut UfsRequestInner,
    tag: u32,
    offset: u32,
    r: SubmissionOutcome,
    slot: int,
)
    requires
        old(queue).wf(),
        dma.wf(),
        call_ensures(McqHardwareQueue::submit, (queue, &dma, request, tag, Ok(offset)), r),
        0 <= slot < old(queue)@.max_entries,
    ensures
        ({
            let q = old(queue)@;
            let head = (offset / 32) as nat;
            let room = mcq::ring_len(head, q.sq_tail, q.max_entries) + 1 < q.max_entries;
            let named = offset % 32 == 0 && head < q.max_entries;
            &&& r is Submitted <==> named && room && tag < dma@.slots() && old(
                request,
            ).state is Prepared
            &&& r matches SubmissionOutcome::Submitted(op) ==> {
                let after = final(queue)@;
                &&& after.sqe[slot] == if slot == q.sq_tail {
                    dma@.utrdl[tag as int]
                } else {
                    q.sqe[slot]
                }
                &&& after.sq_tail == (q.sq_tail + 1) as int % q.max_entries as int
                &&& op matches RegOp::Write { offset: place, value } && {
                    &&& place == q.oprs.sqd.offset + q.oprs.sqd.stride * q.id + 4
                    &&& value == 32 * after.sq_tail
                }
                &&& mcq::ring_len(head, after.sq_tail, q.max_entries) == mcq::ring_len(
                    head,
                    q.sq_tail,
                    q.max_entries,
                ) + 1
                &&& final(request).state.submitted_to() == Some(q.id)
                &&& final(request).state.held() == old(request).state.held()
            }
            &&& r is NotSubmitted ==> final(queue)@.sq_tail == q.sq_tail && final(request).state == old(request).state
        }),
{
    let q = old(queue)@;
    law_submission_queue_refuses(q, dma@, tag, offset, Error::EIO);
    if r is Submitted {
        let entry = dma@.utrdl[tag as int];
        mcq::law_submission_fills_tail(q, entry, slot);
        mcq::law_sq_has_room(q, (offset / 32) as nat, entry);
        let id = q.id as usize;
        assert(q.oprs.addressable(id));
        assert(0 <= q.oprs.sqd.stride * id) by (nonlinear_arith)
            requires
                0 <= q.oprs.sqd.stride,
                0 <= id,
        ;
    }
}

/// What collecting from a circular queue does: what is taken is a first part of
/// what the queue held up to the tail that the controller reports, every entry of
/// it that leads to a command is in the batch, in order, and the rest stays. The
/// controller is told the new head, if anything was taken.
pub proof fn law_mcq_collection(
    queue: &mut UfsMcqQueue,
    dma: UfsDma,
    tail_offset: u32,
    requests: &mut CompletedRequests,
    r: Result<Option<RegOp>, Error>,
)
    requires
        old(queue).wf(),
        dma.wf(),
        old(requests).wf(),
        call_ensures(
            McqHardwareQueue::collect_completions,
            (queue, &dma, tail_offset, requests),
            r,
        ),
    ensures
        ({
            let q = old(queue)@;
            let tail = (tail_offset / 32) as nat;
            let named = tail_offset % 32 == 0 && tail < q.max_entries;
            &&& r is Ok <==> named
            &&& !named ==> r == Err::<Option<RegOp>, Error>(Error::EINVAL) && final(queue)@ == q
                && final(requests)@ == old(requests)@
            &&& named ==> {
                let held = pending(McqView { cq_tail: tail, ..q });
                let left = pending(final(queue)@);
                let taken = held.len() - left.len();
                &&& 0 <= taken
                &&& left == held.skip(taken)
                &&& left.len() == 0 || final(requests)@.inserted.len() == 16
                &&& final(requests)@.inserted == old(requests)@.inserted + completions_of(
                    dma@,
                    q.id,
                    held.take(taken),
                )
                &&& r matches Ok(Some(op)) ==> op == final(queue).cq_head_write()
                &&& r->Ok_0 is None <==> q.cq_head == tail || old(requests)@.full()
            }
        }),
{
    let q = old(queue)@;
    let tail = (tail_offset / 32) as nat;
    if tail_offset % 32 == 0 && tail < q.max_entries {
        law_drain_loses_nothing(McqView { cq_tail: tail, ..q }, old(requests)@, dma@);
    }
}

} // verus!
