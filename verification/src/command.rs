//! Controller-wide UFS command slot management.

use vstd::prelude::*;

use crate::error::Error;

verus! {

/// Number of task tags that a UPIU header can carry.
pub const TASK_TAG_COUNT: usize = 256;

/// A controller-wide task tag.
#[derive(Clone, Copy, Debug, PartialEq, Eq, Structural)]
pub struct TaskTag(pub u8);

impl TaskTag {
    /// A tag from a block-layer budget token.
    pub fn new(tag: u32) -> (r: Result<Self, Error>)
        ensures
            r == (if tag < TASK_TAG_COUNT {
                Ok::<TaskTag, Error>(TaskTag(tag as u8))
            } else {
                Err(Error::EINVAL)
            }),
    {
        match u8::try_from(tag) {
            Ok(tag) => Ok(TaskTag(tag)),
            Err(_) => Err(Error::EINVAL),
        }
    }

    /// A tag from a descriptor index.
    pub fn from_index(tag: usize) -> (r: Result<Self, Error>)
        ensures
            r == (if tag < TASK_TAG_COUNT {
                Ok::<TaskTag, Error>(TaskTag(tag as u8))
            } else {
                Err(Error::EINVAL)
            }),
    {
        match u8::try_from(tag) {
            Ok(tag) => Ok(TaskTag(tag)),
            Err(_) => Err(Error::EINVAL),
        }
    }

    /// The tag as it stands in a UPIU header.
    pub fn value(self) -> (r: u8)
        ensures
            r == self.0,
    {
        self.0
    }

    /// The tag as a descriptor index.
    pub fn index(self) -> (r: usize)
        ensures
            r == self.0,
    {
        self.0 as usize
    }
}

/// The block-layer request that a command slot is bound to.
#[derive(Clone, Copy, Debug, PartialEq, Eq, Structural)]
pub struct CommandOwner {
    /// Hardware queue that the request was submitted to.
    pub queue_id: u32,
    /// Block-layer tag of the request in that queue.
    pub blk_tag: u32,
}

/// State of one command slot.
#[derive(Clone, Copy, Debug, PartialEq, Eq, Structural)]
pub enum CommandSlotState {
    /// Nobody uses the slot.
    Free,
    /// A budget token was handed out for the slot.
    Reserved,
    /// A request was composed into the slot.
    Bound(CommandOwner),
}

/// Number of slots that are in use.
pub open spec fn busy(slots: Seq<CommandSlotState>) -> nat
    decreases slots.len(),
{
    if slots.len() == 0 {
        0
    } else {
        busy(slots.drop_last()) + if slots.last() is Free {
            0nat
        } else {
            1nat
        }
    }
}

/// What a command pool holds: the slots, how many of them may be handed out as
/// tags, and how many may be in use at one time.
#[verifier::ext_equal]
pub struct PoolView {
    pub slots: Seq<CommandSlotState>,
    pub tag_count: nat,
    pub max_active: nat,
}

impl PoolView {
    /// The limits are consistent, no more slots are in use than allowed, and no
    /// slot outside the tag range is in use.
    pub open spec fn valid(self) -> bool {
        &&& self.slots.len() == TASK_TAG_COUNT
        &&& 0 < self.max_active <= self.tag_count <= TASK_TAG_COUNT
        &&& busy(self.slots) <= self.max_active
        &&& forall|i: int| self.tag_count <= i < TASK_TAG_COUNT ==> self.slots[i] is Free
    }

    /// `tag` is the free slot with the lowest number.
    pub open spec fn lowest_free(self, tag: int) -> bool {
        &&& 0 <= tag < self.tag_count
        &&& self.slots[tag] is Free
        &&& forall|i: int| 0 <= i < tag ==> !(self.slots[i] is Free)
    }

    /// The pool with slot `tag` in state `state`.
    pub open spec fn with_slot(self, tag: int, state: CommandSlotState) -> PoolView {
        PoolView { slots: self.slots.update(tag, state), ..self }
    }
}

/// A pool of command slots.
pub struct CommandPool {
    slots: [CommandSlotState; TASK_TAG_COUNT],
    tag_count: usize,
    max_active: usize,
    active: usize,
}

impl View for CommandPool {
    type V = PoolView;

    closed spec fn view(&self) -> PoolView {
        PoolView {
            slots: self.slots@,
            tag_count: self.tag_count as nat,
            max_active: self.max_active as nat,
        }
    }
}

impl CommandPool {
    /// The view is valid and the counter of active commands is exact.
    pub closed spec fn wf(&self) -> bool {
        &&& self@.valid()
        &&& self.active == busy(self.slots@)
    }

    /// A pool of `tag_count` tags of which `max_active` may be in use at once.
    pub fn new(tag_count: usize, max_active: usize) -> (r: Result<Self, Error>)
        ensures
            r is Ok <==> 0 < max_active <= tag_count <= TASK_TAG_COUNT,
            match r {
                Ok(pool) => {
                    &&& pool.wf()
                    &&& pool@.slots == Seq::new(
                        TASK_TAG_COUNT as nat,
                        |i: int| CommandSlotState::Free,
                    )
                    &&& pool@.tag_count == tag_count
                    &&& pool@.max_active == max_active
                },
                Err(e) => e == Error::EINVAL,
            },
    {
        if tag_count == 0 || tag_count > TASK_TAG_COUNT || max_active == 0 || max_active
            > tag_count {
            return Err(Error::EINVAL);
        }
        let slots = [CommandSlotState::Free; TASK_TAG_COUNT];
        assert(slots@ =~= Seq::new(TASK_TAG_COUNT as nat, |i: int| CommandSlotState::Free));
        proof {
            lemma_busy_none(slots@);
        }
        Ok(CommandPool { slots, tag_count, max_active, active: 0 })
    }

    /// Reserves the free slot with the lowest tag, unless the limit of active
    /// commands is reached.
    pub fn reserve(&mut self) -> (r: Option<TaskTag>)
        requires
            old(self).wf(),
        ensures
            final(self).wf(),
            r is None <==> busy(old(self)@.slots) == old(self)@.max_active,
            match r {
                Some(tag) => {
                    &&& old(self)@.lowest_free(tag.0 as int)
                    &&& final(self)@ == old(self)@.with_slot(
                        tag.0 as int,
                        CommandSlotState::Reserved,
                    )
                },
                None => final(self)@ == old(self)@,
            },
    {
        if self.active == self.max_active {
            return None;
        }
        let mut tag: usize = 0;
        while tag < self.tag_count
            invariant
                self@ == old(self)@,
                self.wf(),
                self.active < self.max_active,
                tag <= self.tag_count,
                forall|i: int| 0 <= i < tag ==> !(self.slots@[i] is Free),
            decreases self.tag_count - tag,
        {
            if matches!(self.slots[tag], CommandSlotState::Free) {
                let ghost before = self.slots@;
                self.slots[tag] = CommandSlotState::Reserved;
                self.active = self.active + 1;
                proof {
                    lemma_busy_update(before, tag as int, CommandSlotState::Reserved);
                    assert(self@ =~= old(self)@.with_slot(tag as int, CommandSlotState::Reserved));
                }
                return match u8::try_from(tag) {
                    Ok(tag) => Some(TaskTag(tag)),
                    Err(_) => None,
                };
            }
            tag = tag + 1;
        }
        proof {
            lemma_busy_prefix(self.slots@, self.tag_count as int);
        }
        None
    }

    /// Binds a reserved slot to the request that was composed into it.
    pub fn bind(&mut self, task_tag: TaskTag, owner: CommandOwner) -> (r: Result<(), Error>)
        requires
            old(self).wf(),
        ensures
            final(self).wf(),
            r is Ok <==> old(self)@.slots[task_tag.0 as int] is Reserved,
            match r {
                Ok(()) => final(self)@ == old(self)@.with_slot(
                    task_tag.0 as int,
                    CommandSlotState::Bound(owner),
                ),
                Err(e) => e == Error::EIO && final(self)@ == old(self)@,
            },
    {
        let index = task_tag.index();
        if !matches!(self.slots[index], CommandSlotState::Reserved) {
            return Err(Error::EIO);
        }
        let ghost before = self.slots@;
        self.slots[index] = CommandSlotState::Bound(owner);
        proof {
            lemma_busy_update(before, index as int, CommandSlotState::Bound(owner));
            assert(self@ =~= old(self)@.with_slot(index as int, CommandSlotState::Bound(owner)));
        }
        Ok(())
    }

    /// The request that a slot is bound to.
    pub fn owner(&self, task_tag: TaskTag) -> (r: Option<CommandOwner>)
        requires
            self.wf(),
        ensures
            r == (match self@.slots[task_tag.0 as int] {
                CommandSlotState::Bound(owner) => Some(owner),
                _ => None,
            }),
    {
        match self.slots[task_tag.index()] {
            CommandSlotState::Bound(owner) => Some(owner),
            _ => None,
        }
    }

    /// The request that a slot is bound to, as error recovery needs it: a slot
    /// that is reserved but not yet bound cannot be recovered.
    pub fn recovery_owner(&self, task_tag: TaskTag) -> (r: Result<Option<CommandOwner>, Error>)
        requires
            self.wf(),
        ensures
            r == (match self@.slots[task_tag.0 as int] {
                CommandSlotState::Free => Ok::<Option<CommandOwner>, Error>(None),
                CommandSlotState::Reserved => Err(Error::EBUSY),
                CommandSlotState::Bound(owner) => Ok(Some(owner)),
            }),
    {
        match self.slots[task_tag.index()] {
            CommandSlotState::Free => Ok(None),
            CommandSlotState::Reserved => Err(Error::EBUSY),
            CommandSlotState::Bound(owner) => Ok(Some(owner)),
        }
    }

    /// Gives a slot back.
    pub fn release(&mut self, task_tag: TaskTag) -> (r: Result<(), Error>)
        requires
            old(self).wf(),
        ensures
            final(self).wf(),
            r is Ok <==> !(old(self)@.slots[task_tag.0 as int] is Free),
            match r {
                Ok(()) => final(self)@ == old(self)@.with_slot(
                    task_tag.0 as int,
                    CommandSlotState::Free,
                ),
                Err(e) => e == Error::EIO && final(self)@ == old(self)@,
            },
    {
        let index = task_tag.index();
        if matches!(self.slots[index], CommandSlotState::Free) {
            return Err(Error::EIO);
        }
        proof {
            lemma_busy_update(self.slots@, index as int, CommandSlotState::Free);
        }
        let active = match self.active.checked_sub(1) {
            Some(active) => active,
            None => return Err(Error::EIO),
        };
        self.slots[index] = CommandSlotState::Free;
        self.active = active;
        assert(self@ =~= old(self)@.with_slot(index as int, CommandSlotState::Free));
        Ok(())
    }

    /// Number of slots in use.
    pub fn active(&self) -> (r: usize)
        requires
            self.wf(),
        ensures
            r == busy(self@.slots),
            r <= self@.max_active <= TASK_TAG_COUNT,
    {
        self.active
    }
}

/// A well-formed pool holds what a pool may hold.
pub(crate) proof fn lemma_pool_is_valid(pool: CommandPool)
    requires
        pool.wf(),
    ensures
        pool@.valid(),
{
}

/// When no slot is in use, none counts as one.
pub(crate) proof fn lemma_busy_none(slots: Seq<CommandSlotState>)
    requires
        forall|i: int| 0 <= i < slots.len() ==> slots[i] is Free,
    ensures
        busy(slots) == 0,
    decreases slots.len(),
{
    if slots.len() > 0 {
        lemma_busy_none(slots.drop_last());
    }
}

proof fn lemma_busy_update(slots: Seq<CommandSlotState>, i: int, state: CommandSlotState)
    requires
        0 <= i < slots.len(),
    ensures
        busy(slots.update(i, state)) + (if slots[i] is Free {
            0int
        } else {
            1int
        }) == busy(slots) + (if state is Free {
            0int
        } else {
            1int
        }),
    decreases slots.len(),
{
    if i == slots.len() - 1 {
        assert(slots.update(i, state).drop_last() =~= slots.drop_last());
    } else {
        lemma_busy_update(slots.drop_last(), i, state);
        assert(slots.update(i, state).drop_last() =~= slots.drop_last().update(i, state));
    }
}

/// If every one of the first `n` slots is in use, at least `n` slots are.
proof fn lemma_busy_prefix(slots: Seq<CommandSlotState>, n: int)
    requires
        0 <= n <= slots.len(),
        forall|i: int| 0 <= i < n ==> !(slots[i] is Free),
    ensures
        busy(slots) >= n,
    decreases slots.len(),
{
    if slots.len() > 0 {
        let rest = slots.drop_last();
        if n == slots.len() {
            lemma_busy_prefix(rest, n - 1);
        } else {
            lemma_busy_prefix(rest, n);
        }
    }
}

/// Releasing a slot undoes its reservation, whether or not it was bound in
/// between: the pool is what it was before.
pub proof fn law_release_undoes_reserve(pool: PoolView, tag: int, owner: CommandOwner)
    requires
        pool.valid(),
        pool.lowest_free(tag),
    ensures
        pool.with_slot(tag, CommandSlotState::Reserved).with_slot(tag, CommandSlotState::Free)
            == pool,
        pool.with_slot(tag, CommandSlotState::Reserved).with_slot(
            tag,
            CommandSlotState::Bound(owner),
        ).with_slot(tag, CommandSlotState::Free) == pool,
{
    assert(pool.with_slot(tag, CommandSlotState::Reserved).with_slot(
        tag,
        CommandSlotState::Free,
    ).slots =~= pool.slots);
    assert(pool.with_slot(tag, CommandSlotState::Reserved).with_slot(
        tag,
        CommandSlotState::Bound(owner),
    ).with_slot(tag, CommandSlotState::Free).slots =~= pool.slots);
}

/// A tag that is in use is never handed out again: the tag that the next
/// reservation finds differs from every tag in use.
pub proof fn law_reserved_tags_are_distinct(pool: PoolView, in_use: int, next: int)
    requires
        pool.valid(),
        0 <= in_use < pool.slots.len(),
        !(pool.slots[in_use] is Free),
        pool.lowest_free(next),
    ensures
        next != in_use,
{
}

/// A slot that is not at its limit always has a tag to hand out.
pub proof fn law_below_limit_a_tag_is_free(pool: PoolView)
    requires
        pool.valid(),
        busy(pool.slots) < pool.max_active,
    ensures
        exists|tag: int| pool.lowest_free(tag),
{
    if forall|i: int| 0 <= i < pool.tag_count ==> !(pool.slots[i] is Free) {
        lemma_busy_prefix(pool.slots, pool.tag_count as int);
    } else {
        let some = choose|i: int| 0 <= i < pool.tag_count && pool.slots[i] is Free;
        lemma_first_free(pool, some);
    }
}

proof fn lemma_first_free(pool: PoolView, some: int)
    requires
        0 <= some < pool.tag_count,
        pool.slots[some] is Free,
    ensures
        exists|tag: int| pool.lowest_free(tag),
    decreases some,
{
    if forall|i: int| 0 <= i < some ==> !(pool.slots[i] is Free) {
        assert(pool.lowest_free(some));
    } else {
        let lower = choose|i: int| 0 <= i < some && pool.slots[i] is Free;
        lemma_first_free(pool, lower);
    }
}

/// Reserving, binding and releasing slots keep the pool valid, and change the
/// number of slots in use by exactly one, not at all, and by exactly one.
pub proof fn law_pool_stays_valid(pool: PoolView, tag: int, owner: CommandOwner)
    requires
        pool.valid(),
        0 <= tag < TASK_TAG_COUNT,
    ensures
        pool.lowest_free(tag) && busy(pool.slots) < pool.max_active ==> {
            let next = pool.with_slot(tag, CommandSlotState::Reserved);
            next.valid() && busy(next.slots) == busy(pool.slots) + 1
        },
        pool.slots[tag] is Reserved ==> {
            let next = pool.with_slot(tag, CommandSlotState::Bound(owner));
            next.valid() && busy(next.slots) == busy(pool.slots)
        },
        !(pool.slots[tag] is Free) ==> {
            let next = pool.with_slot(tag, CommandSlotState::Free);
            next.valid() && busy(next.slots) == busy(pool.slots) - 1
        },
{
    lemma_busy_update(pool.slots, tag, CommandSlotState::Reserved);
    lemma_busy_update(pool.slots, tag, CommandSlotState::Bound(owner));
    lemma_busy_update(pool.slots, tag, CommandSlotState::Free);
}

/// The number of slots in use is the number of slots that are not free.
pub proof fn law_busy_counts_used_slots(slots: Seq<CommandSlotState>)
    ensures
        busy(slots) == slots.filter(|s: CommandSlotState| !(s is Free)).len(),
    decreases slots.len(),
{
    reveal(Seq::filter);
    if slots.len() > 0 {
        law_busy_counts_used_slots(slots.drop_last());
    }
}

/// The tag that is handed out is the lowest one that is free: it is within the
/// tags, it is free, and every lower one is in use.
pub proof fn law_lowest_tag_is_handed_out(pool: PoolView, tag: int, i: int)
    requires
        pool.valid(),
        pool.lowest_free(tag),
        0 <= i < 256,
    ensures
        0 <= tag < pool.tag_count,
        pool.slots[tag] is Free,
        i < tag ==> !(pool.slots[i] is Free),
        pool.slots[i] is Free ==> tag <= i,
        pool.slots.len() == 256,
        pool.tag_count <= 256,
{
}

/// Changing the state of one slot changes that slot and no other, and neither of
/// the limits.
pub proof fn law_slots_change_one_by_one(pool: PoolView, tag: int, state: CommandSlotState, i: int)
    requires
        pool.valid(),
        0 <= tag < 256,
        0 <= i < 256,
    ensures
        ({
            let next = pool.with_slot(tag, state);
            &&& next.slots[i] == if i == tag {
                state
            } else {
                pool.slots[i]
            }
            &&& next.tag_count == pool.tag_count
            &&& next.max_active == pool.max_active
        }),
{
}

/// A slot that is reserved, bound and released is free again, belongs to its
/// request in between and to nobody before, and every other slot is as it was.
pub proof fn law_slot_goes_through(
    pool: &mut CommandPool,
    tag: Option<TaskTag>,
    bound: &mut CommandPool,
    owner: CommandOwner,
    first: Result<(), Error>,
    found: Option<CommandOwner>,
    freed: &mut CommandPool,
    second: Result<(), Error>,
)
    requires
        old(pool).wf(),
        call_ensures(CommandPool::reserve, (pool,), tag),
        tag is Some,
        *old(bound) == *final(pool),
        call_ensures(CommandPool::bind, (bound, tag->0, owner), first),
        call_ensures(CommandPool::owner, (final(bound), tag->0), found),
        *old(freed) == *final(bound),
        call_ensures(CommandPool::release, (freed, tag->0), second),
    ensures
        first is Ok,
        found == Some(owner),
        second is Ok,
        final(freed)@ == old(pool)@,
        busy(final(pool)@.slots) == busy(old(pool)@.slots) + 1,
{
    let TaskTag(index) = tag->0;
    let t = index as int;
    law_release_undoes_reserve(old(pool)@, t, owner);
    lemma_busy_update(old(pool)@.slots, t, CommandSlotState::Reserved);
    assert(old(pool)@.slots[t] is Free);
}

/// A slot that is not reserved cannot be bound, and one that is free cannot be
/// released.
pub proof fn law_slots_are_not_mixed_up(
    pool: &mut CommandPool,
    tag: TaskTag,
    owner: CommandOwner,
    r: Result<(), Error>,
    other: &mut CommandPool,
    second: Result<(), Error>,
)
    requires
        old(pool).wf(),
        call_ensures(CommandPool::bind, (pool, tag, owner), r),
        old(other).wf(),
        call_ensures(CommandPool::release, (other, tag), second),
    ensures
        r is Ok <==> old(pool)@.slots[tag.0 as int] is Reserved,
        r is Err ==> r == Err::<(), Error>(Error::EIO) && final(pool)@ == old(pool)@,
        second is Ok <==> !(old(other)@.slots[tag.0 as int] is Free),
        second is Err ==> second == Err::<(), Error>(Error::EIO) && final(other)@ == old(other)@,
{
}

/// A tag that is bound belongs to the request that it was bound to. One that is free
/// belongs to nobody, and one that is reserved is still on its way.
pub proof fn law_owner_of_tag(
    pool: CommandPool,
    task_tag: TaskTag,
    r: Result<Option<CommandOwner>, Error>,
)
    requires
        pool.wf(),
        call_ensures(CommandPool::recovery_owner, (&pool, task_tag), r),
    ensures
        r == Ok::<Option<CommandOwner>, Error>(None) <==> pool@.slots[task_tag.0 as int] is Free,
        r is Err <==> pool@.slots[task_tag.0 as int] is Reserved,
        r is Err ==> r == Err::<Option<CommandOwner>, Error>(Error::EBUSY),
        r matches Ok(Some(owner)) ==> pool@.slots[task_tag.0 as int] == CommandSlotState::Bound(owner),
{
}

/// The tag that is handed out was free, and every lower one is in use. There is one
/// as long as fewer tags are in use than may be.
pub proof fn law_reserved_tag_is_the_lowest(pool: &mut CommandPool, r: Option<TaskTag>, i: int)
    requires
        old(pool).wf(),
        call_ensures(CommandPool::reserve, (pool,), r),
        0 <= i < 256,
    ensures
        r is None <==> busy(old(pool)@.slots) == old(pool)@.max_active,
        r is None ==> final(pool)@ == old(pool)@,
        r matches Some(tag) ==> {
            &&& tag.0 < old(pool)@.tag_count
            &&& i < tag.0 ==> !(old(pool)@.slots[i] is Free)
            &&& i == tag.0 ==> old(pool)@.slots[i] is Free && final(pool)@.slots[i] is Reserved
            &&& i != tag.0 ==> final(pool)@.slots[i] == old(pool)@.slots[i]
            &&& final(pool)@.tag_count == old(pool)@.tag_count && final(pool)@.max_active
                == old(pool)@.max_active
        },
{
    lemma_pool_is_valid(*old(pool));
}

} // verus!
