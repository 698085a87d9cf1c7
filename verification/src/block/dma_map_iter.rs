//! Mapping the segments of a block request for DMA, one after the other.

use vstd::prelude::*;

use crate::block::{BlkError, DataDirection, BLK_STS_IOERR, BLK_STS_OK, BLK_STS_RESOURCE};

verus! {

/// How a mapping reaches peer memory.
#[derive(Clone, Copy, Debug, PartialEq, Eq, Structural)]
pub enum P2pdmaMap {
    /// Not known yet.
    Unknown,
    /// The memory is not a peer's.
    NotPeer,
    /// The peer cannot be reached.
    NotSupported,
    /// By its bus address.
    BusAddress,
    /// Through the host bridge.
    ThruHostBridge,
}

/// A descriptor of a memory segment that is mapped for DMA.
#[derive(Clone, Copy, Debug, PartialEq, Eq, Structural)]
pub struct DmaVector {
    pub address: u64,
    pub length: u32,
}

/// Total length of mapped segments.
pub open spec fn total_length(vectors: Seq<DmaVector>) -> nat
    decreases vectors.len(),
{
    if vectors.len() == 0 {
        0
    } else {
        total_length(vectors.drop_last()) + vectors.last().length as nat
    }
}

/// State of the platform's iterator after a step.
#[derive(Clone, Copy, Debug, PartialEq, Eq, Structural)]
pub struct IterStep {
    /// A segment was mapped.
    pub ok: bool,
    /// Block-layer status of the iterator.
    pub status: u8,
    /// Address of the current segment.
    pub address: u64,
    /// Length of the current segment.
    pub length: u32,
    /// How the mapping reaches peer memory.
    pub map_type: P2pdmaMap,
}

/// The error that the iterator's status stands for. An iterator that stopped
/// without an error ran out of segments too early.
pub open spec fn iterator_failure(status: u8) -> BlkError {
    if status == BLK_STS_OK {
        BlkError { status: BLK_STS_IOERR }
    } else {
        BlkError { status }
    }
}

/// Segments that were mapped, at most `N`.
pub struct DmaMapping<const N: usize> {
    dma_vectors: Vec<DmaVector>,
    mapped_length: usize,
    direction: DataDirection,
    map_type: P2pdmaMap,
}

/// Segments, direction and kind of a mapping.
#[verifier::ext_equal]
pub struct MappingView {
    pub vectors: Seq<DmaVector>,
    pub direction: DataDirection,
    pub map_type: P2pdmaMap,
}

impl<const N: usize> View for DmaMapping<N> {
    type V = MappingView;

    closed spec fn view(&self) -> MappingView {
        MappingView {
            vectors: self.dma_vectors@,
            direction: self.direction,
            map_type: self.map_type,
        }
    }
}

/// What the platform is told when it is asked to release a mapping as a whole.
#[derive(Clone, Copy, Debug, PartialEq, Eq, Structural)]
pub struct WholeUnmap {
    /// Total length of the mapped segments.
    pub length: usize,
    /// How the mapping reaches peer memory.
    pub map_type: P2pdmaMap,
    /// Direction of the mapping.
    pub direction: DataDirection,
}

impl MappingView {
    /// What the platform is told when it is asked to release the mapping as a
    /// whole.
    pub open spec fn whole(self) -> WholeUnmap {
        WholeUnmap {
            length: total_length(self.vectors) as usize,
            map_type: self.map_type,
            direction: self.direction,
        }
    }
}

/// The mappings that have to be undone one by one.
pub struct UnmapPlan {
    /// The mapped segments.
    pub vectors: Vec<DmaVector>,
    /// Direction of the mappings.
    pub direction: DataDirection,
    /// The segments are device memory.
    pub mmio: bool,
}

impl<const N: usize> DmaMapping<N> {
    /// No more than `N` segments, and their total length is known.
    pub closed spec fn wf(self) -> bool {
        &&& self.dma_vectors@.len() <= N
        &&& self.mapped_length == total_length(self.dma_vectors@)
    }

    /// The total length that is kept with the segments.
    pub closed spec fn recorded_length(self) -> usize {
        self.mapped_length
    }

    /// A mapping of no segment.
    pub fn new(direction: DataDirection) -> (r: Self)
        ensures
            r.wf(),
            r@ == (MappingView { vectors: Seq::empty(), direction, map_type: P2pdmaMap::Unknown }),
    {
        DmaMapping { dma_vectors: Vec::new(), mapped_length: 0, direction, map_type: P2pdmaMap::Unknown }
    }

    /// Adds a segment.
    pub fn add_vector(&mut self, address: u64, length: u32)
        requires
            old(self).wf(),
            old(self)@.vectors.len() < N,
            total_length(old(self)@.vectors) + length <= usize::MAX,
        ensures
            final(self).wf(),
            final(self)@.vectors.len() == old(self)@.vectors.len() + 1,
            final(self)@.vectors.len() <= N,
            final(self).recorded_length() == total_length(final(self)@.vectors),
            final(self)@ == (MappingView {
                vectors: old(self)@.vectors.push(DmaVector { address, length }),
                ..old(self)@
            }),
    {
        self.dma_vectors.push(DmaVector { address, length });
        self.mapped_length = self.mapped_length + length as usize;
        assert(self.dma_vectors@.drop_last() =~= old(self).dma_vectors@);
    }

    /// Total length of the mapped segments.
    pub fn mapped_length(&self) -> (r: usize)
        requires
            self.wf(),
        ensures
            r == total_length(self@.vectors),
    {
        self.mapped_length
    }

    /// What the platform is told when it is asked to release the mapping as a
    /// whole.
    pub fn whole(&self) -> (r: WholeUnmap)
        requires
            self.wf(),
        ensures
            r == self@.whole(),
            r.length == total_length(self@.vectors),
    {
        WholeUnmap {
            length: self.mapped_length,
            map_type: self.map_type,
            direction: self.direction,
        }
    }

    /// What is left to undo when the mapping is dropped: nothing if the platform
    /// released the mappings as a whole, else every single segment.
    pub fn release(self, released: bool) -> (r: Option<UnmapPlan>)
        ensures
            r is Some <==> !released,
            r matches Some(plan) ==> {
                &&& plan.vectors@ == self@.vectors
                &&& plan.direction == self@.direction
                &&& plan.mmio == (self@.map_type == P2pdmaMap::ThruHostBridge)
            },
    {
        if released {
            None
        } else {
            Some(
                UnmapPlan {
                    mmio: matches!(self.map_type, P2pdmaMap::ThruHostBridge),
                    direction: self.direction,
                    vectors: self.dma_vectors,
                },
            )
        }
    }
}

/// An iterator that DMA maps segments of a block request.
pub struct DmaMapIter<const N: usize> {
    address: u64,
    length: u32,
    mapping: DmaMapping<N>,
}

impl<const N: usize> DmaMapIter<N> {
    /// The segments that were mapped so far.
    pub closed spec fn mapped(self) -> MappingView {
        self.mapping@
    }

    /// The segment that the iterator is at.
    pub closed spec fn current(self) -> DmaVector {
        DmaVector { address: self.address, length: self.length }
    }

    /// The mapping is well formed and holds a segment.
    pub closed spec fn wf(self) -> bool {
        &&& self.mapping.wf()
        &&& 0 < self.mapping@.vectors.len() <= N
    }

    fn resource_error() -> (r: BlkError)
        ensures
            r == (BlkError { status: BLK_STS_RESOURCE }),
    {
        BlkError { status: BLK_STS_RESOURCE }
    }

    fn iterator_error(status: u8) -> (r: BlkError)
        ensures
            r == iterator_failure(status),
    {
        if status == BLK_STS_OK {
            BlkError { status: BLK_STS_IOERR }
        } else {
            BlkError { status }
        }
    }

    /// Whether the platform's iterator may be started, given whether there was
    /// memory for the segment descriptors; if it may not, nothing is mapped.
    pub fn may_start(allocated: bool) -> (r: Result<(), BlkError>)
        ensures
            r == (if N == 0 || !allocated {
                Err::<(), BlkError>(BlkError { status: BLK_STS_RESOURCE })
            } else {
                Ok(())
            }),
    {
        if N == 0 {
            return Err(Self::resource_error());
        }
        if !allocated {
            return Err(Self::resource_error());
        }
        Ok(())
    }

    /// Starts mapping a request, given whether there was memory for the segment
    /// descriptors and how the platform's iterator started.
    pub fn new(direction: DataDirection, allocated: bool, start: IterStep) -> (r: Result<
        Self,
        BlkError,
    >)
        ensures
            match r {
                Ok(iter) => {
                    &&& N > 0 && allocated && start.ok
                    &&& iter.wf()
                    &&& iter.current() == (DmaVector {
                        address: start.address,
                        length: start.length,
                    })
                    &&& iter.mapped() == (MappingView {
                        vectors: seq![iter.current()],
                        direction,
                        map_type: start.map_type,
                    })
                },
                Err(e) => if N == 0 || !allocated {
                    e == (BlkError { status: BLK_STS_RESOURCE })
                } else {
                    !start.ok && e == iterator_failure(start.status)
                },
            },
    {
        match Self::may_start(allocated) {
            Ok(()) => {},
            Err(e) => return Err(e),
        }
        let mut mapping = DmaMapping::<N>::new(direction);
        if !start.ok {
            return Err(Self::iterator_error(start.status));
        }
        mapping.map_type = start.map_type;
        let ghost empty = mapping@.vectors;
        mapping.add_vector(start.address, start.length);
        assert(mapping@.vectors =~= seq![
            DmaVector { address: start.address, length: start.length },
        ]);
        Ok(DmaMapIter { address: start.address, length: start.length, mapping })
    }

    /// Whether there is room for one more segment; if there is none, the
    /// platform's iterator is not advanced.
    pub fn has_room(&self) -> (r: Result<(), BlkError>)
        ensures
            r == (if self.mapped().vectors.len() == N {
                Err::<(), BlkError>(BlkError { status: BLK_STS_RESOURCE })
            } else {
                Ok(())
            }),
    {
        if self.mapping.dma_vectors.len() == N {
            return Err(Self::resource_error());
        }
        Ok(())
    }

    /// Advance the iterator to the next DMA mapped segment, given how the
    /// platform's iterator advanced.
    pub fn next(&mut self, step: IterStep) -> (r: Result<(), BlkError>)
        requires
            old(self).wf(),
            old(self).mapped().vectors.len() < N && step.ok ==> total_length(
                old(self).mapped().vectors,
            ) + step.length <= usize::MAX,
        ensures
            final(self).wf(),
            if old(self).mapped().vectors.len() == N {
                &&& r == Err::<(), BlkError>(BlkError { status: BLK_STS_RESOURCE })
                &&& *final(self) == *old(self)
            } else {
                let current = DmaVector { address: step.address, length: step.length };
                &&& final(self).current() == current
                &&& if step.ok {
                    &&& r == Ok::<(), BlkError>(())
                    &&& final(self).mapped() == (MappingView {
                        vectors: old(self).mapped().vectors.push(current),
                        ..old(self).mapped()
                    })
                } else {
                    &&& r == Err::<(), BlkError>(iterator_failure(step.status))
                    &&& final(self).mapped() == old(self).mapped()
                }
            },
    {
        match self.has_room() {
            Ok(()) => {},
            Err(e) => return Err(e),
        }
        self.address = step.address;
        self.length = step.length;
        if step.ok {
            self.mapping.add_vector(step.address, step.length);
            Ok(())
        } else {
            Err(Self::iterator_error(step.status))
        }
    }

    /// Return the DMA address of the current segment.
    pub fn address(&self) -> (r: u64)
        ensures
            r == self.current().address,
    {
        self.address
    }

    /// Return the length of the current segment.
    pub fn length(&self) -> (r: u32)
        ensures
            r == self.current().length,
    {
        self.length
    }

    /// Total length of the segments that were mapped so far.
    pub fn mapped_length(&self) -> (r: usize)
        requires
            self.wf(),
        ensures
            r == total_length(self.mapped().vectors),
    {
        self.mapping.mapped_length()
    }

    /// Consume the iterator and return the completed mapping result.
    pub fn finish(self) -> (r: DmaMapIterMapped<N>)
        requires
            self.wf(),
        ensures
            r.wf(),
            r.mapped() == self.mapped(),
    {
        DmaMapIterMapped { inner: self.mapping }
    }
}

/// A set of mapped pages produced by [`DmaMapIter`].
pub struct DmaMapIterMapped<const N: usize> {
    inner: DmaMapping<N>,
}

impl<const N: usize> DmaMapIterMapped<N> {
    /// The segments that were mapped.
    pub closed spec fn mapped(self) -> MappingView {
        self.inner@
    }

    /// The mapping is well formed.
    pub closed spec fn wf(self) -> bool {
        self.inner.wf()
    }

    #[verifier::type_invariant]
    spec fn inv(self) -> bool {
        self.wf()
    }

    /// What the platform is told when it is asked to release the mapping as a
    /// whole: its total length, how it reaches peer memory, and its direction.
    pub fn whole(&self) -> (r: WholeUnmap)
        ensures
            r == self.mapped().whole(),
            r.length == total_length(self.mapped().vectors),
    {
        proof {
            use_type_invariant(self);
        }
        self.inner.whole()
    }

    /// What is left to undo when the mapping is dropped: nothing if the platform
    /// released the mappings as a whole, else every single segment.
    pub fn release(self, released: bool) -> (r: Option<UnmapPlan>)
        ensures
            r is Some <==> !released,
            r matches Some(plan) ==> {
                &&& plan.vectors@ == self.mapped().vectors
                &&& plan.direction == self.mapped().direction
                &&& plan.mmio == (self.mapped().map_type == P2pdmaMap::ThruHostBridge)
            },
    {
        self.inner.release(released)
    }
}

/// One more segment adds its length to the total.
pub proof fn law_segments_accumulate(vectors: Seq<DmaVector>, v: DmaVector)
    ensures
        total_length(vectors.push(v)) == total_length(vectors) + v.length,
{
    assert(vectors.push(v).drop_last() =~= vectors);
}

/// An iterator that stopped never counts as well: where it reports no error of its
/// own, the error is an I/O error (10).
pub proof fn law_stopped_iterator_fails(status: u8)
    ensures
        iterator_failure(status).status != 0,
        status != 0 ==> iterator_failure(status).status == status,
        status == 0 ==> iterator_failure(status).status == 10,
{
}

/// The length of a mapping is the sum of the lengths of its segments, and a
/// mapping is released as a whole with that length, in its own direction and kind.
pub proof fn law_mapping_length_adds_up(mapping: MappingView, segment: DmaVector)
    ensures
        total_length(Seq::empty()) == 0,
        total_length(mapping.vectors.push(segment)) == total_length(mapping.vectors)
            + segment.length,
        total_length(mapping.vectors) <= usize::MAX ==> mapping.whole().length == total_length(
            mapping.vectors,
        ),
        mapping.whole().map_type == mapping.map_type,
        mapping.whole().direction == mapping.direction,
{
    assert(mapping.vectors.push(segment).drop_last() =~= mapping.vectors);
}

/// The segments of a mapping are those that the platform's iterator was at, in the
/// order in which it was at them; its length is the sum of theirs. A step that
/// fails adds none.
pub proof fn law_segments_are_mapped_in_order<const N: usize>(
    direction: DataDirection,
    start: IterStep,
    iter: &mut DmaMapIter<N>,
    step: IterStep,
    r: Result<(), BlkError>,
    length: usize,
    mapped: DmaMapIterMapped<N>,
)
    requires
        call_ensures(
            DmaMapIter::<N>::new,
            (direction, true, start),
            Ok::<DmaMapIter<N>, BlkError>(*old(iter)),
        ),
        call_ensures(DmaMapIter::<N>::next, (iter, step), r),
        call_ensures(DmaMapIter::<N>::mapped_length, (&*final(iter),), length),
        call_ensures(DmaMapIter::<N>::finish, (*final(iter),), mapped),
    ensures
        start.ok,
        mapped.mapped().direction == direction,
        mapped.mapped().map_type == start.map_type,
        mapped.mapped().vectors[0].address == start.address,
        mapped.mapped().vectors[0].length == start.length,
        match r {
            Ok(()) => {
                &&& step.ok && N > 1
                &&& mapped.mapped().vectors.len() == 2
                &&& mapped.mapped().vectors[1].address == step.address
                &&& mapped.mapped().vectors[1].length == step.length
                &&& length == start.length + step.length
            },
            Err(e) => {
                &&& !step.ok || N == 1
                &&& e.status != BLK_STS_OK
                &&& mapped.mapped().vectors.len() == 1
                &&& length == start.length
            },
        },
{
    reveal_with_fuel(total_length, 4);
    let first = DmaVector { address: start.address, length: start.length };
    assert(seq![first].drop_last() =~= Seq::<DmaVector>::empty());
    let second = DmaVector { address: step.address, length: step.length };
    assert(seq![first].push(second).drop_last() =~= seq![first]);
}

/// A mapping takes as many segments as it has room for and no more.
pub proof fn law_room_for_segments<const N: usize>(
    iter: &mut DmaMapIter<N>,
    step: IterStep,
    room: Result<(), BlkError>,
    r: Result<(), BlkError>,
)
    requires
        call_ensures(DmaMapIter::<N>::has_room, (&*old(iter),), room),
        call_ensures(DmaMapIter::<N>::next, (iter, step), r),
    ensures
        room is Ok <==> old(iter).mapped().vectors.len() != N,
        room is Err ==> r == room && *final(iter) == *old(iter),
        room is Ok && step.ok ==> r is Ok && final(iter).mapped().vectors.len() == old(
            iter,
        ).mapped().vectors.len() + 1,
{
}

/// A mapping that the platform did not release as a whole is released segment by
/// segment, every segment once; one that it did is not released again.
pub proof fn law_segments_are_released_once<const N: usize>(
    mapping: DmaMapping<N>,
    whole: Option<UnmapPlan>,
    single: Option<UnmapPlan>,
)
    requires
        call_ensures(DmaMapping::<N>::release, (mapping, true), whole),
        call_ensures(DmaMapping::<N>::release, (mapping, false), single),
    ensures
        whole is None,
        single matches Some(plan) && plan.vectors@ == mapping@.vectors && plan.direction
            == mapping@.direction && (plan.mmio <==> mapping@.map_type
            == P2pdmaMap::ThruHostBridge),
{
}

} // verus!
