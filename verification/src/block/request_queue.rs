//! Limits of a block device's queue, and the queue itself.

use vstd::prelude::*;

use crate::block::PAGE_SIZE;
use crate::error::Error;

verus! {

/// Feature of a block device.
#[derive(Clone, Copy, Debug, PartialEq, Eq, Structural)]
pub enum Feature {
    Rotational,
    Zoned,
    WriteCache,
    ForcedUnitAccess,
}

/// A set of features.
#[derive(Clone, Copy, Debug, PartialEq, Eq, Structural)]
pub struct Features {
    pub rotational: bool,
    pub zoned: bool,
    pub write_cache: bool,
    pub forced_unit_access: bool,
}

impl Features {
    /// The feature is in the set.
    pub open spec fn has(self, feature: Feature) -> bool {
        match feature {
            Feature::Rotational => self.rotational,
            Feature::Zoned => self.zoned,
            Feature::WriteCache => self.write_cache,
            Feature::ForcedUnitAccess => self.forced_unit_access,
        }
    }

    /// Whether the feature is in the set.
    pub fn contains(&self, feature: Feature) -> (r: bool)
        ensures
            r == self.has(feature),
    {
        match feature {
            Feature::Rotational => self.rotational,
            Feature::Zoned => self.zoned,
            Feature::WriteCache => self.write_cache,
            Feature::ForcedUnitAccess => self.forced_unit_access,
        }
    }
}

/// A block size that a device can have.
pub open spec fn valid_block_size(size: u32) -> bool {
    size == 512 || size == 1024 || size == 2048 || size == 4096
}

/// The valid block sizes are the powers of two between 512 and the page size.
pub proof fn law_block_sizes(size: u32)
    ensures
        valid_block_size(size) <==> 512 <= size <= PAGE_SIZE && exists|k: nat|
            size == #[trigger] vstd::arithmetic::power2::pow2(k),
{
    vstd::arithmetic::power2::lemma2_to64();
    if valid_block_size(size) {
        let k: nat = if size == 512 {
            9
        } else if size == 1024 {
            10
        } else if size == 2048 {
            11
        } else {
            12
        };
        assert(size == vstd::arithmetic::power2::pow2(k));
    }
    if 512 <= size <= PAGE_SIZE && exists|k: nat|
        size == #[trigger] vstd::arithmetic::power2::pow2(k) {
        let k = choose|k: nat| size == #[trigger] vstd::arithmetic::power2::pow2(k);
        if k < 9 {
            vstd::arithmetic::power2::lemma_pow2_strictly_increases(k, 9);
        }
        if k > 12 {
            vstd::arithmetic::power2::lemma_pow2_strictly_increases(12, k);
        }
    }
}

/// Builder of a block device's limits.
#[derive(Clone, Copy, Debug, PartialEq, Eq, Structural)]
pub struct LimitsBuilder {
    pub logical_block_size: u32,
    pub physical_block_size: u32,
    pub max_hw_discard_sectors: u32,
    pub discard_granularity: u32,
    pub max_discard_segments: u16,
    pub virt_boundary_mask: usize,
    pub max_hw_sectors: u32,
    pub max_sectors: u32,
    pub max_segments: u16,
    pub max_segment_size: u32,
    pub rotational: bool,
    pub write_cache: bool,
    pub forced_unit_access: bool,
    pub zoned: bool,
    pub zone_size_sectors: u32,
    pub zone_append_max_sectors: u32,
}

impl Default for LimitsBuilder {
    fn default() -> (r: Self)
        ensures
            r == LimitsBuilder::initial(),
    {
        LimitsBuilder {
            logical_block_size: PAGE_SIZE,
            physical_block_size: PAGE_SIZE,
            max_hw_discard_sectors: 0,
            discard_granularity: 0,
            max_discard_segments: 0,
            virt_boundary_mask: 0,
            max_hw_sectors: 0,
            max_sectors: 0,
            max_segments: 0,
            max_segment_size: 0,
            rotational: false,
            write_cache: false,
            forced_unit_access: false,
            zoned: false,
            zone_size_sectors: 0,
            zone_append_max_sectors: 0,
        }
    }
}

impl LimitsBuilder {
    /// Blocks of a page, and nothing else set.
    pub open spec fn initial() -> Self {
        LimitsBuilder {
            logical_block_size: PAGE_SIZE,
            physical_block_size: PAGE_SIZE,
            max_hw_discard_sectors: 0,
            discard_granularity: 0,
            max_discard_segments: 0,
            virt_boundary_mask: 0,
            max_hw_sectors: 0,
            max_sectors: 0,
            max_segments: 0,
            max_segment_size: 0,
            rotational: false,
            write_cache: false,
            forced_unit_access: false,
            zoned: false,
            zone_size_sectors: 0,
            zone_append_max_sectors: 0,
        }
    }

    /// A builder with blocks of a page and nothing else set.
    pub fn new() -> (r: Self)
        ensures
            r == Self::initial(),
    {
        Self::default()
    }

    /// Validate block size by verifying that it is between 512 and `PAGE_SIZE`,
    /// and that it is a power of two.
    pub fn validate_block_size(size: u32) -> (r: Result<(), Error>)
        ensures
            r == (if valid_block_size(size) {
                Ok::<(), Error>(())
            } else {
                Err(Error::EINVAL)
            }),
    {
        match size {
            512 | 1024 | 2048 | 4096 => Ok(()),
            _ => Err(Error::EINVAL),
        }
    }

    /// Set the logical block size of the device to be built. This is the smallest unit the storage device can address.
    pub fn logical_block_size(self, block_size: u32) -> (r: Result<Self, Error>)
        ensures
            r == (if valid_block_size(block_size) {
                Ok::<Self, Error>(LimitsBuilder { logical_block_size: block_size, ..self })
            } else {
                Err(Error::EINVAL)
            }),
    {
        match Self::validate_block_size(block_size) {
            Ok(()) => Ok(LimitsBuilder { logical_block_size: block_size, ..self }),
            Err(e) => Err(e),
        }
    }

    /// Set the physical block size of the device to be built. This is the smallest unit a physical storage device can write atomically.
    pub fn physical_block_size(self, block_size: u32) -> (r: Result<Self, Error>)
        ensures
            r == (if valid_block_size(block_size) {
                Ok::<Self, Error>(LimitsBuilder { physical_block_size: block_size, ..self })
            } else {
                Err(Error::EINVAL)
            }),
    {
        match Self::validate_block_size(block_size) {
            Ok(()) => Ok(LimitsBuilder { physical_block_size: block_size, ..self }),
            Err(e) => Err(e),
        }
    }

    /// Set the rotational media attribute for the device to be built.
    pub fn rotational(self, value: bool) -> (r: Self)
        ensures
            r == (LimitsBuilder { rotational: value, ..self }),
    {
        LimitsBuilder { rotational: value, ..self }
    }

    /// Mark this device as a zoned block device.
    pub fn zoned(self, value: bool) -> (r: Self)
        ensures
            r == (LimitsBuilder { zoned: value, ..self }),
    {
        LimitsBuilder { zoned: value, ..self }
    }

    /// Set the zone size of this block device.
    pub fn zone_size(self, value: u32) -> (r: Self)
        ensures
            r == (LimitsBuilder { zone_size_sectors: value, ..self }),
    {
        LimitsBuilder { zone_size_sectors: value, ..self }
    }

    /// Set the max zone append size for this block device.
    pub fn zone_append_max(self, value: u32) -> (r: Self)
        ensures
            r == (LimitsBuilder { zone_append_max_sectors: value, ..self }),
    {
        LimitsBuilder { zone_append_max_sectors: value, ..self }
    }

    /// Declare that this device supports forced unit access.
    pub fn forced_unit_access(self, value: bool) -> (r: Self)
        ensures
            r == (LimitsBuilder { forced_unit_access: value, ..self }),
    {
        LimitsBuilder { forced_unit_access: value, ..self }
    }

    /// Declare that this device has a write-back cache.
    pub fn write_cache(self, value: bool) -> (r: Self)
        ensures
            r == (LimitsBuilder { write_cache: value, ..self }),
    {
        LimitsBuilder { write_cache: value, ..self }
    }

    /// Maximum size of a command in 512 byte sectors.
    pub fn max_sectors(self, value: u32) -> (r: Self)
        ensures
            r == (LimitsBuilder { max_sectors: value, ..self }),
    {
        LimitsBuilder { max_sectors: value, ..self }
    }

    /// Set the I/O segment memory alignment mask for the block device.
    pub fn virt_boundary_mask(self, value: usize) -> (r: Self)
        ensures
            r == (LimitsBuilder { virt_boundary_mask: value, ..self }),
    {
        LimitsBuilder { virt_boundary_mask: value, ..self }
    }

    /// Set the maximum amount of sectors the device can discard in a single
    /// operation. With 0 the disk reports that discard is not supported.
    pub fn max_hw_discard_sectors(self, value: u32) -> (r: Self)
        ensures
            r == (LimitsBuilder { max_hw_discard_sectors: value, ..self }),
    {
        LimitsBuilder { max_hw_discard_sectors: value, ..self }
    }

    /// The granularity of discard operations of the device to be built.
    pub open spec fn granularity(self) -> u32 {
        if self.discard_granularity == 0 {
            self.physical_block_size
        } else {
            self.discard_granularity
        }
    }

    /// Set the granularity of discard operations, in bytes. With 0 it matches the
    /// physical block size.
    pub fn discard_granularity(self, value: u32) -> (r: Self)
        ensures
            r == (LimitsBuilder { discard_granularity: value, ..self }),
            r.granularity() == (if value == 0 {
                r.physical_block_size
            } else {
                value
            }),
    {
        LimitsBuilder { discard_granularity: value, ..self }
    }

    /// Set the maximum number of scatter/gather entries in a discard request.
    pub fn max_discard_segments(self, value: u16) -> (r: Self)
        ensures
            r == (LimitsBuilder { max_discard_segments: value, ..self }),
    {
        LimitsBuilder { max_discard_segments: value, ..self }
    }

    /// Maximum hardware I/O size in 512 byte sectors.
    pub fn max_hw_sectors(self, value: u32) -> (r: Self)
        ensures
            r == (LimitsBuilder { max_hw_sectors: value, ..self }),
    {
        LimitsBuilder { max_hw_sectors: value, ..self }
    }

    /// Maximum number of segments per request.
    pub fn max_segments(self, value: u16) -> (r: Self)
        ensures
            r == (LimitsBuilder { max_segments: value, ..self }),
    {
        LimitsBuilder { max_segments: value, ..self }
    }

    /// Maximum size of a segment in bytes.
    pub fn max_segment_size(self, value: u32) -> (r: Self)
        ensures
            r == (LimitsBuilder { max_segment_size: value, ..self }),
    {
        LimitsBuilder { max_segment_size: value, ..self }
    }

    /// The limits that are built.
    pub open spec fn limits(self) -> Limits {
        Limits {
            logical_block_size: self.logical_block_size,
            physical_block_size: self.physical_block_size,
            max_hw_discard_sectors: self.max_hw_discard_sectors,
            discard_granularity: self.discard_granularity,
            max_discard_segments: self.max_discard_segments,
            virt_boundary_mask: self.virt_boundary_mask,
            max_hw_sectors: self.max_hw_sectors,
            max_sectors: self.max_sectors,
            max_segments: self.max_segments,
            max_segment_size: self.max_segment_size,
            chunk_sectors: if self.zoned {
                self.zone_size_sectors
            } else {
                0
            },
            max_hw_zone_append_sectors: if self.zoned {
                self.zone_append_max_sectors
            } else {
                0
            },
            features: Features {
                rotational: self.rotational,
                zoned: self.zoned,
                write_cache: self.write_cache,
                forced_unit_access: self.forced_unit_access,
            },
        }
    }

    /// Builds the limits. A zoned device needs a driver that can report zones.
    pub fn build(self, has_report_zones: bool) -> (r: Result<Limits, Error>)
        ensures
            r == (if self.zoned && !has_report_zones {
                Err::<Limits, Error>(Error::EINVAL)
            } else {
                Ok(self.limits())
            }),
            r matches Ok(limits) ==> limits.granularity() == self.granularity(),
    {
        let mut lim = Limits {
            logical_block_size: self.logical_block_size,
            physical_block_size: self.physical_block_size,
            max_hw_discard_sectors: self.max_hw_discard_sectors,
            discard_granularity: self.discard_granularity,
            max_discard_segments: self.max_discard_segments,
            virt_boundary_mask: self.virt_boundary_mask,
            max_hw_sectors: self.max_hw_sectors,
            max_sectors: self.max_sectors,
            max_segments: self.max_segments,
            max_segment_size: self.max_segment_size,
            chunk_sectors: 0,
            max_hw_zone_append_sectors: 0,
            features: Features {
                rotational: false,
                zoned: false,
                write_cache: false,
                forced_unit_access: false,
            },
        };
        if self.rotational {
            lim.features.rotational = true;
        }
        if self.zoned {
            if !has_report_zones {
                return Err(Error::EINVAL);
            }
            lim.features.zoned = true;
            lim.chunk_sectors = self.zone_size_sectors;
            lim.max_hw_zone_append_sectors = self.zone_append_max_sectors;
        }
        if self.write_cache {
            lim.features.write_cache = true;
        }
        if self.forced_unit_access {
            lim.features.forced_unit_access = true;
        }
        Ok(lim)
    }
}

/// Limits of a block device's queue.
#[derive(Clone, Copy, Debug, PartialEq, Eq, Structural)]
pub struct Limits {
    pub logical_block_size: u32,
    pub physical_block_size: u32,
    pub max_hw_discard_sectors: u32,
    pub discard_granularity: u32,
    pub max_discard_segments: u16,
    pub virt_boundary_mask: usize,
    pub max_hw_sectors: u32,
    pub max_sectors: u32,
    pub max_segments: u16,
    pub max_segment_size: u32,
    pub chunk_sectors: u32,
    pub max_hw_zone_append_sectors: u32,
    pub features: Features,
}

impl Limits {
    /// Features of the device.
    pub fn features(&self) -> (r: Features)
        ensures
            r == self.features,
    {
        self.features
    }

    /// The granularity of discard operations, in bytes.
    pub open spec fn granularity(self) -> u32 {
        if self.discard_granularity == 0 {
            self.physical_block_size
        } else {
            self.discard_granularity
        }
    }

    /// The granularity of discard operations, in bytes: the physical block size,
    /// where no other was set.
    pub fn discard_granularity(&self) -> (r: u32)
        ensures
            r == self.granularity(),
            r == (if self.discard_granularity == 0 {
                self.physical_block_size
            } else {
                self.discard_granularity
            }),
    {
        if self.discard_granularity == 0 {
            self.physical_block_size
        } else {
            self.discard_granularity
        }
    }
}

/// A queue that the platform has to allocate. There is none for a depth of 0, so
/// no allocation is attempted for it.
pub struct PendingQueue<Q> {
    limits: Limits,
    data: Q,
    depth: u32,
}

impl<Q> PendingQueue<Q> {
    /// The limits that the queue will have.
    pub closed spec fn queue_limits(self) -> Limits {
        self.limits
    }

    /// The driver's data that the queue will have.
    pub closed spec fn driver_data(self) -> Q {
        self.data
    }

    /// The depth that the queue will have.
    pub closed spec fn queue_depth(self) -> u32 {
        self.depth
    }

    #[verifier::type_invariant]
    spec fn inv(self) -> bool {
        self.depth > 0
    }

    /// The limits that the queue will have.
    pub fn limits(&self) -> (r: &Limits)
        ensures
            *r == self.queue_limits(),
    {
        &self.limits
    }

    /// The depth that the queue will have, which is never 0.
    pub fn depth(&self) -> (r: u32)
        ensures
            r == self.queue_depth(),
            r > 0,
    {
        proof {
            use_type_invariant(self);
        }
        self.depth
    }
}

/// The queues associated with a block device, with the driver's data.
pub struct RequestQueue<Q> {
    limits: Limits,
    data: Q,
    depth: u32,
    stopped: bool,
}

impl<Q> RequestQueue<Q> {
    /// The queue's limits.
    pub closed spec fn queue_limits(self) -> Limits {
        self.limits
    }

    /// The driver's data.
    pub closed spec fn driver_data(self) -> Q {
        self.data
    }

    /// Number of requests that the queue holds.
    pub closed spec fn queue_depth(self) -> u32 {
        self.depth
    }

    /// The hardware queues are stopped.
    pub closed spec fn is_stopped(self) -> bool {
        self.stopped
    }

    /// The queue that the platform has to allocate. A depth of 0 is refused, so
    /// that there is nothing to allocate.
    pub fn prepare(limits: Limits, queue_data: Q, queue_depth: u32) -> (r: Result<
        PendingQueue<Q>,
        Error,
    >)
        ensures
            match r {
                Ok(pending) => {
                    &&& queue_depth > 0
                    &&& pending.queue_limits() == limits
                    &&& pending.driver_data() == queue_data
                    &&& pending.queue_depth() == queue_depth
                },
                Err(e) => queue_depth == 0 && e == Error::EINVAL,
            },
    {
        if queue_depth == 0 {
            return Err(Error::EINVAL);
        }
        Ok(PendingQueue { limits, data: queue_data, depth: queue_depth })
    }

    /// A queue, given whether the platform could allocate it. The queue has its
    /// depth, and takes the driver's data over, only when it could; else the
    /// driver's data is dropped.
    pub fn new(pending: PendingQueue<Q>, allocated: Result<(), Error>) -> (r: Result<
        BoundRequestQueue<Q>,
        Error,
    >)
        ensures
            match r {
                Ok(q) => {
                    &&& allocated is Ok
                    &&& q.0.queue_limits() == pending.queue_limits()
                    &&& q.0.driver_data() == pending.driver_data()
                    &&& q.0.queue_depth() == pending.queue_depth()
                    &&& q.0.queue_depth() > 0
                    &&& !q.0.is_stopped()
                },
                Err(e) => allocated == Err::<(), Error>(e),
            },
    {
        proof {
            use_type_invariant(&pending);
        }
        match allocated {
            Ok(()) => Ok(
                BoundRequestQueue(
                    RequestQueue {
                        limits: pending.limits,
                        data: pending.data,
                        depth: pending.depth,
                        stopped: false,
                    },
                ),
            ),
            Err(e) => Err(e),
        }
    }

    /// Whether the hardware queues are stopped.
    pub fn stopped(&self) -> (r: bool)
        ensures
            r == self.is_stopped(),
    {
        self.stopped
    }

    /// Number of requests that the queue holds.
    pub fn depth(&self) -> (r: u32)
        ensures
            r == self.queue_depth(),
    {
        self.depth
    }

    /// Get the driver private data associated with this [`RequestQueue`].
    pub fn queue_data(&self) -> (r: &Q)
        ensures
            *r == self.driver_data(),
    {
        &self.data
    }

    /// Stop all hardware queues of this [`RequestQueue`].
    pub fn stop_hw_queues(&mut self)
        ensures
            final(self).is_stopped(),
            final(self).queue_limits() == old(self).queue_limits(),
            final(self).driver_data() == old(self).driver_data(),
            final(self).queue_depth() == old(self).queue_depth(),
    {
        self.stopped = true;
    }

    /// Start all hardware queues of this [`RequestQueue`].
    pub fn start_stopped_hw_queues_async(&mut self)
        ensures
            !final(self).is_stopped(),
            final(self).queue_limits() == old(self).queue_limits(),
            final(self).driver_data() == old(self).driver_data(),
            final(self).queue_depth() == old(self).queue_depth(),
    {
        self.stopped = false;
    }

    /// The limits of the queue.
    pub fn limits(&self) -> (r: &Limits)
        ensures
            *r == self.queue_limits(),
    {
        &self.limits
    }
}

/// A queue that is destroyed with its owner.
pub struct BoundRequestQueue<Q>(pub RequestQueue<Q>);

/// The limits that are built are those that were set, and zones count only for a
/// zoned device. A builder starts with blocks of a page and nothing else.
pub proof fn law_limits_are_what_was_set(b: LimitsBuilder)
    ensures
        ({
            let l = b.limits();
            &&& l.logical_block_size == b.logical_block_size
            &&& l.physical_block_size == b.physical_block_size
            &&& l.max_hw_discard_sectors == b.max_hw_discard_sectors
            &&& l.discard_granularity == b.discard_granularity
            &&& l.max_discard_segments == b.max_discard_segments
            &&& l.virt_boundary_mask == b.virt_boundary_mask
            &&& l.max_hw_sectors == b.max_hw_sectors
            &&& l.max_sectors == b.max_sectors
            &&& l.max_segments == b.max_segments
            &&& l.max_segment_size == b.max_segment_size
            &&& b.zoned ==> l.chunk_sectors == b.zone_size_sectors && l.max_hw_zone_append_sectors
                == b.zone_append_max_sectors
            &&& !b.zoned ==> l.chunk_sectors == 0 && l.max_hw_zone_append_sectors == 0
            &&& l.features.has(Feature::Rotational) == b.rotational
            &&& l.features.has(Feature::Zoned) == b.zoned
            &&& l.features.has(Feature::WriteCache) == b.write_cache
            &&& l.features.has(Feature::ForcedUnitAccess) == b.forced_unit_access
            &&& l.granularity() == b.granularity()
            &&& b.discard_granularity > 0 ==> l.granularity() == b.discard_granularity
            &&& b.discard_granularity == 0 ==> l.granularity() == b.physical_block_size
        }),
        LimitsBuilder::initial().logical_block_size == 4096,
        LimitsBuilder::initial().physical_block_size == 4096,
        LimitsBuilder::initial().max_hw_discard_sectors == 0,
        LimitsBuilder::initial().max_hw_sectors == 0,
        LimitsBuilder::initial().max_segments == 0,
        !LimitsBuilder::initial().rotational,
        !LimitsBuilder::initial().zoned,
        !LimitsBuilder::initial().write_cache,
        !LimitsBuilder::initial().forced_unit_access,
{
}

/// Limits that were built hold what was set, one by one. A zoned device needs a
/// driver that can report zones.
pub proof fn law_built_limits(b: LimitsBuilder, has_report_zones: bool, r: Result<Limits, Error>)
    requires
        call_ensures(LimitsBuilder::build, (b, has_report_zones), r),
    ensures
        r is Err <==> b.zoned && !has_report_zones,
        r matches Err(e) ==> e == Error::EINVAL,
        r matches Ok(l) ==> {
            &&& l.logical_block_size == b.logical_block_size
            &&& l.physical_block_size == b.physical_block_size
            &&& l.max_hw_discard_sectors == b.max_hw_discard_sectors
            &&& l.discard_granularity == b.discard_granularity
            &&& l.max_discard_segments == b.max_discard_segments
            &&& l.virt_boundary_mask == b.virt_boundary_mask
            &&& l.max_hw_sectors == b.max_hw_sectors
            &&& l.max_sectors == b.max_sectors
            &&& l.max_segments == b.max_segments
            &&& l.max_segment_size == b.max_segment_size
            &&& l.chunk_sectors == if b.zoned { b.zone_size_sectors } else { 0 }
            &&& l.max_hw_zone_append_sectors == if b.zoned { b.zone_append_max_sectors } else { 0 }
            &&& l.features.rotational == b.rotational
            &&& l.features.zoned == b.zoned
            &&& l.features.write_cache == b.write_cache
            &&& l.features.forced_unit_access == b.forced_unit_access
        },
{
}

/// A queue that is prepared has the limits, the data and the depth that were asked
/// for, and keeps them when it is allocated. Without a depth there is none.
pub proof fn law_prepared_queue_is_kept<Q>(
    limits: Limits,
    data: Q,
    depth: u32,
    pending: Result<PendingQueue<Q>, Error>,
    allocated: Result<(), Error>,
    r: Result<BoundRequestQueue<Q>, Error>,
)
    requires
        call_ensures(RequestQueue::<Q>::prepare, (limits, data, depth), pending),
        pending is Ok ==> call_ensures(RequestQueue::<Q>::new, (pending->Ok_0, allocated), r),
    ensures
        pending is Ok <==> depth > 0,
        pending is Ok ==> (r is Ok <==> allocated is Ok),
        pending is Ok && r is Ok ==> {
            let queue = r->Ok_0.0;
            &&& queue.queue_limits() == limits
            &&& queue.driver_data() == data
            &&& queue.queue_depth() == depth
            &&& !queue.is_stopped()
        },
{
}

} // verus!
