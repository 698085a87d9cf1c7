//! Generic disk abstraction.

use vstd::prelude::*;

use crate::block::request_queue::{BoundRequestQueue, Feature, PendingQueue, RequestQueue};
use crate::error::Error;

verus! {

/// What the platform answered while a disk was set up, step by step.
#[derive(Clone, Copy, Debug)]
pub struct DiskSetup {
    /// Allocating the disk.
    pub allocated: Result<(), Error>,
    /// Writing the disk's name.
    pub named: Result<(), Error>,
    /// Adding the disk to the system.
    pub added: Result<(), Error>,
}

impl DiskSetup {
    /// The first step that failed decides.
    pub open spec fn verdict(self) -> Result<(), Error> {
        match self.allocated {
            Err(e) => Err(e),
            Ok(()) => match self.named {
                Err(e) => Err(e),
                Ok(()) => self.added,
            },
        }
    }
}

/// A generic block device.
pub struct GenDisk<Q, D> {
    queue: BoundRequestQueue<Q>,
    data: D,
    capacity_sectors: u64,
}

impl<Q, D> GenDisk<Q, D> {
    /// The disk's queue.
    pub closed spec fn request_queue(self) -> BoundRequestQueue<Q> {
        self.queue
    }

    /// The driver's data.
    pub closed spec fn driver_data(self) -> D {
        self.data
    }

    /// Size of the disk.
    pub closed spec fn sectors(self) -> u64 {
        self.capacity_sectors
    }

    /// A disk on a queue, given what the platform answered while it was set up.
    /// The second part of the result says whether the disk's zones have to be
    /// read again.
    pub fn new_for_queue(
        request_queue: BoundRequestQueue<Q>,
        capacity_sectors: u64,
        data: D,
        setup: DiskSetup,
    ) -> (r: Result<(BoundGenDisk<Q, D>, bool), Error>)
        ensures
            match r {
                Ok((disk, revalidate_zones)) => {
                    &&& setup.verdict() is Ok
                    &&& disk.0.request_queue() == request_queue
                    &&& disk.0.driver_data() == data
                    &&& disk.0.sectors() == capacity_sectors
                    &&& revalidate_zones == request_queue.0.queue_limits().features.has(
                        Feature::Zoned,
                    )
                },
                Err(e) => setup.verdict() == Err::<(), Error>(e),
            },
    {
        let features = request_queue.0.limits().features();
        match setup.allocated {
            Ok(()) => {},
            Err(e) => return Err(e),
        }
        match setup.named {
            Ok(()) => {},
            Err(e) => return Err(e),
        }
        match setup.added {
            Ok(()) => {},
            Err(e) => return Err(e),
        }
        Ok(
            (
                BoundGenDisk(GenDisk { queue: request_queue, data, capacity_sectors }),
                features.contains(Feature::Zoned),
            ),
        )
    }

    /// A disk on a queue of its own, given what the platform answered while the
    /// queue and the disk were set up.
    pub fn new(
        pending: PendingQueue<Q>,
        gendisk_data: D,
        capacity_sectors: u64,
        queue_allocated: Result<(), Error>,
        setup: DiskSetup,
    ) -> (r: Result<(BoundGenDisk<Q, D>, bool), Error>)
        ensures
            match r {
                Ok((disk, revalidate_zones)) => {
                    &&& queue_allocated is Ok
                    &&& setup.verdict() is Ok
                    &&& disk.0.request_queue().0.queue_limits() == pending.queue_limits()
                    &&& disk.0.request_queue().0.driver_data() == pending.driver_data()
                    &&& disk.0.request_queue().0.queue_depth() == pending.queue_depth()
                    &&& disk.0.request_queue().0.queue_depth() > 0
                    &&& !disk.0.request_queue().0.is_stopped()
                    &&& disk.0.driver_data() == gendisk_data
                    &&& disk.0.sectors() == capacity_sectors
                    &&& revalidate_zones == pending.queue_limits().features.has(Feature::Zoned)
                },
                Err(e) => if queue_allocated is Err {
                    queue_allocated == Err::<(), Error>(e)
                } else {
                    setup.verdict() == Err::<(), Error>(e)
                },
            },
    {
        match RequestQueue::new(pending, queue_allocated) {
            Ok(queue) => Self::new_for_queue(queue, capacity_sectors, gendisk_data, setup),
            Err(e) => Err(e),
        }
    }

    /// Get the [`RequestQueue`] associated with this [`GenDisk`].
    pub fn queue(&self) -> (r: &RequestQueue<Q>)
        ensures
            *r == self.request_queue().0,
    {
        &self.queue.0
    }

    /// Get the private data associated with this [`GenDisk`].
    pub fn disk_data(&self) -> (r: &D)
        ensures
            *r == self.driver_data(),
    {
        &self.data
    }

    /// Size of the disk in sectors.
    pub fn capacity(&self) -> (r: u64)
        ensures
            r == self.sectors(),
    {
        self.capacity_sectors
    }
}

/// A disk that is taken out of the system with its owner.
pub struct BoundGenDisk<Q, D>(pub GenDisk<Q, D>);

/// A disk is set up exactly when every step of it went well; the first step that
/// did not decides what is reported.
pub proof fn law_first_failure_decides(setup: DiskSetup)
    ensures
        setup.verdict() is Ok <==> setup.allocated is Ok && setup.named is Ok && setup.added is Ok,
        setup.allocated is Err ==> setup.verdict() == setup.allocated,
        setup.allocated is Ok && setup.named is Err ==> setup.verdict() == setup.named,
        setup.allocated is Ok && setup.named is Ok ==> setup.verdict() == setup.added,
{
}

/// A disk has the size that was asked for and serves the queue and the data that it
/// was made with. It is made exactly when every step of its setup went well.
pub proof fn law_disk_is_as_asked<Q, D>(
    queue: BoundRequestQueue<Q>,
    capacity_sectors: u64,
    data: D,
    setup: DiskSetup,
    r: Result<(BoundGenDisk<Q, D>, bool), Error>,
)
    requires
        call_ensures(
            GenDisk::<Q, D>::new_for_queue,
            (queue, capacity_sectors, data, setup),
            r,
        ),
    ensures
        r is Ok <==> setup.allocated is Ok && setup.named is Ok && setup.added is Ok,
        r matches Ok((disk, zones)) ==> {
            &&& disk.0.sectors() == capacity_sectors
            &&& disk.0.request_queue() == queue
            &&& disk.0.driver_data() == data
            &&& zones == queue.0.queue_limits().features.zoned
        },
        r matches Err(e) ==> setup.allocated == Err::<(), Error>(e) || setup.named == Err::<
            (),
            Error,
        >(e) || setup.added == Err::<(), Error>(e),
{
}

} // verus!
