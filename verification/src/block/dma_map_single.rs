//! Single-buffer streaming DMA mappings for asynchronous block requests.

use vstd::prelude::*;

use crate::block::DataDirection;
use crate::error::Error;

verus! {

/// A streaming DMA mapping of one buffer.
pub struct DetachedStreaming<C> {
    container: C,
    address: u64,
    size: usize,
    direction: DataDirection,
}

impl<C> DetachedStreaming<C> {
    /// The buffer that is mapped.
    pub closed spec fn buffer(self) -> C {
        self.container
    }

    /// Address at which the device sees the buffer.
    pub closed spec fn device_address(self) -> u64 {
        self.address
    }

    /// Size of the buffer.
    pub closed spec fn byte_count(self) -> usize {
        self.size
    }

    /// Direction of the mapping.
    pub closed spec fn way(self) -> DataDirection {
        self.direction
    }

    /// A mapping of `container`, given the address at which the platform mapped
    /// it. When the platform failed to map it, the error is returned.
    pub fn new(
        container: C,
        size: usize,
        direction: DataDirection,
        mapped: Result<u64, Error>,
    ) -> (r: Result<Self, Error>)
        ensures
            match mapped {
                Ok(address) => r matches Ok(m) && m.buffer() == container && m.device_address()
                    == address && m.byte_count() == size && m.way() == direction,
                Err(e) => r == Err::<Self, Error>(e),
            },
    {
        match mapped {
            Ok(address) => Ok(DetachedStreaming { container, address, size, direction }),
            Err(e) => Err(e),
        }
    }

    /// Returns the size of the mapping in bytes.
    pub fn size(&self) -> (r: usize)
        ensures
            r == self.byte_count(),
    {
        self.size
    }

    /// Address, size and direction of the mapping, for the platform to unmap.
    pub fn mapping(&self) -> (r: (u64, usize, DataDirection))
        ensures
            r == (self.device_address(), self.byte_count(), self.way()),
    {
        (self.address, self.size, self.direction)
    }

    /// Hands the DMA address to the asynchronous request owner.
    pub fn submit(self) -> (r: DetachedStreamingInFlight<C>)
        ensures
            r.suspended() == self,
    {
        DetachedStreamingInFlight { inner: self }
    }

    /// Returns the backing storage of the buffer.
    pub fn into_inner(self) -> (r: C)
        ensures
            r == self.buffer(),
    {
        self.container
    }
}

/// A detached single-buffer mapping whose DMA address may be visible to the
/// device. It gives neither its buffer nor its mapping away before the device
/// has finished.
pub struct DetachedStreamingInFlight<C> {
    inner: DetachedStreaming<C>,
}

impl<C> DetachedStreamingInFlight<C> {
    /// The mapping that is in flight.
    pub closed spec fn suspended(self) -> DetachedStreaming<C> {
        self.inner
    }

    /// Returns the DMA address to program into the device.
    pub fn dma_handle(&self) -> (r: u64)
        ensures
            r == self.suspended().device_address(),
    {
        self.inner.address
    }

    /// Returns the size of the mapping in bytes.
    pub fn size(&self) -> (r: usize)
        ensures
            r == self.suspended().byte_count(),
    {
        self.inner.size
    }

    /// Takes the mapping back after the device has stopped accessing it. So
    /// submitting a mapping and taking it back gives the same mapping.
    pub fn complete(self) -> (r: DetachedStreaming<C>)
        ensures
            r == self.suspended(),
    {
        self.inner
    }
}

} // verus!
