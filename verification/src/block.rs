//! Block-layer abstractions that the driver core builds on.

use vstd::prelude::*;

pub mod dma_map_iter;
pub mod dma_map_single;
pub mod gen_disk;
pub mod request;
pub mod request_queue;

verus! {

/// Size of a block-layer sector in bytes.
pub const SECTOR_SIZE: u32 = 512;

/// Size of a memory page in bytes.
pub const PAGE_SIZE: u32 = 4096;

/// The request was completed without errors.
pub const BLK_STS_OK: u8 = 0;

/// The operation is not supported.
pub const BLK_STS_NOTSUPP: u8 = 1;

/// The target refused the command.
pub const BLK_STS_TARGET: u8 = 5;

/// A reservation conflict.
pub const BLK_STS_RESV_CONFLICT: u8 = 6;

/// A resource was short; the request may be tried again.
pub const BLK_STS_RESOURCE: u8 = 9;

/// An I/O error.
pub const BLK_STS_IOERR: u8 = 10;

/// The request is invalid.
pub const BLK_STS_INVAL: u8 = 19;

/// A block-layer error.
#[derive(Clone, Copy, Debug, PartialEq, Eq, Structural)]
pub struct BlkError {
    pub status: u8,
}

/// Direction of a transfer between memory and a device.
#[derive(Clone, Copy, Debug, PartialEq, Eq, Structural)]
pub enum DataDirection {
    /// Both ways.
    Bidirectional,
    /// From memory to the device.
    ToDevice,
    /// From the device to memory.
    FromDevice,
    /// No transfer.
    NoTransfer,
}

/// A block-layer status that was carried in 32 bits, as the 8 bits that the
/// block layer takes. A value that does not fit counts as an I/O error.
pub fn end_status(status: u32) -> (r: u8)
    ensures
        r == (if status <= u8::MAX {
            status as u8
        } else {
            BLK_STS_IOERR
        }),
{
    match u8::try_from(status) {
        Ok(status) => status,
        Err(_) => BLK_STS_IOERR,
    }
}

} // verus!
