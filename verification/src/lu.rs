//! Logical units: geometry, disks and the requests of the block layer.

use vstd::prelude::*;

use crate::block::gen_disk::{BoundGenDisk, DiskSetup, GenDisk};
use crate::block::request_queue::{self, Limits, LimitsBuilder, PendingQueue, RequestQueue};
use crate::block::{
    end_status, BLK_STS_INVAL, BLK_STS_IOERR, BLK_STS_NOTSUPP, BLK_STS_OK, SECTOR_SIZE,
};
use crate::error::Error;
use crate::hci::{MAX_PRD_ENTRIES, PRDT_DATA_BYTE_COUNT_MAX};
use crate::prdt::UfsPrdtMapping;
use crate::request::{CompletionDisposition, UfsRequestInner, UfsRequestState};
use crate::scsi::UfsSCSICmd;
use crate::transfer::{QueueType, UfsQueueMap, UfsTransferConfig};

verus! {

/// Number of ranges that one discard names.
pub const MAX_DISCARD_SEGMENTS: u16 = 1;

/// Largest request in sectors: one mebibyte.
pub const MAX_SECTORS: u32 = 2048;

/// A power of two.
pub open spec fn is_pow2(v: u32) -> bool {
    exists|k: nat| v == #[trigger] vstd::arithmetic::power2::pow2(k)
}

/// Whether a number is a power of two.
pub fn is_power_of_two(v: u32) -> (r: bool)
    ensures
        r == is_pow2(v),
{
    let mut p: u64 = 1;
    let ghost mut k: nat = 0;
    proof {
        vstd::arithmetic::power2::lemma2_to64();
    }
    while p < v as u64
        invariant
            p == vstd::arithmetic::power2::pow2(k),
            k == 0 || vstd::arithmetic::power2::pow2((k - 1) as nat) < v,
            1 <= p <= 0x2_0000_0000,
        decreases v + v - p,
    {
        proof {
            vstd::arithmetic::power2::lemma_pow2_unfold((k + 1) as nat);
        }
        p = p * 2;
        proof {
            k = k + 1;
        }
    }
    proof {
        if is_pow2(v) {
            let m = choose|m: nat| v == #[trigger] vstd::arithmetic::power2::pow2(m);
            if k < m {
                vstd::arithmetic::power2::lemma_pow2_strictly_increases(k, m);
            } else if m < k {
                if m < k - 1 {
                    vstd::arithmetic::power2::lemma_pow2_strictly_increases(m, (k - 1) as nat);
                }
            }
        }
    }
    p == v as u64
}

/// State of a logical unit.
#[derive(Clone, Copy, Debug, PartialEq, Eq, Structural)]
pub enum UfsLuState {
    Reset,
    Operational,
    Error,
}

/// Block sizes and capacity of a logical unit.
#[derive(Clone, Copy, Debug, PartialEq, Eq, Structural)]
pub struct UfsLuGeometry {
    pub logical_block_size: u32,
    pub physical_block_size: u32,
    pub alignment: u32,
    pub capacity_blocks: u64,
    pub sectors_per_block: u64,
}

impl UfsLuGeometry {
    /// A block is a whole number of sectors, and a physical block is a whole
    /// number of logical ones.
    pub open spec fn wf(self) -> bool {
        &&& self.logical_block_size >= 512
        &&& self.logical_block_size % 512 == 0
        &&& is_pow2(self.logical_block_size)
        &&& self.sectors_per_block == self.logical_block_size / 512
        &&& self.physical_block_size >= self.logical_block_size
        &&& self.physical_block_size % self.logical_block_size == 0
    }

    /// The block sizes are fit for a logical unit.
    pub open spec fn fits(logical_block_size: u32, physical_block_size: u32) -> bool {
        &&& logical_block_size >= 512
        &&& logical_block_size % 512 == 0
        &&& is_pow2(logical_block_size)
        &&& physical_block_size == 0 || (physical_block_size >= logical_block_size
            && physical_block_size % logical_block_size == 0)
    }

    /// A geometry. A physical block size of 0 stands for the logical one.
    pub fn new(
        logical_block_size: u32,
        physical_block_size: u32,
        alignment: u32,
        capacity_blocks: u64,
    ) -> (r: Result<Self, Error>)
        ensures
            match r {
                Ok(g) => {
                    &&& Self::fits(logical_block_size, physical_block_size)
                    &&& g.wf()
                    &&& g == (UfsLuGeometry {
                        logical_block_size,
                        physical_block_size: if physical_block_size == 0 {
                            logical_block_size
                        } else {
                            physical_block_size
                        },
                        alignment,
                        capacity_blocks,
                        sectors_per_block: (logical_block_size / 512) as u64,
                    })
                },
                Err(e) => !Self::fits(logical_block_size, physical_block_size) && e
                    == Error::EINVAL,
            },
    {
        if logical_block_size < SECTOR_SIZE || logical_block_size % SECTOR_SIZE != 0
            || !is_power_of_two(logical_block_size) {
            return Err(Error::EINVAL);
        }
        if physical_block_size != 0 && (physical_block_size < logical_block_size
            || physical_block_size % logical_block_size != 0) {
            return Err(Error::EINVAL);
        }
        let physical_block_size = if physical_block_size == 0 {
            logical_block_size
        } else {
            physical_block_size
        };
        assert(logical_block_size % logical_block_size == 0) by (nonlinear_arith)
            requires
                logical_block_size > 0,
        ;
        Ok(
            UfsLuGeometry {
                logical_block_size,
                physical_block_size,
                alignment,
                capacity_blocks,
                sectors_per_block: (logical_block_size / SECTOR_SIZE) as u64,
            },
        )
    }

    /// A geometry whose blocks have two to the power of `logical_block_shift`
    /// bytes.
    pub fn from_logical_block_shift(logical_block_shift: u8, capacity_blocks: u64) -> (r: Result<
        Self,
        Error,
    >)
        ensures
            match r {
                Ok(g) => {
                    &&& 9 <= logical_block_shift < 32
                    &&& g.wf()
                    &&& g.logical_block_size == vstd::arithmetic::power2::pow2(
                        logical_block_shift as nat,
                    )
                    &&& g.physical_block_size == g.logical_block_size
                    &&& g.alignment == 0
                    &&& g.capacity_blocks == capacity_blocks
                },
                Err(e) => !(9 <= logical_block_shift < 32) && e == Error::EINVAL,
            },
    {
        if logical_block_shift >= 32 {
            return Err(Error::EINVAL);
        }
        let mut logical_block_size: u32 = 1;
        proof {
            vstd::arithmetic::power2::lemma2_to64();
        }
        for i in 0..logical_block_shift
            invariant
                logical_block_shift < 32,
                logical_block_size == vstd::arithmetic::power2::pow2(i as nat),
        {
            proof {
                vstd::arithmetic::power2::lemma_pow2_unfold((i + 1) as nat);
                vstd::arithmetic::power2::lemma2_to64();
                if i + 1 < 31 {
                    vstd::arithmetic::power2::lemma_pow2_strictly_increases((i + 1) as nat, 31);
                }
            }
            logical_block_size = logical_block_size * 2;
        }
        proof {
            let shift = logical_block_shift as nat;
            vstd::arithmetic::power2::lemma2_to64();
            if shift < 9 {
                vstd::arithmetic::power2::lemma_pow2_strictly_increases(shift, 9);
            } else {
                vstd::arithmetic::power2::lemma_pow2_adds((shift - 9) as nat, 9);
                let q = vstd::arithmetic::power2::pow2((shift - 9) as nat);
                assert(logical_block_size == q * 512);
                vstd::arithmetic::power2::lemma_pow2_pos((shift - 9) as nat);
            }
            assert(is_pow2(logical_block_size));
            assert(logical_block_size > 0 ==> logical_block_size % logical_block_size == 0)
                by (nonlinear_arith);
            vstd::arithmetic::power2::lemma_pow2_pos(shift);
        }
        Self::new(logical_block_size, logical_block_size, 0, capacity_blocks)
    }

    /// Size of a logical block in bytes.
    pub fn logical_block_size(&self) -> (r: u32)
        ensures
            r == self.logical_block_size,
    {
        self.logical_block_size
    }

    /// Size of a physical block in bytes.
    pub fn physical_block_size(&self) -> (r: u32)
        ensures
            r == self.physical_block_size,
    {
        self.physical_block_size
    }

    /// Alignment of the unit.
    pub fn alignment(&self) -> (r: u32)
        ensures
            r == self.alignment,
    {
        self.alignment
    }

    /// Capacity in logical blocks.
    pub fn capacity_blocks(&self) -> (r: u64)
        ensures
            r == self.capacity_blocks,
    {
        self.capacity_blocks
    }

    /// Number of sectors in a logical block.
    pub fn sectors_per_block(&self) -> (r: u64)
        ensures
            r == self.sectors_per_block,
    {
        self.sectors_per_block
    }

    /// Capacity in sectors, if that fits.
    pub open spec fn sectors(self) -> Option<u64> {
        if self.capacity_blocks * self.sectors_per_block <= u64::MAX {
            Some((self.capacity_blocks * self.sectors_per_block) as u64)
        } else {
            None
        }
    }

    /// Capacity in sectors, if that fits.
    pub fn capacity_sectors(&self) -> (r: Option<u64>)
        ensures
            r == self.sectors(),
    {
        proof {
            assert(self.capacity_blocks * self.sectors_per_block >= 0) by (nonlinear_arith);
        }
        self.capacity_blocks.checked_mul(self.sectors_per_block)
    }

    /// Largest number of sectors in a discard: as many whole blocks as fit.
    pub fn max_discard_sectors(&self) -> (r: Result<u32, Error>)
        requires
            self.wf(),
        ensures
            r == Ok::<u32, Error>((u32::MAX - u32::MAX as int % self.sectors_per_block as int) as u32),
    {
        let sectors_per_block = match u32::try_from(self.sectors_per_block) {
            Ok(sectors_per_block) => sectors_per_block,
            Err(_) => return Err(Error::EOVERFLOW),
        };
        if sectors_per_block == 0 {
            return Err(Error::EINVAL);
        }
        let remainder = u32::MAX % sectors_per_block;
        match u32::MAX.checked_sub(remainder) {
            Some(sectors) => Ok(sectors),
            None => Err(Error::EOVERFLOW),
        }
    }

    /// Number of whole logical blocks in this many sectors.
    pub fn sectors_to_logical(&self, sectors: u64) -> (r: u64)
        requires
            self.wf(),
        ensures
            r == sectors as int / self.sectors_per_block as int,
    {
        sectors / self.sectors_per_block
    }

    /// Number of sectors in this many logical blocks, if that fits.
    pub fn logical_to_sectors(&self, blocks: u64) -> (r: Option<u64>)
        ensures
            r == (if blocks * self.sectors_per_block <= u64::MAX {
                Some((blocks * self.sectors_per_block) as u64)
            } else {
                None
            }),
    {
        proof {
            assert(blocks * self.sectors_per_block >= 0) by (nonlinear_arith);
        }
        blocks.checked_mul(self.sectors_per_block)
    }

    /// Number of whole logical blocks in this many bytes.
    pub fn bytes_to_logical(&self, bytes: u64) -> (r: u64)
        requires
            self.wf(),
        ensures
            r == (bytes / 512) as int / self.sectors_per_block as int,
    {
        self.sectors_to_logical(bytes / SECTOR_SIZE as u64)
    }

    /// Number of bytes in this many logical blocks, if that fits.
    pub fn logical_to_bytes(&self, blocks: u64) -> (r: Option<u64>)
        ensures
            r == (if blocks * self.sectors_per_block <= u64::MAX && blocks * self.sectors_per_block
                * 512 <= u64::MAX {
                Some((blocks * self.sectors_per_block * 512) as u64)
            } else {
                None
            }),
    {
        match self.logical_to_sectors(blocks) {
            Some(sectors) => sectors.checked_mul(SECTOR_SIZE as u64),
            None => None,
        }
    }
}

/// Blocks lead to sectors and to bytes and back.
pub proof fn law_geometry_round_trip(g: UfsLuGeometry, blocks: u64)
    requires
        g.wf(),
        blocks * g.sectors_per_block * 512 <= u64::MAX,
    ensures
        blocks * g.sectors_per_block <= u64::MAX,
        (blocks * g.sectors_per_block) / g.sectors_per_block as int == blocks,
        (blocks * g.sectors_per_block * 512) / 512 / g.sectors_per_block as int == blocks,
        g.sectors_per_block * 512 == g.logical_block_size,
{
    assert(blocks * g.sectors_per_block >= 0) by (nonlinear_arith);
    assert((blocks * g.sectors_per_block) / g.sectors_per_block as int == blocks)
        by (nonlinear_arith)
        requires
            g.sectors_per_block > 0,
    ;
}

/// A sector range that starts and ends at block boundaries covers whole blocks,
/// and stays within the unit's blocks when it stays within its sectors.
pub proof fn law_aligned_range_is_whole_blocks(g: UfsLuGeometry, sector: u64, sectors: u64)
    requires
        g.wf(),
        sector as int % g.sectors_per_block as int == 0,
        sectors as int % g.sectors_per_block as int == 0,
        g.sectors() is Some,
        sector + sectors <= g.sectors()->0,
    ensures
        ({
            let lba = sector as int / g.sectors_per_block as int;
            let blocks = sectors as int / g.sectors_per_block as int;
            &&& lba * g.sectors_per_block == sector
            &&& blocks * g.sectors_per_block == sectors
            &&& lba + blocks <= g.capacity_blocks
        }),
{
    let spb = g.sectors_per_block as int;
    let lba = sector as int / spb;
    let blocks = sectors as int / spb;
    let capacity = g.capacity_blocks as int;
    vstd::arithmetic::div_mod::lemma_fundamental_div_mod(sector as int, spb);
    vstd::arithmetic::div_mod::lemma_fundamental_div_mod(sectors as int, spb);
    assert(lba * spb == spb * lba) by (nonlinear_arith);
    assert(blocks * spb == spb * blocks) by (nonlinear_arith);
    assert(lba + blocks <= capacity) by (nonlinear_arith)
        requires
            lba * spb + blocks * spb <= capacity * spb,
            spb > 0,
    ;
}

/// What a queue of the block layer is for.
#[derive(Clone, Copy, Debug, PartialEq, Eq, Structural)]
pub enum QueueData {
    /// Device management.
    Dev,
    /// The logical unit with this number.
    Lu(u8),
}

/// A logical unit.
pub struct UfsLu {
    pub lun: u8,
    pub geometry: UfsLuGeometry,
    pub queue_depth: u32,
    pub state: UfsLuState,
    pub disk: Option<BoundGenDisk<QueueData, ()>>,
}

/// An operation that the block layer asks for.
#[derive(Clone, Copy, Debug, PartialEq, Eq, Structural)]
pub enum Command {
    Read,
    Write,
    Flush,
    Discard,
    DriverIn,
    DriverOut,
    /// Any other operation, by its number.
    Other(u32),
}

/// What is done with a request of the block layer.
#[derive(Clone, Copy, Debug)]
pub enum QueueRq {
    /// The block layer gets an error and keeps the request.
    FailStatus(u8),
    /// The block layer gets an error and keeps the request.
    FailError(Error),
    /// The request is started and ends at once, with this status.
    End(u8),
    /// The request is started and carries a device management command.
    Device,
    /// The request is started and carries this command.
    Scsi(UfsSCSICmd),
}

/// `r` is the command that carries an operation out on `blocks` blocks at `lba`,
/// or the error that prevents it.
pub open spec fn scsi_cmd_for(
    lu: UfsLu,
    command: Command,
    lba: u64,
    blocks: u64,
    r: Result<UfsSCSICmd, Error>,
) -> bool {
    if blocks > u32::MAX {
        r == Err::<UfsSCSICmd, Error>(Error::EINVAL)
    } else if lu.geometry.logical_block_size * blocks > u32::MAX {
        r == Err::<UfsSCSICmd, Error>(Error::EOVERFLOW)
    } else {
        let data_len = (lu.geometry.logical_block_size * blocks) as u32;
        match command {
            Command::Read => r matches Ok(cmd) && cmd.is_read_write(
                lu.lun,
                false,
                lba,
                blocks as u32,
                data_len,
                false,
            ),
            Command::Write => r matches Ok(cmd) && cmd.is_read_write(
                lu.lun,
                true,
                lba,
                blocks as u32,
                data_len,
                false,
            ),
            Command::Flush => r matches Ok(cmd) && cmd.is_flush(lu.lun),
            Command::Discard => r matches Ok(cmd) && cmd.is_unmap_of(lu.lun, lba, blocks as u32),
            _ => r == Err::<UfsSCSICmd, Error>(Error::ENOTSUPP),
        }
    }
}

/// What becomes of a command, or of the error that prevents it.
pub open spec fn as_queue_rq(r: Result<UfsSCSICmd, Error>) -> QueueRq {
    match r {
        Ok(cmd) => QueueRq::Scsi(cmd),
        Err(e) => QueueRq::FailError(e),
    }
}

/// `r` is what is done with a read, a write or a discard of a logical unit's
/// sectors. The checks are made in this order: an empty range, an end that does
/// not fit, a range beyond the capacity, a range that cuts a block.
pub open spec fn range_request(
    lu: UfsLu,
    command: Command,
    sector: u64,
    sectors: u32,
    r: QueueRq,
) -> bool {
    let spb = lu.geometry.sectors_per_block as int;
    if sectors == 0 {
        r == QueueRq::End(BLK_STS_OK)
    } else if sector + sectors > u64::MAX {
        r == QueueRq::FailError(Error::EINVAL)
    } else {
        match lu.geometry.sectors() {
            None => r == QueueRq::FailError(Error::EOVERFLOW),
            Some(capacity) => if sector + sectors > capacity {
                r == QueueRq::End(BLK_STS_INVAL)
            } else if sector as int % spb != 0 || sectors as int % spb != 0 {
                r == QueueRq::End(BLK_STS_INVAL)
            } else {
                exists|c: Result<UfsSCSICmd, Error>|
                    #[trigger] scsi_cmd_for(
                        lu,
                        command,
                        (sector as int / spb) as u64,
                        (sectors as int / spb) as u64,
                        c,
                    ) && r == as_queue_rq(c)
            },
        }
    }
}

/// `r` is what is done with a request of the block layer on a queue of this
/// logical unit, or on a queue of none.
pub open spec fn request_plan(
    lu: Option<UfsLu>,
    command: Command,
    sector: u64,
    sectors: u32,
    r: QueueRq,
) -> bool {
    match command {
        Command::Read | Command::Write | Command::Discard => match lu {
            None => r == QueueRq::FailStatus(BLK_STS_IOERR),
            Some(lu) => range_request(lu, command, sector, sectors, r),
        },
        Command::Flush => match lu {
            None => r == QueueRq::FailStatus(BLK_STS_IOERR),
            Some(lu) => r matches QueueRq::Scsi(cmd) && cmd.is_flush(lu.lun),
        },
        Command::DriverIn | Command::DriverOut => r == QueueRq::Device,
        Command::Other(_) => r == QueueRq::End(BLK_STS_NOTSUPP),
    }
}

impl UfsLu {
    /// The geometry is sound.
    pub open spec fn wf(self) -> bool {
        self.geometry.wf()
    }

    /// A logical unit without a disk.
    pub fn new(lun: u8, geometry: UfsLuGeometry, queue_depth: u32) -> (r: Self)
        requires
            geometry.wf(),
        ensures
            r.wf(),
            r == (UfsLu { lun, geometry, queue_depth, state: UfsLuState::Reset, disk: None }),
    {
        UfsLu { lun, geometry, queue_depth, state: UfsLuState::Reset, disk: None }
    }

    /// Limits of the unit's disk.
    pub open spec fn disk_limits(self) -> Result<Limits, Error> {
        let lbs = self.geometry.logical_block_size;
        let pbs = self.geometry.physical_block_size;
        if !request_queue::valid_block_size(lbs) || !request_queue::valid_block_size(pbs) {
            Err(Error::EINVAL)
        } else {
            Ok(
                LimitsBuilder {
                    logical_block_size: lbs,
                    physical_block_size: pbs,
                    max_hw_discard_sectors: (u32::MAX - u32::MAX as int
                        % self.geometry.sectors_per_block as int) as u32,
                    discard_granularity: lbs,
                    max_discard_segments: 1,
                    max_hw_sectors: 2048,
                    max_segments: 256,
                    max_segment_size: 0x0004_0000,
                    ..LimitsBuilder::initial()
                }.limits(),
            )
        }
    }

    /// Limits of the unit's disk.
    pub fn limits(&self) -> (r: Result<Limits, Error>)
        requires
            self.wf(),
        ensures
            r == self.disk_limits(),
    {
        let limits = match LimitsBuilder::new().logical_block_size(
            self.geometry.logical_block_size(),
        ) {
            Ok(limits) => limits,
            Err(e) => return Err(e),
        };
        let limits = match limits.physical_block_size(self.geometry.physical_block_size()) {
            Ok(limits) => limits,
            Err(e) => return Err(e),
        };
        let max_discard_sectors = match self.geometry.max_discard_sectors() {
            Ok(max_discard_sectors) => max_discard_sectors,
            Err(e) => return Err(e),
        };
        let max_segments = match u16::try_from(MAX_PRD_ENTRIES) {
            Ok(max_segments) => max_segments,
            Err(_) => return Err(Error::EOVERFLOW),
        };
        limits.max_hw_discard_sectors(max_discard_sectors).discard_granularity(
            self.geometry.logical_block_size(),
        ).max_discard_segments(MAX_DISCARD_SEGMENTS).max_hw_sectors(MAX_SECTORS).max_segments(
            max_segments,
        ).max_segment_size(PRDT_DATA_BYTE_COUNT_MAX).build(false)
    }

    /// What keeps the unit's disk from being prepared, if anything does.
    pub open spec fn plan_error(self) -> Option<Error> {
        if self.geometry.sectors() is None {
            Some(Error::EOVERFLOW)
        } else if self.disk_limits() is Err {
            Some(Error::EINVAL)
        } else if self.queue_depth == 0 {
            Some(Error::EINVAL)
        } else {
            None
        }
    }

    /// The queue that the platform has to allocate for the unit's disk, and the
    /// disk's size in sectors. A unit that cannot have a disk is refused before
    /// anything is allocated for it.
    pub fn prepare_disk(&self) -> (r: Result<(PendingQueue<QueueData>, u64), Error>)
        requires
            self.wf(),
        ensures
            match self.plan_error() {
                Some(e) => r == Err::<(PendingQueue<QueueData>, u64), Error>(e),
                None => r matches Ok((pending, capacity_sectors)) && {
                    &&& pending.queue_limits() == self.disk_limits()->Ok_0
                    &&& pending.driver_data() == QueueData::Lu(self.lun)
                    &&& pending.queue_depth() == self.queue_depth
                    &&& capacity_sectors == self.geometry.sectors()->0
                },
            },
    {
        let capacity_sectors = match self.geometry.capacity_sectors() {
            Some(capacity_sectors) => capacity_sectors,
            None => return Err(Error::EOVERFLOW),
        };
        let limits = match self.limits() {
            Ok(limits) => limits,
            Err(e) => return Err(e),
        };
        match RequestQueue::prepare(limits, QueueData::Lu(self.lun), self.queue_depth) {
            Ok(pending) => Ok((pending, capacity_sectors)),
            Err(e) => Err(e),
        }
    }

    /// What keeps the unit's disk from being set up, if anything does.
    pub open spec fn disk_error(
        self,
        queue_allocated: Result<(), Error>,
        setup: DiskSetup,
    ) -> Option<Error> {
        if self.plan_error() is Some {
            self.plan_error()
        } else if queue_allocated is Err {
            Some(queue_allocated->Err_0)
        } else if setup.verdict() is Err {
            Some(setup.verdict()->Err_0)
        } else if self.disk is Some {
            Some(Error::EBUSY)
        } else {
            None
        }
    }

    /// Sets the unit's disk up, given what the platform answered while the queue
    /// that was prepared for it and the disk were allocated. The unit is
    /// operational from then on.
    pub fn init_disk(&mut self, queue_allocated: Result<(), Error>, setup: DiskSetup) -> (r: Result<
        (),
        Error,
    >)
        requires
            old(self).wf(),
        ensures
            match old(self).disk_error(queue_allocated, setup) {
                Some(e) => r == Err::<(), Error>(e) && *final(self) == *old(self),
                None => {
                    &&& r == Ok::<(), Error>(())
                    &&& final(self).disk matches Some(disk) && {
                        let queue = disk.0.request_queue().0;
                        &&& queue.queue_limits() == old(self).disk_limits()->Ok_0
                        &&& queue.driver_data() == QueueData::Lu(old(self).lun)
                        &&& queue.queue_depth() == old(self).queue_depth
                        &&& !queue.is_stopped()
                        &&& disk.0.sectors() == old(self).geometry.sectors()->0
                    }
                    &&& *final(self) == (UfsLu {
                        state: UfsLuState::Operational,
                        disk: final(self).disk,
                        ..*old(self)
                    })
                },
            },
    {
        let (pending, capacity_sectors) = match self.prepare_disk() {
            Ok(prepared) => prepared,
            Err(e) => return Err(e),
        };
        let request_queue = match RequestQueue::new(pending, queue_allocated) {
            Ok(request_queue) => request_queue,
            Err(e) => return Err(e),
        };
        let disk = match GenDisk::new_for_queue(request_queue, capacity_sectors, (), setup) {
            Ok((disk, _)) => disk,
            Err(e) => return Err(e),
        };
        if self.disk.is_some() {
            return Err(Error::EBUSY);
        }
        self.disk = Some(disk);
        self.state = UfsLuState::Operational;
        Ok(())
    }

    /// Takes the unit's disk out. The unit is back in its initial state.
    pub fn remove_disk(&mut self) -> (r: Option<BoundGenDisk<QueueData, ()>>)
        ensures
            r == old(self).disk,
            *final(self) == (UfsLu { state: UfsLuState::Reset, disk: None, ..*old(self) }),
    {
        self.state = UfsLuState::Reset;
        let mut disk: Option<BoundGenDisk<QueueData, ()>> = None;
        core::mem::swap(&mut self.disk, &mut disk);
        disk
    }

    /// Number of the unit.
    pub fn lun(&self) -> (r: u8)
        ensures
            r == self.lun,
    {
        self.lun
    }

    /// Geometry of the unit.
    pub fn geometry(&self) -> (r: UfsLuGeometry)
        ensures
            r == self.geometry,
    {
        self.geometry
    }

    /// State of the unit.
    pub fn state(&self) -> (r: UfsLuState)
        ensures
            r == self.state,
    {
        self.state
    }

    /// Changes the state of the unit.
    pub fn set_state(&mut self, state: UfsLuState)
        ensures
            *final(self) == (UfsLu { state, ..*old(self) }),
    {
        self.state = state;
    }

    /// Whether the unit is operational.
    pub fn is_operational(&self) -> (r: bool)
        ensures
            r == (self.state == UfsLuState::Operational),
    {
        self.state() == UfsLuState::Operational
    }

    /// The command that carries an operation out on `blocks` blocks at `lba`.
    pub fn build_scsi_cmd(&self, command: Command, lba: u64, blocks: u64) -> (r: Result<
        UfsSCSICmd,
        Error,
    >)
        ensures
            scsi_cmd_for(*self, command, lba, blocks, r),
    {
        let blocks = match u32::try_from(blocks) {
            Ok(blocks) => blocks,
            Err(_) => return Err(Error::EINVAL),
        };
        let block_size = self.geometry.logical_block_size();
        assert(0 <= block_size * blocks <= 0xffff_ffff * 0xffff_ffff) by (nonlinear_arith)
            requires
                block_size <= 0xffff_ffff,
                blocks <= 0xffff_ffff,
        ;
        let bytes = block_size as u64 * blocks as u64;
        let data_len = match u32::try_from(bytes) {
            Ok(data_len) => data_len,
            Err(_) => return Err(Error::EOVERFLOW),
        };
        match command {
            Command::Read => Ok(
                UfsSCSICmd::read_write(self.lun, false, lba, blocks, data_len, false),
            ),
            Command::Write => Ok(
                UfsSCSICmd::read_write(self.lun, true, lba, blocks, data_len, false),
            ),
            Command::Flush => Ok(UfsSCSICmd::flush(self.lun)),
            Command::Discard => Ok(UfsSCSICmd::unmap(self.lun, lba, blocks)),
            _ => Err(Error::ENOTSUPP),
        }
    }

    /// What is done with a read, a write or a discard of the unit's sectors.
    fn range_rq(&self, command: Command, sector: u64, sectors: u32) -> (r: QueueRq)
        requires
            self.wf(),
        ensures
            range_request(*self, command, sector, sectors, r),
    {
        let geometry = self.geometry();
        if sectors == 0 {
            return QueueRq::End(BLK_STS_OK);
        }
        let end = match sector.checked_add(sectors as u64) {
            Some(end) => end,
            None => return QueueRq::FailError(Error::EINVAL),
        };
        let capacity = match geometry.capacity_sectors() {
            Some(capacity) => capacity,
            None => return QueueRq::FailError(Error::EOVERFLOW),
        };
        if end > capacity {
            return QueueRq::End(BLK_STS_INVAL);
        }
        let spb = geometry.sectors_per_block();
        if sector % spb != 0 || sectors as u64 % spb != 0 {
            return QueueRq::End(BLK_STS_INVAL);
        }
        let lba = geometry.sectors_to_logical(sector);
        let blocks = geometry.sectors_to_logical(sectors as u64);
        let cmd = self.build_scsi_cmd(command, lba, blocks);
        let r = match cmd {
            Ok(cmd) => QueueRq::Scsi(cmd),
            Err(e) => QueueRq::FailError(e),
        };
        proof {
            let n = self.geometry.sectors_per_block as int;
            assert(lba == (sector as int / n) as u64);
            assert(blocks == (sectors as int / n) as u64);
            assert(scsi_cmd_for(*self, command, lba, blocks, cmd) && r == as_queue_rq(cmd));
        }
        r
    }
}

/// What is done with a request of the block layer.
pub fn queue_rq(lu: Option<&UfsLu>, command: Command, sector: u64, sectors: u32) -> (r: QueueRq)
    requires
        lu matches Some(lu) ==> lu.wf(),
    ensures
        request_plan(
            match lu {
                Some(lu) => Some(*lu),
                None => None,
            },
            command,
            sector,
            sectors,
            r,
        ),
{
    match command {
        Command::Read | Command::Write | Command::Discard => {
            match lu {
                Some(lu) => lu.range_rq(command, sector, sectors),
                None => QueueRq::FailStatus(BLK_STS_IOERR),
            }
        },
        Command::Flush => {
            match lu {
                Some(lu) => {
                    match lu.build_scsi_cmd(command, 0, 0) {
                        Ok(cmd) => QueueRq::Scsi(cmd),
                        Err(e) => QueueRq::FailError(e),
                    }
                },
                None => QueueRq::FailStatus(BLK_STS_IOERR),
            }
        },
        Command::DriverIn | Command::DriverOut => QueueRq::Device,
        Command::Other(_) => QueueRq::End(BLK_STS_NOTSUPP),
    }
}

/// How a request goes back to the block layer.
#[derive(Clone, Copy, Debug, PartialEq, Eq, Structural)]
pub enum HandBack {
    /// To be tried again.
    Requeue,
    /// With this status.
    End(u8),
}

/// Gives a request back that never reached the controller. Since the command was
/// not submitted, no completion can race with that. The second part of the result
/// is the mapping that has to be released.
pub fn complete_unsubmitted(request: &mut UfsRequestInner, e: Error) -> (r: (
    HandBack,
    Option<UfsPrdtMapping>,
))
    ensures
        final(request).state is Idle,
        r.0 == (if e.number() == Error::EBUSY.number() {
            HandBack::Requeue
        } else {
            HandBack::End(BLK_STS_IOERR)
        }),
        r.1 == (match old(request).state.held() {
            Some((_, prdt)) => prdt,
            None => None,
        }),
{
    let mapping = request.reset();
    if e.same_as(Error::EBUSY) {
        (HandBack::Requeue, mapping)
    } else {
        (HandBack::End(BLK_STS_IOERR), mapping)
    }
}

/// How a request whose completion was scheduled goes back.
pub fn complete(request: &mut UfsRequestInner) -> (r: Result<HandBack, Error>)
    ensures
        match old(request).state {
            UfsRequestState::CompletionReady(disposition) => {
                &&& final(request).state is Idle
                &&& r == Ok::<HandBack, Error>(
                    match disposition {
                        CompletionDisposition::Requeue => HandBack::Requeue,
                        CompletionDisposition::End(status) => HandBack::End(
                            if status <= u8::MAX {
                                status as u8
                            } else {
                                BLK_STS_IOERR
                            },
                        ),
                    },
                )
            },
            _ => r == Err::<HandBack, Error>(Error::EIO) && final(request).state == old(
                request,
            ).state,
        },
{
    match request.take_scheduled_completion() {
        Ok(CompletionDisposition::Requeue) => Ok(HandBack::Requeue),
        Ok(CompletionDisposition::End(status)) => Ok(HandBack::End(end_status(status))),
        Err(e) => Err(e),
    }
}

/// What the block layer is told about a timeout.
#[derive(Clone, Copy, Debug, PartialEq, Eq, Structural)]
pub enum RequestTimeoutStatus {
    Completed,
    RetryLater,
}

/// What the block layer is told about a timeout. `done` says whether the request
/// is done; it is `None` when there is no request at the tag any more.
pub fn request_timeout(done: Option<bool>) -> (r: RequestTimeoutStatus)
    ensures
        r == (if done == Some(false) {
            RequestTimeoutStatus::RetryLater
        } else {
            RequestTimeoutStatus::Completed
        }),
{
    match done {
        Some(false) => RequestTimeoutStatus::RetryLater,
        _ => RequestTimeoutStatus::Completed,
    }
}

/// The logical unit whose queue is polled.
pub fn poll_target(queue_data: QueueData) -> (r: Result<u8, Error>)
    ensures
        r == (match queue_data {
            QueueData::Lu(lun) => Ok::<u8, Error>(lun),
            QueueData::Dev => Err(Error::EIO),
        }),
{
    match queue_data {
        QueueData::Lu(lun) => Ok(lun),
        QueueData::Dev => Err(Error::EIO),
    }
}

/// One of the block layer's queue maps.
#[derive(Clone, Copy, Debug, PartialEq, Eq, Structural)]
pub struct QueueMapEntry {
    pub kind: QueueType,
    pub count: u32,
    pub offset: u32,
}

/// The block layer's queue map for one use of a layout: the queues that the
/// layout has for it.
pub open spec fn queue_map_of(map: UfsQueueMap, kind: QueueType) -> QueueMapEntry {
    QueueMapEntry {
        kind,
        count: map.range_of(kind).count as u32,
        offset: map.range_of(kind).offset as u32,
    }
}

/// The block layer's queue map for one use of a layout.
fn map_queue(map: &UfsQueueMap, kind: QueueType) -> (r: QueueMapEntry)
    ensures
        r == queue_map_of(*map, kind),
{
    let range = map.range(kind);
    QueueMapEntry { kind, count: range.count() as u32, offset: range.offset() as u32 }
}

/// The block layer's queue maps for a layout: for default use, for reads and for
/// polling.
pub fn map_queues(map: &UfsQueueMap) -> (r: [QueueMapEntry; 3])
    ensures
        r@ == seq![
            queue_map_of(*map, QueueType::Default),
            queue_map_of(*map, QueueType::Read),
            queue_map_of(*map, QueueType::Poll),
        ],
{
    let r = [
        map_queue(map, QueueType::Default),
        map_queue(map, QueueType::Read),
        map_queue(map, QueueType::Poll),
    ];
    assert(r@ =~= seq![
        queue_map_of(*map, QueueType::Default),
        queue_map_of(*map, QueueType::Read),
        queue_map_of(*map, QueueType::Poll),
    ]);
    r
}

/// The block layer's queue maps name the same queues as the layout does,
/// whatever the layout.
pub proof fn law_queue_maps_follow_layout(map: UfsQueueMap, kind: QueueType, queue: int)
    requires
        map.range_of(kind).offset <= u32::MAX,
        map.range_of(kind).count <= u32::MAX,
    ensures
        ({
            let entry = queue_map_of(map, kind);
            &&& entry.offset == map.range_of(kind).offset
            &&& entry.count == map.range_of(kind).count
            &&& entry.offset <= queue < entry.offset + entry.count <==> map.range_of(kind).has(
                queue,
            )
        }),
{
}

/// The block layer's queue maps name nothing but queues that exist, with a single
/// doorbell and with multi-circular queues alike.
pub proof fn law_queue_maps_name_existing_queues(config: UfsTransferConfig, kind: QueueType)
    requires
        config.map() is Ok,
        config.map()->Ok_0.nr_hw_queues <= u32::MAX,
    ensures
        ({
            let map = config.map()->Ok_0;
            let entry = queue_map_of(map, kind);
            entry.offset + entry.count <= map.nr_hw_queues
        }),
{
}

/// With multi-circular queues the block layer's queue maps follow one another:
/// the queues for default use come first, then those for reads, then those for
/// polling.
pub proof fn law_queue_maps_accumulate(
    nr_hw_queues: usize,
    default_queues: usize,
    read_queues: usize,
    poll_queues: usize,
)
    requires
        nr_hw_queues <= u32::MAX,
        UfsQueueMap::of(nr_hw_queues, default_queues, read_queues, poll_queues) is Ok,
    ensures
        ({
            let map = UfsQueueMap::of(nr_hw_queues, default_queues, read_queues, poll_queues)->Ok_0;
            let default = queue_map_of(map, QueueType::Default);
            let read = queue_map_of(map, QueueType::Read);
            let poll = queue_map_of(map, QueueType::Poll);
            &&& default.offset == 0
            &&& read.offset == default.offset + default.count
            &&& poll.offset == read.offset + read.count
            &&& poll.offset + poll.count == nr_hw_queues
        }),
{
}

/// A command that goes to the controller for a read, write or discard stays
/// within the logical unit: it names exactly the blocks of the request's
/// sectors.
pub proof fn law_commands_stay_in_unit(
    lu: UfsLu,
    command: Command,
    sector: u64,
    sectors: u32,
    cmd: UfsSCSICmd,
)
    requires
        lu.wf(),
        command == Command::Read || command == Command::Write || command == Command::Discard,
        request_plan(Some(lu), command, sector, sectors, QueueRq::Scsi(cmd)),
    ensures
        exists|lba: u64, blocks: u32|
            {
                &&& 0 < blocks
                &&& lba * lu.geometry.sectors_per_block == sector
                &&& blocks * lu.geometry.sectors_per_block == sectors
                &&& lba + blocks <= lu.geometry.capacity_blocks
                &&& #[trigger] scsi_cmd_for(
                    lu,
                    command,
                    lba,
                    blocks as u64,
                    Ok::<UfsSCSICmd, Error>(cmd),
                )
            },
{
    let spb = lu.geometry.sectors_per_block as int;
    let lba = (sector as int / spb) as u64;
    let blocks = (sectors as int / spb) as u64;
    let c = choose|c: Result<UfsSCSICmd, Error>|
        #[trigger] scsi_cmd_for(lu, command, lba, blocks, c) && QueueRq::Scsi(cmd) == as_queue_rq(
            c,
        );
    law_aligned_range_is_whole_blocks(lu.geometry, sector, sectors as u64);
    assert(c == Ok::<UfsSCSICmd, Error>(cmd));
    assert(blocks > 0) by (nonlinear_arith)
        requires
            blocks * spb == sectors,
            sectors > 0,
    ;
    let n = blocks as u32;
    assert(n as u64 == blocks);
    assert(scsi_cmd_for(lu, command, lba, n as u64, Ok::<UfsSCSICmd, Error>(cmd)));
}

/// What becomes of a read or a write of `sectors` sectors of 512 bytes from
/// `sector` on. Within the unit, and at block boundaries, the command that goes
/// to the device asks for exactly the blocks of those sectors, moves 512 bytes
/// for each of them, and moves them the way of the request. An empty request is
/// done at once; one beyond the unit, or one that cuts a block, is refused.
pub proof fn law_request_moves_its_sectors(
    lu: UfsLu,
    command: Command,
    sector: u64,
    sectors: u32,
    r: QueueRq,
)
    requires
        lu.wf(),
        command == Command::Read || command == Command::Write,
        request_plan(Some(lu), command, sector, sectors, r),
    ensures
        ({
            let spb = lu.geometry.logical_block_size as int / 512;
            let end = sector + sectors;
            let capacity = lu.geometry.capacity_blocks * spb;
            if sectors == 0 {
                r == QueueRq::End(0)
            } else if end > u64::MAX {
                r == QueueRq::FailError(Error::EINVAL)
            } else if capacity > u64::MAX {
                r == QueueRq::FailError(Error::EOVERFLOW)
            } else if end > capacity || sector as int % spb != 0 || sectors as int % spb != 0 {
                r == QueueRq::End(19)
            } else if 512 * sectors > u32::MAX {
                r == QueueRq::FailError(Error::EOVERFLOW)
            } else {
                r matches QueueRq::Scsi(cmd) && {
                    &&& crate::scsi::asks_for(cmd.cdb@) matches Some((write, first, count)) && {
                        &&& write == (command == Command::Write)
                        &&& first == sector as int / spb
                        &&& count == sectors as int / spb
                        &&& first * spb == sector
                        &&& count * spb == sectors
                    }
                    &&& cmd.cdb@[1] == 0
                    &&& command == Command::Read ==> cmd.direction is Read
                    &&& command == Command::Write ==> cmd.direction is Write
                    &&& cmd.data_len == 512 * sectors
                    &&& cmd.lun == lu.lun
                }
            }
        }),
{
    lemma_range_request(lu, command, sector, sectors, r);
    let spb = lu.geometry.sectors_per_block as int;
    if r is Scsi {
        let lba = (sector as int / spb) as u64;
        let blocks = (sectors as int / spb) as u64;
        let cmd = r->Scsi_0;
        crate::scsi::law_device_finds_the_blocks(
            cmd,
            lu.lun,
            command == Command::Write,
            lba,
            blocks as u32,
            (512 * sectors) as u32,
            false,
        );
    }
}

/// What becomes of a discard of `sectors` sectors from `sector` on: within the
/// unit, and at block boundaries, the command that goes to the device unmaps
/// exactly the blocks of those sectors.
pub proof fn law_discard_unmaps_its_sectors(lu: UfsLu, sector: u64, sectors: u32, r: QueueRq)
    requires
        lu.wf(),
        request_plan(Some(lu), Command::Discard, sector, sectors, r),
    ensures
        ({
            let spb = lu.geometry.logical_block_size as int / 512;
            let end = sector + sectors;
            let capacity = lu.geometry.capacity_blocks * spb;
            if sectors == 0 {
                r == QueueRq::End(0)
            } else if end > u64::MAX {
                r == QueueRq::FailError(Error::EINVAL)
            } else if capacity > u64::MAX {
                r == QueueRq::FailError(Error::EOVERFLOW)
            } else if end > capacity || sector as int % spb != 0 || sectors as int % spb != 0 {
                r == QueueRq::End(19)
            } else if 512 * sectors > u32::MAX {
                r == QueueRq::FailError(Error::EOVERFLOW)
            } else {
                r matches QueueRq::Scsi(cmd) && {
                    let list = crate::scsi::unmap_params(cmd.unmap_lba, cmd.unmap_blocks);
                    &&& cmd.cdb@[0] == 0x42
                    &&& cmd.lun == lu.lun
                    &&& cmd.direction is Write
                    &&& cmd.data_len == 24
                    &&& crate::endian::be_value(list.subrange(8, 16)) * spb == sector
                    &&& crate::endian::be_value(list.subrange(16, 20)) * spb == sectors
                }
            }
        }),
{
    lemma_range_request(lu, Command::Discard, sector, sectors, r);
    let spb = lu.geometry.sectors_per_block as int;
    if r is Scsi {
        let lba = (sector as int / spb) as u64;
        let blocks = (sectors as int / spb) as u64;
        crate::scsi::law_device_finds_the_unmapped_range(r->Scsi_0, lu.lun, lba, blocks as u32);
    }
}

/// Whole blocks of sectors, and what they hold in bytes.
proof fn lemma_range_request(lu: UfsLu, command: Command, sector: u64, sectors: u32, r: QueueRq)
    requires
        lu.wf(),
        range_request(lu, command, sector, sectors, r),
    ensures
        ({
            let spb = lu.geometry.sectors_per_block as int;
            let lba = sector as int / spb;
            let blocks = sectors as int / spb;
            let inside = {
                &&& sectors > 0
                &&& sector + sectors <= u64::MAX
                &&& lu.geometry.sectors() is Some
                &&& sector + sectors <= lu.geometry.sectors()->0
                &&& sector as int % spb == 0
                &&& sectors as int % spb == 0
            };
            &&& 0 < spb
            &&& inside ==> {
                &&& lba * spb == sector
                &&& blocks * spb == sectors
                &&& 0 <= lba <= u64::MAX
                &&& 0 <= blocks <= u32::MAX
                &&& lu.geometry.logical_block_size * blocks == 512 * sectors
                &&& exists|c: Result<UfsSCSICmd, Error>|
                    #[trigger] scsi_cmd_for(lu, command, lba as u64, blocks as u64, c) && r
                        == as_queue_rq(c)
            }
        }),
{
    let spb = lu.geometry.sectors_per_block as int;
    let blocks = sectors as int / spb;
    if sectors > 0 && lu.geometry.sectors() is Some && sector + sectors <= lu.geometry.sectors()->0
        && sector as int % spb == 0 && sectors as int % spb == 0 {
        law_aligned_range_is_whole_blocks(lu.geometry, sector, sectors as u64);
        let lbs = lu.geometry.logical_block_size as int;
        assert(lbs == 512 * spb);
        assert(lbs * blocks == 512 * sectors) by (nonlinear_arith)
            requires
                lbs == 512 * spb,
                blocks * spb == sectors,
        ;
        assert(0 <= blocks <= sectors) by (nonlinear_arith)
            requires
                blocks * spb == sectors,
                spb >= 1,
                sectors >= 0,
        ;
        let lba = sector as int / spb;
        assert(0 <= lba <= sector) by (nonlinear_arith)
            requires
                lba * spb == sector,
                spb >= 1,
                sector >= 0,
        ;
    }
}

/// What becomes of the other requests: a flush has the device write its cache, a
/// request of the driver itself is the driver's, and nothing else is supported.
/// A request for a unit that does not exist fails with an I/O error.
pub proof fn law_other_requests(
    lu: Option<UfsLu>,
    command: Command,
    sector: u64,
    sectors: u32,
    r: QueueRq,
)
    requires
        request_plan(lu, command, sector, sectors, r),
    ensures
        command == Command::DriverIn || command == Command::DriverOut ==> r == QueueRq::Device,
        command is Other ==> r == QueueRq::End(1),
        lu is None && (command == Command::Read || command == Command::Write || command
            == Command::Discard || command == Command::Flush) ==> r == QueueRq::FailStatus(10),
        lu is Some && command == Command::Flush ==> (r matches QueueRq::Scsi(cmd) && {
            &&& cmd.cdb@[0] == 0x35
            &&& forall|i: int| 1 <= i < 16 ==> #[trigger] cmd.cdb@[i] == 0
            &&& cmd.lun == lu->0.lun
            &&& cmd.direction is NoData
            &&& cmd.data_len == 0
        }),
{
}

/// What a unit's disk may be asked for: blocks of the unit's sizes, requests of no
/// more than 2048 sectors in 256 segments of 256 KiB, and discards of one range of
/// whole blocks each, as long as 32 bits can say.
pub proof fn law_disk_limits(lu: UfsLu)
    requires
        lu.wf(),
    ensures
        lu.disk_limits() matches Ok(limits) ==> {
            let spb = lu.geometry.logical_block_size as int / 512;
            &&& limits.logical_block_size == lu.geometry.logical_block_size
            &&& limits.physical_block_size == lu.geometry.physical_block_size
            &&& limits.max_hw_sectors == 2048
            &&& limits.max_segments == 256
            &&& limits.max_segment_size == 0x4_0000
            &&& limits.max_discard_segments == 1
            &&& limits.discard_granularity == lu.geometry.logical_block_size
            &&& limits.max_hw_discard_sectors as int % spb == 0
            &&& u32::MAX - spb < limits.max_hw_discard_sectors <= u32::MAX
            &&& !limits.features.zoned
        },
        lu.disk_limits() is Ok <==> lu.geometry.physical_block_size <= 4096
            && request_queue::valid_block_size(lu.geometry.physical_block_size)
            && request_queue::valid_block_size(lu.geometry.logical_block_size),
{
    let spb = lu.geometry.sectors_per_block as int;
    let max = u32::MAX as int;
    assert(spb > 0);
    vstd::arithmetic::div_mod::lemma_fundamental_div_mod(max, spb);
    vstd::arithmetic::div_mod::lemma_mod_multiples_basic(max / spb, spb);
    assert(spb * (max / spb) == (max / spb) * spb) by (nonlinear_arith);
}

/// What keeps a unit's disk from being prepared or set up, and in which order it
/// is found: a capacity that does not fit, block sizes that will not do, a depth of
/// 0, then what the platform reports, and a disk that is there already.
pub proof fn law_what_keeps_disk(lu: UfsLu, queue_allocated: Result<(), Error>, setup: DiskSetup)
    requires
        lu.wf(),
    ensures
        ({
            let spb = lu.geometry.logical_block_size as int / 512;
            let too_large = lu.geometry.capacity_blocks * spb > u64::MAX;
            let refused = lu.disk_limits() is Err || lu.queue_depth == 0;
            let e = lu.disk_error(queue_allocated, setup);
            &&& too_large ==> e == Some(Error::EOVERFLOW)
            &&& !too_large && refused ==> e == Some(Error::EINVAL)
            &&& !too_large && !refused && queue_allocated is Err ==> e == Some(
                queue_allocated->Err_0,
            )
            &&& !too_large && !refused && queue_allocated is Ok && setup.verdict() is Err ==> e
                == Some(setup.verdict()->Err_0)
            &&& !too_large && !refused && queue_allocated is Ok && setup.verdict() is Ok ==> e
                == if lu.disk is Some {
                Some(Error::EBUSY)
            } else {
                None
            }
            &&& lu.plan_error() is None <==> !too_large && !refused
        }),
{
}

/// The command for an operation on `blocks` blocks from `lba` on. Where 32 bits
/// cannot hold the number of blocks, or that of their bytes, there is none.
pub proof fn law_command_for_blocks(
    lu: UfsLu,
    command: Command,
    lba: u64,
    blocks: u64,
    r: Result<UfsSCSICmd, Error>,
)
    requires
        scsi_cmd_for(lu, command, lba, blocks, r),
    ensures
        ({
            let bytes = lu.geometry.logical_block_size * blocks;
            if blocks > 0xffff_ffff {
                r == Err::<UfsSCSICmd, Error>(Error::EINVAL)
            } else if bytes > 0xffff_ffff {
                r == Err::<UfsSCSICmd, Error>(Error::EOVERFLOW)
            } else if command == Command::Read || command == Command::Write {
                r matches Ok(cmd) && {
                    &&& crate::scsi::asks_for(cmd.cdb@) == Some(
                        (command == Command::Write, lba as nat, blocks as nat),
                    )
                    &&& cmd.cdb@[1] == 0
                    &&& command == Command::Read ==> cmd.direction is Read
                    &&& command == Command::Write ==> cmd.direction is Write
                    &&& cmd.data_len == bytes
                    &&& cmd.lun == lu.lun
                }
            } else if command == Command::Discard {
                r matches Ok(cmd) && {
                    let list = crate::scsi::unmap_params(cmd.unmap_lba, cmd.unmap_blocks);
                    &&& cmd.cdb@[0] == 0x42
                    &&& cmd.lun == lu.lun
                    &&& cmd.direction is Write
                    &&& cmd.data_len == 24
                    &&& crate::endian::be_value(list.subrange(8, 16)) == lba
                    &&& crate::endian::be_value(list.subrange(16, 20)) == blocks
                }
            } else if command == Command::Flush {
                r matches Ok(cmd) && {
                    &&& cmd.cdb@[0] == 0x35
                    &&& cmd.lun == lu.lun
                    &&& cmd.direction is NoData
                    &&& cmd.data_len == 0
                }
            } else {
                r == Err::<UfsSCSICmd, Error>(Error::ENOTSUPP)
            }
        }),
{
    let bytes = lu.geometry.logical_block_size * blocks;
    if blocks <= 0xffff_ffff && bytes <= 0xffff_ffff && r is Ok {
        let cmd = r->Ok_0;
        assert(0 <= bytes) by (nonlinear_arith)
            requires
                bytes == lu.geometry.logical_block_size * blocks,
                0 <= lu.geometry.logical_block_size,
                0 <= blocks,
        ;
        if command == Command::Read || command == Command::Write {
            crate::scsi::law_device_finds_the_blocks(
                cmd,
                lu.lun,
                command == Command::Write,
                lba,
                blocks as u32,
                bytes as u32,
                false,
            );
        } else if command == Command::Discard {
            crate::scsi::law_device_finds_the_unmapped_range(cmd, lu.lun, lba, blocks as u32);
        }
    }
}

/// Which block sizes a unit can have: a logical block is 512 times a power of two
/// in bytes, and a physical one is a whole number of logical ones. A physical size
/// of 0 stands for the logical one.
pub proof fn law_fitting_block_sizes(logical: u32, physical: u32)
    ensures
        UfsLuGeometry::fits(logical, physical) <==> {
            &&& logical >= 512
            &&& exists|k: nat| logical == #[trigger] vstd::arithmetic::power2::pow2(k)
            &&& physical == 0 || (physical >= logical && physical as int % logical as int == 0)
        },
{
    if logical >= 512 && is_pow2(logical) {
        let k = choose|k: nat| logical == #[trigger] vstd::arithmetic::power2::pow2(k);
        vstd::arithmetic::power2::lemma2_to64();
        if k < 9 {
            vstd::arithmetic::power2::lemma_pow2_strictly_increases(k, 9);
        }
        vstd::arithmetic::power2::lemma_pow2_adds(9, (k - 9) as nat);
        let p = vstd::arithmetic::power2::pow2((k - 9) as nat) as int;
        assert(logical == 512 * p);
        assert((512 * p) % 512 == 0) by (nonlinear_arith);
    }
}

/// What a read or a write of the block layer becomes, whatever its range: see the
/// law on the plan for it. This is what the driver does with the request.
pub proof fn law_queued_request_moves_its_sectors(
    lu: UfsLu,
    command: Command,
    sector: u64,
    sectors: u32,
    r: QueueRq,
)
    requires
        lu.wf(),
        command == Command::Read || command == Command::Write,
        call_ensures(queue_rq, (Some(&lu), command, sector, sectors), r),
    ensures
        ({
            let spb = lu.geometry.logical_block_size as int / 512;
            let inside = sector + sectors <= lu.geometry.capacity_blocks * spb
                && lu.geometry.capacity_blocks * spb <= u64::MAX;
            let whole = sector as int % spb == 0 && sectors as int % spb == 0;
            let sent = sectors > 0 && inside && whole && 512 * sectors <= u32::MAX;
            &&& r is Scsi <==> sent
            &&& r matches QueueRq::Scsi(cmd) ==> {
                &&& crate::scsi::asks_for(cmd.cdb@) matches Some((write, first, count)) && {
                    &&& write == (command == Command::Write)
                    &&& first * spb == sector
                    &&& count * spb == sectors
                    &&& first == sector as int / spb
                    &&& count == sectors as int / spb
                }
                &&& command == Command::Read ==> cmd.direction is Read
                &&& command == Command::Write ==> cmd.direction is Write
                &&& cmd.data_len == 512 * sectors
                &&& cmd.lun == lu.lun
            }
        }),
{
    law_request_moves_its_sectors(lu, command, sector, sectors, r);
}

/// The command that the driver builds for blocks asks for exactly those blocks.
pub proof fn law_built_command_asks_for_blocks(
    lu: UfsLu,
    command: Command,
    lba: u64,
    blocks: u64,
    cmd: UfsSCSICmd,
)
    requires
        command == Command::Read || command == Command::Write,
        call_ensures(
            UfsLu::build_scsi_cmd,
            (&lu, command, lba, blocks),
            Ok::<UfsSCSICmd, Error>(cmd),
        ),
    ensures
        crate::scsi::asks_for(cmd.cdb@) == Some(
            (command == Command::Write, lba as nat, blocks as nat),
        ),
        cmd.data_len == lu.geometry.logical_block_size * blocks,
        cmd.direction is Write <==> command == Command::Write,
        cmd.direction is Read <==> command == Command::Read,
{
    law_command_for_blocks(lu, command, lba, blocks, Ok(cmd));
}

/// Blocks lead to sectors and back, and to bytes and back.
pub proof fn law_geometry_calls_undo_each_other(
    g: UfsLuGeometry,
    blocks: u64,
    sectors: u64,
    bytes: u64,
    from_sectors: u64,
    from_bytes: u64,
)
    requires
        g.wf(),
        call_ensures(UfsLuGeometry::logical_to_sectors, (&g, blocks), Some(sectors)),
        call_ensures(UfsLuGeometry::logical_to_bytes, (&g, blocks), Some(bytes)),
        call_ensures(UfsLuGeometry::sectors_to_logical, (&g, sectors), from_sectors),
        call_ensures(UfsLuGeometry::bytes_to_logical, (&g, bytes), from_bytes),
    ensures
        from_sectors == blocks,
        from_bytes == blocks,
        bytes == 512 * sectors,
        bytes == blocks * g.logical_block_size,
{
    let spb = g.sectors_per_block;
    assert(blocks * spb * 512 >= 0 && blocks * spb >= 0) by (nonlinear_arith);
    law_geometry_round_trip(g, blocks);
    let lbs = g.logical_block_size;
    assert(blocks * spb * 512 == blocks * lbs) by (nonlinear_arith)
        requires
            spb * 512 == lbs,
    ;
}

/// A request that was not handed over goes back to be tried again exactly when the
/// controller was busy; otherwise it ends with an I/O error (10). Either way it is
/// idle, and its mapping is handed out to be released.
pub proof fn law_unsubmitted_request_goes_back(
    request: &mut UfsRequestInner,
    e: Error,
    r: (HandBack, Option<UfsPrdtMapping>),
)
    requires
        call_ensures(complete_unsubmitted, (request, e), r),
    ensures
        r.0 == HandBack::Requeue <==> e.number() == -16,
        e.number() != -16 ==> r.0 == HandBack::End(10),
        final(request).state is Idle,
        old(request).state matches UfsRequestState::Prepared { prdt, .. } ==> r.1 == prdt,
{
}

/// A request whose completion was scheduled goes back once, as it was scheduled.
pub proof fn law_scheduled_completion_goes_back_once(
    request: &mut UfsRequestInner,
    r: Result<HandBack, Error>,
    again: &mut UfsRequestInner,
    second: Result<HandBack, Error>,
)
    requires
        call_ensures(complete, (request,), r),
        *old(again) == *final(request),
        call_ensures(complete, (again,), second),
    ensures
        r is Ok <==> old(request).state is CompletionReady,
        old(request).state matches UfsRequestState::CompletionReady(
            CompletionDisposition::Requeue,
        ) ==> r == Ok::<HandBack, Error>(HandBack::Requeue),
        old(request).state matches UfsRequestState::CompletionReady(
            CompletionDisposition::End(status),
        ) ==> status < 256 ==> r == Ok::<HandBack, Error>(HandBack::End(status as u8)),
        second == Err::<HandBack, Error>(Error::EIO),
{
}

/// A unit's disk holds all of its blocks and goes by its number. It is set up once;
/// taking it out leaves the unit as it was before.
pub proof fn law_disk_is_set_up_once(
    lu: &mut UfsLu,
    queue_allocated: Result<(), Error>,
    setup: DiskSetup,
    r: Result<(), Error>,
    same: &mut UfsLu,
    second: Result<(), Error>,
    gone: &mut UfsLu,
    disk: Option<BoundGenDisk<QueueData, ()>>,
)
    requires
        old(lu).wf(),
        call_ensures(UfsLu::init_disk, (lu, queue_allocated, setup), r),
        *old(same) == *final(lu),
        call_ensures(UfsLu::init_disk, (same, queue_allocated, setup), second),
        *old(gone) == *final(lu),
        call_ensures(UfsLu::remove_disk, (gone,), disk),
    ensures
        r is Ok ==> {
            &&& queue_allocated is Ok && setup.allocated is Ok && setup.named is Ok && setup.added is Ok
            &&& old(lu).disk is None
            &&& final(lu).state is Operational
            &&& disk matches Some(d) && d.0.sectors() * 512 == old(lu).geometry.capacity_blocks * old(
                lu,
            ).geometry.logical_block_size && d.0.request_queue().0.driver_data() == QueueData::Lu(
                old(lu).lun,
            ) && d.0.request_queue().0.queue_depth() == old(lu).queue_depth
            &&& second == Err::<(), Error>(Error::EBUSY)
            &&& final(gone).disk is None
            &&& final(gone).state is Reset
            &&& final(gone).lun == old(lu).lun && final(gone).geometry == old(lu).geometry
            &&& final(gone).queue_depth == old(lu).queue_depth
        },
        r is Err ==> *final(lu) == *old(lu),
{
    law_what_keeps_disk(*old(lu), queue_allocated, setup);
    if r is Ok {
        let g = old(lu).geometry;
        assert(g.capacity_blocks * g.sectors_per_block * 512 == g.capacity_blocks * (
        g.sectors_per_block * 512)) by (nonlinear_arith);
    }
}

/// The largest discard is of whole blocks, and one block more would be too much.
pub proof fn law_largest_discard(g: UfsLuGeometry, r: Result<u32, Error>)
    requires
        g.wf(),
        call_ensures(UfsLuGeometry::max_discard_sectors, (&g,), r),
    ensures
        r matches Ok(sectors) && sectors as int * 512 % (g.logical_block_size as int) == 0 && sectors
            * 512 + g.logical_block_size > u32::MAX * 512,
{
    let m = u32::MAX as int;
    let s = g.sectors_per_block as int;
    vstd::arithmetic::div_mod::lemma_fundamental_div_mod(m, s);
    vstd::arithmetic::div_mod::lemma_mod_multiples_basic(m / s, s * 512);
    assert((s * (m / s)) * 512 == (m / s) * (s * 512)) by (nonlinear_arith);
}

/// The block layer is told of the queues in the order of their uses: for default use,
/// for reads, for polling. Each use has the queues that the layout gives it.
pub proof fn law_queue_maps_in_order(map: UfsQueueMap, r: [QueueMapEntry; 3])
    requires
        call_ensures(map_queues, (&map,), r),
    ensures
        r@.len() == 3,
        r@[0].kind is Default && r@[1].kind is Read && r@[2].kind is Poll,
        forall|i: int|
            0 <= i < 3 && map.range_of(r@[i].kind).offset <= u32::MAX && map.range_of(
                r@[i].kind,
            ).count <= u32::MAX ==> (#[trigger] r@[i]).offset == map.range_of(r@[i].kind).offset
                && r@[i].count == map.range_of(r@[i].kind).count,
{
}

} // verus!
