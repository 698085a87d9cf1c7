//! SCSI commands carried over UFS, their sense data and their completion.

use vstd::prelude::*;

use crate::block::{
    BLK_STS_IOERR, BLK_STS_OK, BLK_STS_RESOURCE, BLK_STS_RESV_CONFLICT, BLK_STS_TARGET,
};
use crate::endian::{self, be16, be32, be64, put_bytes, zeroed};

verus! {

/// Size of a command descriptor block.
pub const UFS_CDB_SIZE: usize = 16;

/// Size of the sense data in a response UPIU.
pub const UFS_SENSE_SIZE: usize = 18;

/// Size of the parameter list of an UNMAP command.
pub const UNMAP_PARAM_LIST_SIZE: usize = 24;

/// READ(10) operation code.
pub const READ_10: u8 = 0x28;

/// WRITE(10) operation code.
pub const WRITE_10: u8 = 0x2a;

/// SYNCHRONIZE CACHE(10) operation code.
pub const SYNCHRONIZE_CACHE: u8 = 0x35;

/// UNMAP operation code.
pub const UNMAP: u8 = 0x42;

/// READ(16) operation code.
pub const READ_16: u8 = 0x88;

/// WRITE(16) operation code.
pub const WRITE_16: u8 = 0x8a;

/// Direction of the data phase of a command.
#[derive(Clone, Copy, Debug, PartialEq, Eq, Structural)]
pub enum UfsScsiDataDirection {
    /// No data phase.
    NoData,
    /// Device to host.
    Read,
    /// Host to device.
    Write,
}

/// A SCSI command for one logical unit.
#[derive(Clone, Copy, Debug)]
pub struct UfsSCSICmd {
    pub lun: u8,
    pub direction: UfsScsiDataDirection,
    pub data_len: u32,
    pub cdb: [u8; UFS_CDB_SIZE],
    pub unmap_lba: u64,
    pub unmap_blocks: u32,
}

/// A read or write of `blocks` blocks at `lba` fits the short command form.
pub open spec fn fits_short_form(lba: u64, blocks: u32) -> bool {
    lba <= u32::MAX && blocks <= u16::MAX
}

/// Command descriptor block of a read or write.
///
/// The short form holds a 32-bit address from byte 2 on and a 16-bit length
/// from byte 7 on, the long form a 64-bit address from byte 2 on and a 32-bit
/// length from byte 10 on.
pub open spec fn read_write_cdb(write: bool, lba: u64, blocks: u32, fua: bool) -> Seq<u8> {
    let flags = if fua {
        0x8u8
    } else {
        0u8
    };
    if fits_short_form(lba, blocks) {
        let opcode = if write {
            WRITE_10
        } else {
            READ_10
        };
        endian::splice(
            endian::splice(
                endian::zeros(16).update(0, opcode).update(1, flags),
                2,
                endian::be_bytes(lba as nat, 4),
            ),
            7,
            endian::be_bytes(blocks as nat, 2),
        )
    } else {
        let opcode = if write {
            WRITE_16
        } else {
            READ_16
        };
        endian::splice(
            endian::splice(
                endian::zeros(16).update(0, opcode).update(1, flags),
                2,
                endian::be_bytes(lba as nat, 8),
            ),
            10,
            endian::be_bytes(blocks as nat, 4),
        )
    }
}

/// Command descriptor block of a cache flush.
pub open spec fn flush_cdb() -> Seq<u8> {
    endian::zeros(16).update(0, SYNCHRONIZE_CACHE)
}

/// Command descriptor block of an unmap, whose parameter list length stands
/// from byte 7 on.
pub open spec fn unmap_cdb() -> Seq<u8> {
    endian::splice(
        endian::zeros(16).update(0, UNMAP),
        7,
        endian::be_bytes(UNMAP_PARAM_LIST_SIZE as nat, 2),
    )
}

/// Parameter list of an unmap: the two length fields and one block descriptor.
pub open spec fn unmap_params(lba: u64, blocks: u32) -> Seq<u8> {
    endian::splice(
        endian::splice(
            endian::splice(
                endian::splice(
                    endian::zeros(24),
                    0,
                    endian::be_bytes(22, 2),
                ),
                2,
                endian::be_bytes(16, 2),
            ),
            8,
            endian::be_bytes(lba as nat, 8),
        ),
        16,
        endian::be_bytes(blocks as nat, 4),
    )
}

impl UfsSCSICmd {
    /// The command reads or writes `blocks` blocks at `lba`.
    pub open spec fn is_read_write(
        self,
        lun: u8,
        write: bool,
        lba: u64,
        blocks: u32,
        data_len: u32,
        fua: bool,
    ) -> bool {
        &&& self.lun == lun
        &&& self.direction == if write {
            UfsScsiDataDirection::Write
        } else {
            UfsScsiDataDirection::Read
        }
        &&& self.data_len == data_len
        &&& self.cdb@ == read_write_cdb(write, lba, blocks, fua)
        &&& self.unmap_lba == 0
        &&& self.unmap_blocks == 0
    }

    /// The command flushes the device's write cache.
    pub open spec fn is_flush(self, lun: u8) -> bool {
        &&& self.lun == lun
        &&& self.direction == UfsScsiDataDirection::NoData
        &&& self.data_len == 0
        &&& self.cdb@ == flush_cdb()
        &&& self.unmap_lba == 0
        &&& self.unmap_blocks == 0
    }

    /// The command unmaps `blocks` blocks at `lba`.
    pub open spec fn is_unmap_of(self, lun: u8, lba: u64, blocks: u32) -> bool {
        &&& self.lun == lun
        &&& self.direction == UfsScsiDataDirection::Write
        &&& self.data_len == UNMAP_PARAM_LIST_SIZE
        &&& self.cdb@ == unmap_cdb()
        &&& self.unmap_lba == lba
        &&& self.unmap_blocks == blocks
    }

    /// A read or write of `blocks` blocks at `lba`.
    pub fn read_write(
        lun: u8,
        write: bool,
        lba: u64,
        blocks: u32,
        data_len: u32,
        fua: bool,
    ) -> (r: Self)
        ensures
            r.is_read_write(lun, write, lba, blocks, data_len, fua),
    {
        let mut cdb: [u8; UFS_CDB_SIZE] = zeroed();
        let direction = if write {
            UfsScsiDataDirection::Write
        } else {
            UfsScsiDataDirection::Read
        };
        let flags: u8 = if fua {
            0x8
        } else {
            0
        };
        match (u32::try_from(lba), u16::try_from(blocks)) {
            (Ok(lba), Ok(blocks)) => {
                cdb[0] = if write {
                    WRITE_10
                } else {
                    READ_10
                };
                cdb[1] = flags;
                put_bytes(&mut cdb, 2, &be32(lba));
                put_bytes(&mut cdb, 7, &be16(blocks));
            },
            _ => {
                cdb[0] = if write {
                    WRITE_16
                } else {
                    READ_16
                };
                cdb[1] = flags;
                put_bytes(&mut cdb, 2, &be64(lba));
                put_bytes(&mut cdb, 10, &be32(blocks));
            },
        }
        UfsSCSICmd { lun, direction, data_len, cdb, unmap_lba: 0, unmap_blocks: 0 }
    }

    /// A flush of the device's write cache.
    pub fn flush(lun: u8) -> (r: Self)
        ensures
            r.is_flush(lun),
    {
        let mut cdb: [u8; UFS_CDB_SIZE] = zeroed();
        cdb[0] = SYNCHRONIZE_CACHE;
        UfsSCSICmd {
            lun,
            direction: UfsScsiDataDirection::NoData,
            data_len: 0,
            cdb,
            unmap_lba: 0,
            unmap_blocks: 0,
        }
    }

    /// An unmap of `blocks` blocks at `lba`.
    pub fn unmap(lun: u8, lba: u64, blocks: u32) -> (r: Self)
        ensures
            r.is_unmap_of(lun, lba, blocks),
    {
        let mut cdb: [u8; UFS_CDB_SIZE] = zeroed();
        let data_len: u32 = 24;
        cdb[0] = UNMAP;
        put_bytes(&mut cdb, 7, &be16(data_len as u16));
        UfsSCSICmd {
            lun,
            direction: UfsScsiDataDirection::Write,
            data_len,
            cdb,
            unmap_lba: lba,
            unmap_blocks: blocks,
        }
    }

    /// The logical unit that the command addresses.
    pub fn lun(&self) -> (r: u8)
        ensures
            r == self.lun,
    {
        self.lun
    }

    /// The direction of the data phase.
    pub fn direction(&self) -> (r: UfsScsiDataDirection)
        ensures
            r == self.direction,
    {
        self.direction
    }

    /// The number of bytes in the data phase.
    pub fn data_len(&self) -> (r: u32)
        ensures
            r == self.data_len,
    {
        self.data_len
    }

    /// The command descriptor block.
    pub fn cdb(&self) -> (r: [u8; UFS_CDB_SIZE])
        ensures
            r == self.cdb,
    {
        self.cdb
    }

    /// Whether this is an unmap.
    pub fn is_unmap(&self) -> (r: bool)
        ensures
            r == (self.cdb@[0] == UNMAP),
    {
        self.cdb[0] == UNMAP
    }

    /// First block to unmap.
    pub fn unmap_lba(&self) -> (r: u64)
        ensures
            r == self.unmap_lba,
    {
        self.unmap_lba
    }

    /// Number of blocks to unmap.
    pub fn unmap_blocks(&self) -> (r: u32)
        ensures
            r == self.unmap_blocks,
    {
        self.unmap_blocks
    }

    /// The parameter list that an unmap sends in its data phase.
    pub fn unmap_param_list(&self) -> (r: [u8; UNMAP_PARAM_LIST_SIZE])
        ensures
            r@ == unmap_params(self.unmap_lba, self.unmap_blocks),
    {
        let mut data: [u8; UNMAP_PARAM_LIST_SIZE] = zeroed();
        put_bytes(&mut data, 0, &be16(22));
        put_bytes(&mut data, 2, &be16(16));
        put_bytes(&mut data, 8, &be64(self.unmap_lba));
        put_bytes(&mut data, 16, &be32(self.unmap_blocks));
        data
    }
}

/// A read or write command block carries the address and the length that it
/// was made for, and its operation code tells which form and direction it is.
pub proof fn law_read_write_cdb_carries_range(write: bool, lba: u64, blocks: u32, fua: bool)
    ensures
        ({
            let cdb = read_write_cdb(write, lba, blocks, fua);
            &&& cdb.len() == 16
            &&& cdb[1] == (if fua {
                0x8u8
            } else {
                0u8
            })
            &&& fits_short_form(lba, blocks) ==> {
                &&& cdb[0] == (if write {
                    WRITE_10
                } else {
                    READ_10
                })
                &&& endian::be_value(cdb.subrange(2, 6)) == lba
                &&& endian::be_value(cdb.subrange(7, 9)) == blocks
            }
            &&& !fits_short_form(lba, blocks) ==> {
                &&& cdb[0] == (if write {
                    WRITE_16
                } else {
                    READ_16
                })
                &&& endian::be_value(cdb.subrange(2, 10)) == lba
                &&& endian::be_value(cdb.subrange(10, 14)) == blocks
            }
        }),
{
    let cdb = read_write_cdb(write, lba, blocks, fua);
    reveal_with_fuel(endian::byte_range, 9);
    endian::lemma_be_bytes_len(lba as nat, 4);
    endian::lemma_be_bytes_len(lba as nat, 8);
    endian::lemma_be_bytes_len(blocks as nat, 2);
    endian::lemma_be_bytes_len(blocks as nat, 4);
    if fits_short_form(lba, blocks) {
        endian::law_be_decode_encode(lba as nat, 4);
        endian::law_be_decode_encode(blocks as nat, 2);
        assert(cdb.subrange(2, 6) =~= endian::be_bytes(lba as nat, 4));
        assert(cdb.subrange(7, 9) =~= endian::be_bytes(blocks as nat, 2));
    } else {
        endian::law_be_decode_encode(lba as nat, 8);
        endian::law_be_decode_encode(blocks as nat, 4);
        assert(cdb.subrange(2, 10) =~= endian::be_bytes(lba as nat, 8));
        assert(cdb.subrange(10, 14) =~= endian::be_bytes(blocks as nat, 4));
    }
}

/// An unmap parameter list carries the range that is to be unmapped, and its
/// length fields count the bytes that follow them.
pub proof fn law_unmap_params_carry_range(lba: u64, blocks: u32)
    ensures
        ({
            let p = unmap_params(lba, blocks);
            &&& p.len() == UNMAP_PARAM_LIST_SIZE
            &&& endian::be_value(p.subrange(0, 2)) == UNMAP_PARAM_LIST_SIZE - 2
            &&& endian::be_value(p.subrange(2, 4)) == UNMAP_PARAM_LIST_SIZE - 8
            &&& endian::be_value(p.subrange(8, 16)) == lba
            &&& endian::be_value(p.subrange(16, 20)) == blocks
        }),
{
    let p = unmap_params(lba, blocks);
    reveal_with_fuel(endian::byte_range, 9);
    endian::lemma_be_bytes_len(22, 2);
    endian::lemma_be_bytes_len(16, 2);
    endian::lemma_be_bytes_len(lba as nat, 8);
    endian::lemma_be_bytes_len(blocks as nat, 4);
    endian::law_be_decode_encode(22, 2);
    endian::law_be_decode_encode(16, 2);
    endian::law_be_decode_encode(lba as nat, 8);
    endian::law_be_decode_encode(blocks as nat, 4);
    assert(p.subrange(0, 2) =~= endian::be_bytes(22, 2));
    assert(p.subrange(2, 4) =~= endian::be_bytes(16, 2));
    assert(p.subrange(8, 16) =~= endian::be_bytes(lba as nat, 8));
    assert(p.subrange(16, 20) =~= endian::be_bytes(blocks as nat, 4));
}

/// Sense key of a unit attention condition.
pub const SCSI_SENSE_UNIT_ATTENTION: u8 = 0x6;

/// Additional sense code of a power-on or reset.
pub const SCSI_ASC_POWER_ON_RESET: u8 = 0x29;

/// Additional sense code qualifier of a power-on or reset.
pub const SCSI_ASCQ_POWER_ON_RESET: u8 = 0x00;

/// Decoded sense data.
#[derive(Clone, Copy, Debug, PartialEq, Eq, Structural)]
pub struct ScsiSense {
    pub response_code: u8,
    pub sense_key: u8,
    pub asc: u8,
    pub ascq: u8,
    pub additional_len: u8,
}

/// The response code is one of the two fixed-format codes.
pub open spec fn fixed_format(code: u8) -> bool {
    code == 0x70 || code == 0x71
}

/// The response code is one of the two descriptor-format codes.
pub open spec fn descriptor_format(code: u8) -> bool {
    code == 0x72 || code == 0x73
}

/// The bytes that the sense format asks for are there.
pub open spec fn sense_readable(data: Seq<u8>, len: usize) -> bool {
    len > 0 ==> {
        &&& data.len() > 0
        &&& fixed_format(data[0] & 0x7f) && len >= 14 ==> data.len() >= 14
        &&& descriptor_format(data[0] & 0x7f) && len >= 4 ==> data.len() >= 4
    }
}

/// The sense that `len` bytes of sense data report.
pub open spec fn sense_of(data: Seq<u8>, len: usize) -> Option<ScsiSense> {
    if len == 0 {
        None
    } else if fixed_format(data[0] & 0x7f) && len >= 14 {
        Some(
            ScsiSense {
                response_code: data[0] & 0x7f,
                sense_key: data[2] & 0x0f,
                asc: data[12],
                ascq: data[13],
                additional_len: data[7],
            },
        )
    } else if descriptor_format(data[0] & 0x7f) && len >= 4 {
        Some(
            ScsiSense {
                response_code: data[0] & 0x7f,
                sense_key: data[1] & 0x0f,
                asc: data[2],
                ascq: data[3],
                additional_len: 0,
            },
        )
    } else {
        None
    }
}

/// Decodes `len` bytes of sense data in fixed or descriptor format.
pub fn parse_scsi_sense(data: &[u8], len: usize) -> (r: Option<ScsiSense>)
    requires
        sense_readable(data@, len),
    ensures
        r == sense_of(data@, len),
{
    if len == 0 {
        return None;
    }
    let response_code = data[0] & 0x7f;
    match response_code {
        0x70 | 0x71 => {
            if len >= 14 {
                Some(
                    ScsiSense {
                        response_code,
                        sense_key: data[2] & 0x0f,
                        asc: data[12],
                        ascq: data[13],
                        additional_len: data[7],
                    },
                )
            } else {
                None
            }
        },
        0x72 | 0x73 => {
            if len >= 4 {
                Some(
                    ScsiSense {
                        response_code,
                        sense_key: data[1] & 0x0f,
                        asc: data[2],
                        ascq: data[3],
                        additional_len: 0,
                    },
                )
            } else {
                None
            }
        },
        _ => None,
    }
}

/// A unit attention is worth a retry.
pub open spec fn is_unit_attention(sense: Option<ScsiSense>) -> bool {
    sense matches Some(s) && s.sense_key == SCSI_SENSE_UNIT_ATTENTION
}

/// Whether a check condition with this sense is worth a retry.
pub fn retryable_check_condition(sense: &Option<ScsiSense>) -> (r: bool)
    ensures
        r == is_unit_attention(*sense),
{
    match sense {
        Some(sense) => sense.sense_key == SCSI_SENSE_UNIT_ATTENTION,
        None => false,
    }
}

/// Whether the sense is the unit attention that every device reports once
/// after power-on.
pub fn boot_unit_attention(sense: &Option<ScsiSense>) -> (r: bool)
    ensures
        r == (*sense matches Some(s) && s.sense_key == SCSI_SENSE_UNIT_ATTENTION && s.asc
            == SCSI_ASC_POWER_ON_RESET && s.ascq == SCSI_ASCQ_POWER_ON_RESET),
{
    match sense {
        Some(sense) => sense.sense_key == SCSI_SENSE_UNIT_ATTENTION && sense.asc
            == SCSI_ASC_POWER_ON_RESET && sense.ascq == SCSI_ASCQ_POWER_ON_RESET,
        None => false,
    }
}

/// Name of a sense key.
pub open spec fn sense_key_label(key: u8) -> Seq<char> {
    if key == 0x0 {
        "NO_SENSE"@
    } else if key == 0x1 {
        "RECOVERED_ERROR"@
    } else if key == 0x2 {
        "NOT_READY"@
    } else if key == 0x3 {
        "MEDIUM_ERROR"@
    } else if key == 0x4 {
        "HARDWARE_ERROR"@
    } else if key == 0x5 {
        "ILLEGAL_REQUEST"@
    } else if key == 0x6 {
        "UNIT_ATTENTION"@
    } else if key == 0x7 {
        "DATA_PROTECT"@
    } else if key == 0x8 {
        "BLANK_CHECK"@
    } else if key == 0x9 {
        "VENDOR_SPECIFIC"@
    } else if key == 0xb {
        "ABORTED_COMMAND"@
    } else if key == 0xd {
        "VOLUME_OVERFLOW"@
    } else if key == 0xe {
        "MISCOMPARE"@
    } else {
        "UNKNOWN"@
    }
}

/// Name of a sense key, for reports.
pub fn sense_key_name(key: u8) -> (r: &'static str)
    ensures
        r@ == sense_key_label(key),
{
    match key {
        0x0 => "NO_SENSE",
        0x1 => "RECOVERED_ERROR",
        0x2 => "NOT_READY",
        0x3 => "MEDIUM_ERROR",
        0x4 => "HARDWARE_ERROR",
        0x5 => "ILLEGAL_REQUEST",
        0x6 => "UNIT_ATTENTION",
        0x7 => "DATA_PROTECT",
        0x8 => "BLANK_CHECK",
        0x9 => "VENDOR_SPECIFIC",
        0xb => "ABORTED_COMMAND",
        0xd => "VOLUME_OVERFLOW",
        0xe => "MISCOMPARE",
        _ => "UNKNOWN",
    }
}

/// How a SCSI command ended.
#[derive(Clone, Copy, Debug, PartialEq, Eq, Structural)]
pub enum UfsScsiCompletion {
    Good,
    CheckCondition,
    Busy,
    ReservationConflict,
    TaskSetFull,
    TaskAborted,
    Requeue,
    Error,
}

/// Everything that a completed SCSI command reports.
#[derive(Clone, Copy, Debug)]
pub struct UfsScsiResult {
    pub completion: UfsScsiCompletion,
    pub ocs: u8,
    pub transaction: u8,
    pub response: u8,
    pub status: u8,
    pub residual_transfer_count: u32,
    pub sense_data_len: usize,
    pub sense_data: [u8; UFS_SENSE_SIZE],
}

impl UfsScsiResult {
    /// Nothing is known of the command but its overall command status.
    pub open spec fn bare(self, completion: UfsScsiCompletion, ocs: u8) -> bool {
        &&& self.completion == completion
        &&& self.ocs == ocs
        &&& self.transaction == 0
        &&& self.response == 0
        &&& self.status == 0
        &&& self.residual_transfer_count == 0
        &&& self.sense_data_len == 0
        &&& self.sense_data@ == endian::zeros(UFS_SENSE_SIZE as nat)
    }

    /// The result of a command that failed without a response.
    pub fn error(ocs: u8) -> (r: Self)
        ensures
            r.bare(UfsScsiCompletion::Error, ocs),
    {
        UfsScsiResult {
            completion: UfsScsiCompletion::Error,
            ocs,
            transaction: 0,
            response: 0,
            status: 0,
            residual_transfer_count: 0,
            sense_data_len: 0,
            sense_data: zeroed(),
        }
    }

    /// The result of a command that never ran and is to be issued again.
    pub fn requeue(ocs: u8) -> (r: Self)
        ensures
            r.bare(UfsScsiCompletion::Requeue, ocs),
    {
        UfsScsiResult { completion: UfsScsiCompletion::Requeue, ..Self::error(ocs) }
    }

    /// The sense that the result carries.
    pub open spec fn sense(self) -> Option<ScsiSense> {
        let len = if self.sense_data_len <= UFS_SENSE_SIZE {
            self.sense_data_len
        } else {
            UFS_SENSE_SIZE
        };
        sense_of(self.sense_data@, len)
    }
}

/// The command is to be issued again.
pub open spec fn requeues(completion: UfsScsiCompletion, sense: Option<ScsiSense>) -> bool {
    match completion {
        UfsScsiCompletion::Busy | UfsScsiCompletion::TaskSetFull | UfsScsiCompletion::Requeue => true,
        UfsScsiCompletion::CheckCondition => is_unit_attention(sense),
        _ => false,
    }
}

/// Whether a command that ended this way is to be issued again.
pub fn should_requeue_scsi(completion: UfsScsiCompletion, sense: &Option<ScsiSense>) -> (r: bool)
    ensures
        r == requeues(completion, *sense),
{
    matches!(
        completion,
        UfsScsiCompletion::Busy | UfsScsiCompletion::TaskSetFull | UfsScsiCompletion::Requeue
    ) || (matches!(completion, UfsScsiCompletion::CheckCondition) && retryable_check_condition(
        sense,
    ))
}

/// The block-layer status that a command ends with.
pub open spec fn scsi_status(completion: UfsScsiCompletion, sense: Option<ScsiSense>) -> u8 {
    match completion {
        UfsScsiCompletion::Good => BLK_STS_OK,
        UfsScsiCompletion::Busy | UfsScsiCompletion::TaskSetFull | UfsScsiCompletion::Requeue => BLK_STS_RESOURCE,
        UfsScsiCompletion::TaskAborted => BLK_STS_TARGET,
        UfsScsiCompletion::ReservationConflict => BLK_STS_RESV_CONFLICT,
        UfsScsiCompletion::CheckCondition => if is_unit_attention(sense) {
            BLK_STS_RESOURCE
        } else {
            BLK_STS_IOERR
        },
        UfsScsiCompletion::Error => BLK_STS_IOERR,
    }
}

/// What the driver makes of a completed SCSI command.
#[derive(Clone, Copy, Debug, PartialEq, Eq, Structural)]
pub struct ScsiVerdict {
    /// The sense that came with the result.
    pub sense: Option<ScsiSense>,
    /// Whether the completion is worth a report in the log.
    pub report: bool,
    /// Whether the request goes back to its queue.
    pub requeue: bool,
    /// The block-layer status of the request.
    pub status: u32,
}

impl ScsiVerdict {
    /// This is what the driver makes of the result.
    pub open spec fn judges(self, result: UfsScsiResult) -> bool {
        &&& self.sense == result.sense()
        &&& self.requeue == requeues(result.completion, result.sense())
        &&& self.status == scsi_status(result.completion, result.sense())
        &&& self.report == (result.completion != UfsScsiCompletion::Good && !(result.completion
            == UfsScsiCompletion::CheckCondition && (result.sense() matches Some(s) && s.sense_key
            == SCSI_SENSE_UNIT_ATTENTION && s.asc == SCSI_ASC_POWER_ON_RESET && s.ascq
            == SCSI_ASCQ_POWER_ON_RESET)))
    }
}

/// Judges a completed SCSI command: its sense, whether it is issued again and
/// the status that its request ends with.
pub fn judge_scsi(result: &UfsScsiResult) -> (r: ScsiVerdict)
    ensures
        r.judges(*result),
{
    let sense_len = if result.sense_data_len < UFS_SENSE_SIZE {
        result.sense_data_len
    } else {
        UFS_SENSE_SIZE
    };
    let sense = parse_scsi_sense(&result.sense_data, sense_len);
    let suppress_log = matches!(result.completion, UfsScsiCompletion::CheckCondition)
        && boot_unit_attention(&sense);
    let requeue = should_requeue_scsi(result.completion, &sense);
    let status = match result.completion {
        UfsScsiCompletion::Good => BLK_STS_OK,
        UfsScsiCompletion::Busy | UfsScsiCompletion::TaskSetFull | UfsScsiCompletion::Requeue => {
            BLK_STS_RESOURCE
        },
        UfsScsiCompletion::TaskAborted => BLK_STS_TARGET,
        UfsScsiCompletion::ReservationConflict => BLK_STS_RESV_CONFLICT,
        UfsScsiCompletion::CheckCondition => {
            if retryable_check_condition(&sense) {
                BLK_STS_RESOURCE
            } else {
                BLK_STS_IOERR
            }
        },
        UfsScsiCompletion::Error => BLK_STS_IOERR,
    };
    ScsiVerdict {
        sense,
        report: !matches!(result.completion, UfsScsiCompletion::Good) && !suppress_log,
        requeue,
        status: status as u32,
    }
}

/// A command is issued again exactly when its status tells the block layer
/// that a resource was short, and it ends well exactly when it was good.
pub proof fn law_requeue_iff_resource(completion: UfsScsiCompletion, sense: Option<ScsiSense>)
    ensures
        requeues(completion, sense) <==> scsi_status(completion, sense) == BLK_STS_RESOURCE,
        scsi_status(completion, sense) == BLK_STS_OK <==> completion == UfsScsiCompletion::Good,
{
}

/// The transfer that a command descriptor block asks a device for: whether it
/// writes, the first block, and the number of blocks. READ(10) and WRITE(10) hold
/// the block from byte 2 on in four bytes and the number from byte 7 on in two;
/// READ(16) and WRITE(16) hold them from byte 2 on in eight bytes and from byte 10
/// on in four.
pub open spec fn asks_for(cdb: Seq<u8>) -> Option<(bool, nat, nat)> {
    if cdb[0] == 0x28 || cdb[0] == 0x2a {
        Some(
            (
                cdb[0] == 0x2a,
                endian::be_value(cdb.subrange(2, 6)),
                endian::be_value(cdb.subrange(7, 9)),
            ),
        )
    } else if cdb[0] == 0x88 || cdb[0] == 0x8a {
        Some(
            (
                cdb[0] == 0x8a,
                endian::be_value(cdb.subrange(2, 10)),
                endian::be_value(cdb.subrange(10, 14)),
            ),
        )
    } else {
        None
    }
}

/// A device that reads the command descriptor block of a read or write finds the
/// blocks that the command was made for, and the direction and the size of the
/// data fit.
pub proof fn law_device_finds_the_blocks(
    cmd: UfsSCSICmd,
    lun: u8,
    write: bool,
    lba: u64,
    blocks: u32,
    data_len: u32,
    fua: bool,
)
    requires
        cmd.is_read_write(lun, write, lba, blocks, data_len, fua),
    ensures
        cmd.lun == lun,
        asks_for(cmd.cdb@) == Some((write, lba as nat, blocks as nat)),
        cmd.cdb@[0] < 0x80 <==> lba <= 0xffff_ffff && blocks <= 0xffff,
        cmd.cdb@[1] == (if fua {
            8u8
        } else {
            0
        }),
        cmd.cdb@[0] < 0x80 ==> cmd.cdb@[6] == 0 && forall|i: int|
            9 <= i < 16 ==> #[trigger] cmd.cdb@[i] == 0,
        cmd.cdb@[0] >= 0x80 ==> cmd.cdb@[14] == 0 && cmd.cdb@[15] == 0,
        write ==> cmd.direction is Write,
        !write ==> cmd.direction is Read,
        cmd.data_len == data_len,
        cmd.unmap_blocks == 0,
{
    law_read_write_cdb_carries_range(write, lba, blocks, fua);
    endian::lemma_be_bytes_len(lba as nat, 4);
    endian::lemma_be_bytes_len(lba as nat, 8);
    endian::lemma_be_bytes_len(blocks as nat, 2);
    endian::lemma_be_bytes_len(blocks as nat, 4);
}

/// A device that reads an unmap finds the range that it was made for: the command
/// announces a parameter list of 24 bytes, which is all of its data, and the list
/// holds one block descriptor.
pub proof fn law_device_finds_the_unmapped_range(cmd: UfsSCSICmd, lun: u8, lba: u64, blocks: u32)
    requires
        cmd.is_unmap_of(lun, lba, blocks),
    ensures
        cmd.lun == lun,
        cmd.cdb@[0] == 0x42,
        endian::be_value(cmd.cdb@.subrange(7, 9)) == 24,
        forall|i: int| 1 <= i < 7 || 9 <= i < 16 ==> #[trigger] cmd.cdb@[i] == 0,
        cmd.direction is Write,
        cmd.data_len == 24,
        ({
            let list = unmap_params(cmd.unmap_lba, cmd.unmap_blocks);
            &&& list.len() == 24
            &&& endian::be_value(list.subrange(0, 2)) == 22
            &&& endian::be_value(list.subrange(2, 4)) == 16
            &&& endian::be_value(list.subrange(8, 16)) == lba
            &&& endian::be_value(list.subrange(16, 20)) == blocks
            &&& forall|i: int| 4 <= i < 8 || 20 <= i < 24 ==> #[trigger] list[i] == 0
        }),
{
    law_unmap_params_carry_range(lba, blocks);
    reveal_with_fuel(endian::byte_range, 3);
    endian::lemma_be_bytes_len(24, 2);
    endian::lemma_be_bytes_len(22, 2);
    endian::lemma_be_bytes_len(16, 2);
    endian::lemma_be_bytes_len(lba as nat, 8);
    endian::lemma_be_bytes_len(blocks as nat, 4);
    endian::law_be_decode_encode(24, 2);
    assert(unmap_cdb().subrange(7, 9) =~= endian::be_bytes(24, 2));
}

/// A flush asks for nothing but that the whole cache is written: it names no
/// range and moves no data.
pub proof fn law_flush_moves_no_data(cmd: UfsSCSICmd, lun: u8)
    requires
        cmd.is_flush(lun),
    ensures
        cmd.lun == lun,
        cmd.cdb@[0] == 0x35,
        forall|i: int| 1 <= i < 16 ==> #[trigger] cmd.cdb@[i] == 0,
        cmd.direction is NoData,
        cmd.data_len == 0,
{
}

/// Where sense data holds its fields, in both formats. The format is told by the
/// low seven bits of the first byte.
pub proof fn law_sense_fields(data: Seq<u8>, len: usize)
    ensures
        ({
            let code = data[0] % 128;
            let fixed = (code == 0x70 || code == 0x71) && len >= 14;
            let descriptor = (code == 0x72 || code == 0x73) && len >= 4;
            &&& sense_of(data, len) is Some <==> fixed || descriptor
            &&& fixed ==> {
                let sense = sense_of(data, len)->0;
                &&& sense.response_code == code
                &&& sense.sense_key == data[2] % 16
                &&& sense.asc == data[12]
                &&& sense.ascq == data[13]
                &&& sense.additional_len == data[7]
            }
            &&& descriptor ==> {
                let sense = sense_of(data, len)->0;
                &&& sense.response_code == code
                &&& sense.sense_key == data[1] % 16
                &&& sense.asc == data[2]
                &&& sense.ascq == data[3]
                &&& sense.additional_len == 0
            }
        }),
{
    let (a, b, c) = (data[0], data[1], data[2]);
    assert(a & 0x7f == a % 128 && b & 0x0f == b % 16 && c & 0x0f == c % 16) by (bit_vector);
}

/// What the driver makes of every way in which a command can end. The block layer
/// knows 0 as well, 5 as a refusal of the target, 6 as a reservation conflict, 9
/// as a short resource and 10 as an I/O error.
pub proof fn law_verdict_on_every_completion(result: UfsScsiResult, verdict: ScsiVerdict)
    requires
        verdict.judges(result),
    ensures
        ({
            let attention = verdict.sense matches Some(s) && s.sense_key == 6;
            let boot = verdict.sense matches Some(s) && s.sense_key == 6 && s.asc == 0x29 && s.ascq
                == 0;
            let again = verdict.requeue && verdict.status == 9;
            match result.completion {
                UfsScsiCompletion::Good => !verdict.requeue && verdict.status == 0
                    && !verdict.report,
                UfsScsiCompletion::Busy => again && verdict.report,
                UfsScsiCompletion::TaskSetFull => again && verdict.report,
                UfsScsiCompletion::Requeue => again && verdict.report,
                UfsScsiCompletion::TaskAborted => !verdict.requeue && verdict.status == 5
                    && verdict.report,
                UfsScsiCompletion::ReservationConflict => !verdict.requeue && verdict.status == 6
                    && verdict.report,
                UfsScsiCompletion::Error => !verdict.requeue && verdict.status == 10
                    && verdict.report,
                UfsScsiCompletion::CheckCondition => {
                    &&& attention ==> again
                    &&& !attention ==> !verdict.requeue && verdict.status == 10
                    &&& verdict.report == !boot
                },
            }
        }),
        result.sense_data_len <= 18 ==> verdict.sense == sense_of(
            result.sense_data@,
            result.sense_data_len,
        ),
        result.sense_data_len > 18 ==> verdict.sense == sense_of(result.sense_data@, 18),
{
}

/// A result without a response says nothing but how the command ended: every
/// other field is zero, and there is no sense.
pub proof fn law_bare_result_says_nothing_else(
    result: UfsScsiResult,
    completion: UfsScsiCompletion,
    ocs: u8,
)
    requires
        result.bare(completion, ocs),
    ensures
        result.completion == completion,
        result.ocs == ocs,
        result.transaction == 0,
        result.response == 0,
        result.status == 0,
        result.residual_transfer_count == 0,
        result.sense_data_len == 0,
        forall|i: int| 0 <= i < 18 ==> #[trigger] result.sense_data@[i] == 0,
        result.sense() is None,
{
}

/// The names of the sense keys. Every key above them is unknown, and so are 10, 12
/// and 15.
pub proof fn law_sense_key_names(key: u8)
    ensures
        sense_key_label(0x0) == "NO_SENSE"@,
        sense_key_label(0x1) == "RECOVERED_ERROR"@,
        sense_key_label(0x2) == "NOT_READY"@,
        sense_key_label(0x3) == "MEDIUM_ERROR"@,
        sense_key_label(0x4) == "HARDWARE_ERROR"@,
        sense_key_label(0x5) == "ILLEGAL_REQUEST"@,
        sense_key_label(0x6) == "UNIT_ATTENTION"@,
        sense_key_label(0x7) == "DATA_PROTECT"@,
        sense_key_label(0x8) == "BLANK_CHECK"@,
        sense_key_label(0x9) == "VENDOR_SPECIFIC"@,
        sense_key_label(0xb) == "ABORTED_COMMAND"@,
        sense_key_label(0xd) == "VOLUME_OVERFLOW"@,
        sense_key_label(0xe) == "MISCOMPARE"@,
        key == 0xa || key == 0xc || key >= 0xf ==> sense_key_label(key) == "UNKNOWN"@,
{
}

/// What a device reads in the commands that the driver builds.
pub proof fn law_built_commands(
    lun: u8,
    write: bool,
    lba: u64,
    blocks: u32,
    data_len: u32,
    fua: bool,
    moves: UfsSCSICmd,
    flushes: UfsSCSICmd,
    unmaps: UfsSCSICmd,
    list: [u8; UNMAP_PARAM_LIST_SIZE],
)
    requires
        call_ensures(
            UfsSCSICmd::read_write,
            (lun, write, lba, blocks, data_len, fua),
            moves,
        ),
        call_ensures(UfsSCSICmd::flush, (lun,), flushes),
        call_ensures(UfsSCSICmd::unmap, (lun, lba, blocks), unmaps),
        call_ensures(UfsSCSICmd::unmap_param_list, (&unmaps,), list),
    ensures
        asks_for(moves.cdb@) == Some((write, lba as nat, blocks as nat)),
        moves.data_len == data_len,
        moves.direction is Write <==> write,
        moves.direction is Read <==> !write,
        moves.cdb@[1] == 8 <==> fua,
        flushes.cdb@[0] == 0x35,
        flushes.data_len == 0,
        unmaps.cdb@[0] == 0x42,
        endian::be_value(unmaps.cdb@.subrange(7, 9)) == 24,
        unmaps.data_len == 24,
        endian::be_value(list@.subrange(8, 16)) == lba,
        endian::be_value(list@.subrange(16, 20)) == blocks,
        moves.lun == lun && flushes.lun == lun && unmaps.lun == lun,
{
    law_device_finds_the_blocks(moves, lun, write, lba, blocks, data_len, fua);
    law_flush_moves_no_data(flushes, lun);
    law_device_finds_the_unmapped_range(unmaps, lun, lba, blocks);
}

} // verus!
