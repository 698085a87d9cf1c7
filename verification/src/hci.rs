//! Descriptors that the host controller reads and writes in memory.
//!
//! Their multi-byte integers are little-endian.

use vstd::prelude::*;

use crate::block::DataDirection;
use crate::endian::{self, get_le16, get_le32, get_le64, le16, le32, le64, put_bytes, zeroed};
use crate::error::Error;
use crate::query::{
    UfsAttrCmd, UfsCmd, UfsDescCmd, UfsDevCmd, UfsFlagCmd, UfsQueryCmd, UfsRPMBCmd,
};
use crate::scsi::{UfsSCSICmd, UfsScsiDataDirection};
use crate::upiu::{Upiu, UpiuResponse, UpiuTransaction, UpiuView, ALIGNED_UPIU_SIZE};

verus! {

/// Number of entries of a physical region descriptor table.
pub const MAX_PRD_ENTRIES: usize = 256;

/// Largest number of bytes that one table entry covers.
pub const PRDT_DATA_BYTE_COUNT_MAX: u32 = 0x0004_0000;

/// Size of a table entry in bytes.
pub const PRD_ENTRY_SIZE: usize = 16;

/// Size of a command descriptor in bytes.
pub const UCD_SIZE: usize = 5120;

/// Offset of the response unit in a command descriptor.
pub const UCD_RSP_OFFSET: usize = 512;

/// Offset of the physical region descriptor table in a command descriptor.
pub const UCD_PRDT_OFFSET: usize = 1024;

/// Size of a transfer request descriptor, and of a submission queue entry.
pub const UTRD_SIZE: usize = 32;

/// Size of a completion queue entry.
pub const CQ_ENTRY_SIZE: usize = 32;

/// Size of a task management request descriptor.
pub const UTMRD_SIZE: usize = 80;

/// Bits of a descriptor's status byte that hold the overall command status.
pub const MASK_OCS: u8 = 0x0F;

/// Type of a command in a request descriptor.
#[derive(Clone, Copy, Debug, PartialEq, Eq, Structural)]
pub enum UtpCmdType {
    UfsStorage,
}

impl UtpCmdType {
    /// The number that stands for the variant on the wire.
    pub open spec fn number(self) -> u8 {
        match self {
            UtpCmdType::UfsStorage => 0x1,
        }
    }

    /// The number that stands for the variant on the wire.
    pub fn code(self) -> (r: u8)
        ensures
            r == self.number(),
    {
        match self {
            UtpCmdType::UfsStorage => 0x1,
        }
    }
}

/// Direction of the data of a command.
#[derive(Clone, Copy, Debug, PartialEq, Eq, Structural)]
pub enum UtpDataDirection {
    NoDataTransfer,
    HostToDevice,
    DeviceToHost,
}

impl UtpDataDirection {
    /// The number that stands for the variant on the wire.
    pub open spec fn number(self) -> u8 {
        match self {
            UtpDataDirection::NoDataTransfer => 0,
            UtpDataDirection::HostToDevice => 1,
            UtpDataDirection::DeviceToHost => 2,
        }
    }

    /// The number that stands for the variant on the wire.
    pub fn code(self) -> (r: u8)
        ensures
            r == self.number(),
    {
        match self {
            UtpDataDirection::NoDataTransfer => 0,
            UtpDataDirection::HostToDevice => 1,
            UtpDataDirection::DeviceToHost => 2,
        }
    }
}

impl From<DataDirection> for UtpDataDirection {
    fn from(direction: DataDirection) -> (r: UtpDataDirection) {
        match direction {
            DataDirection::ToDevice => UtpDataDirection::HostToDevice,
            DataDirection::FromDevice => UtpDataDirection::DeviceToHost,
            _ => UtpDataDirection::NoDataTransfer,
        }
    }
}

impl vstd::std_specs::convert::FromSpecImpl<DataDirection> for UtpDataDirection {
    open spec fn obeys_from_spec() -> bool {
        true
    }

    open spec fn from_spec(direction: DataDirection) -> UtpDataDirection {
        match direction {
            DataDirection::ToDevice => UtpDataDirection::HostToDevice,
            DataDirection::FromDevice => UtpDataDirection::DeviceToHost,
            _ => UtpDataDirection::NoDataTransfer,
        }
    }
}

impl From<UfsScsiDataDirection> for UtpDataDirection {
    fn from(direction: UfsScsiDataDirection) -> (r: UtpDataDirection) {
        match direction {
            UfsScsiDataDirection::Read => UtpDataDirection::DeviceToHost,
            UfsScsiDataDirection::Write => UtpDataDirection::HostToDevice,
            UfsScsiDataDirection::NoData => UtpDataDirection::NoDataTransfer,
        }
    }
}

impl vstd::std_specs::convert::FromSpecImpl<UfsScsiDataDirection> for UtpDataDirection {
    open spec fn obeys_from_spec() -> bool {
        true
    }

    open spec fn from_spec(direction: UfsScsiDataDirection) -> UtpDataDirection {
        match direction {
            UfsScsiDataDirection::Read => UtpDataDirection::DeviceToHost,
            UfsScsiDataDirection::Write => UtpDataDirection::HostToDevice,
            UfsScsiDataDirection::NoData => UtpDataDirection::NoDataTransfer,
        }
    }
}

/// Overall command status.
#[derive(Clone, Copy, Debug, PartialEq, Eq, Structural)]
pub enum UtpOcs {
    Success,
    InvalidCmdTableAttr,
    InvalidPrdtAttr,
    MismatchDataBufSize,
    MisMatchRespUpiuSize,
    PeerCommFailure,
    Aborted,
    FatalError,
    DeviceFatalError,
    InvalidCryptoConfig,
    GeneralCryptoError,
    /// Not completed yet, or any other status.
    InvalidCommandStatus,
}

impl UtpOcs {
    /// The number that stands for the variant on the wire.
    pub open spec fn number(self) -> u8 {
        match self {
            UtpOcs::Success => 0x0,
            UtpOcs::InvalidCmdTableAttr => 0x1,
            UtpOcs::InvalidPrdtAttr => 0x2,
            UtpOcs::MismatchDataBufSize => 0x3,
            UtpOcs::MisMatchRespUpiuSize => 0x4,
            UtpOcs::PeerCommFailure => 0x5,
            UtpOcs::Aborted => 0x6,
            UtpOcs::FatalError => 0x7,
            UtpOcs::DeviceFatalError => 0x8,
            UtpOcs::InvalidCryptoConfig => 0x9,
            UtpOcs::GeneralCryptoError => 0xA,
            UtpOcs::InvalidCommandStatus => 0xF,
        }
    }

    /// The number that stands for the variant on the wire.
    pub fn code(self) -> (r: u8)
        ensures
            r == self.number(),
    {
        match self {
            UtpOcs::Success => 0x0,
            UtpOcs::InvalidCmdTableAttr => 0x1,
            UtpOcs::InvalidPrdtAttr => 0x2,
            UtpOcs::MismatchDataBufSize => 0x3,
            UtpOcs::MisMatchRespUpiuSize => 0x4,
            UtpOcs::PeerCommFailure => 0x5,
            UtpOcs::Aborted => 0x6,
            UtpOcs::FatalError => 0x7,
            UtpOcs::DeviceFatalError => 0x8,
            UtpOcs::InvalidCryptoConfig => 0x9,
            UtpOcs::GeneralCryptoError => 0xA,
            UtpOcs::InvalidCommandStatus => 0xF,
        }
    }
}

impl UtpOcs {
    /// The variant that a number on the wire stands for.
    pub open spec fn decode(ocs: u8) -> Self {
        if ocs == 0x0 {
            UtpOcs::Success
        } else if ocs == 0x1 {
            UtpOcs::InvalidCmdTableAttr
        } else if ocs == 0x2 {
            UtpOcs::InvalidPrdtAttr
        } else if ocs == 0x3 {
            UtpOcs::MismatchDataBufSize
        } else if ocs == 0x4 {
            UtpOcs::MisMatchRespUpiuSize
        } else if ocs == 0x5 {
            UtpOcs::PeerCommFailure
        } else if ocs == 0x6 {
            UtpOcs::Aborted
        } else if ocs == 0x7 {
            UtpOcs::FatalError
        } else if ocs == 0x8 {
            UtpOcs::DeviceFatalError
        } else if ocs == 0x9 {
            UtpOcs::InvalidCryptoConfig
        } else if ocs == 0xA {
            UtpOcs::GeneralCryptoError
        } else {
            UtpOcs::InvalidCommandStatus
        }
    }
}

impl From<u8> for UtpOcs {
    fn from(ocs: u8) -> (r: UtpOcs) {
        match ocs {
            0x0 => UtpOcs::Success,
            0x1 => UtpOcs::InvalidCmdTableAttr,
            0x2 => UtpOcs::InvalidPrdtAttr,
            0x3 => UtpOcs::MismatchDataBufSize,
            0x4 => UtpOcs::MisMatchRespUpiuSize,
            0x5 => UtpOcs::PeerCommFailure,
            0x6 => UtpOcs::Aborted,
            0x7 => UtpOcs::FatalError,
            0x8 => UtpOcs::DeviceFatalError,
            0x9 => UtpOcs::InvalidCryptoConfig,
            0xA => UtpOcs::GeneralCryptoError,
            _ => UtpOcs::InvalidCommandStatus,
        }
    }
}

impl vstd::std_specs::convert::FromSpecImpl<u8> for UtpOcs {
    open spec fn obeys_from_spec() -> bool {
        true
    }

    open spec fn from_spec(ocs: u8) -> UtpOcs {
        UtpOcs::decode(ocs)
    }
}

/// Decoding the number of a variant gives the variant back, and a number that
/// does not decode to the catch-all variant is the number of what it decodes to.
pub proof fn law_utp_ocs_round_trip(v: UtpOcs, n: u8)
    ensures
        UtpOcs::decode(v.number()) == v,
        UtpOcs::decode(n) != UtpOcs::InvalidCommandStatus ==> UtpOcs::decode(n).number() == n,
{
}

/// What an overall command status means for a device management command.
pub open spec fn ocs_outcome(ocs: UtpOcs) -> Result<(), Error> {
    match ocs {
        UtpOcs::Success => Ok(()),
        UtpOcs::InvalidCmdTableAttr | UtpOcs::InvalidPrdtAttr | UtpOcs::MismatchDataBufSize
        | UtpOcs::MisMatchRespUpiuSize | UtpOcs::InvalidCryptoConfig
        | UtpOcs::GeneralCryptoError => Err(Error::EINVAL),
        _ => Err(Error::EIO),
    }
}

/// What an overall command status means for a device management command.
pub fn ocs_result(ocs: UtpOcs) -> (r: Result<(), Error>)
    ensures
        r == ocs_outcome(ocs),
{
    match ocs {
        UtpOcs::Success => Ok(()),
        UtpOcs::InvalidCmdTableAttr => Err(Error::EINVAL),
        UtpOcs::InvalidPrdtAttr => Err(Error::EINVAL),
        UtpOcs::MismatchDataBufSize => Err(Error::EINVAL),
        UtpOcs::MisMatchRespUpiuSize => Err(Error::EINVAL),
        UtpOcs::InvalidCryptoConfig => Err(Error::EINVAL),
        UtpOcs::GeneralCryptoError => Err(Error::EINVAL),
        _ => Err(Error::EIO),
    }
}

/// Entry of a physical region descriptor table. The size is one less than the
/// number of bytes.
#[derive(Clone, Copy, Debug, PartialEq, Eq, Structural)]
pub struct PrdEntry {
    pub addr: u64,
    pub reserved: u32,
    pub size: u32,
}

impl Default for PrdEntry {
    fn default() -> (r: Self)
        ensures
            r == (PrdEntry { addr: 0, reserved: 0, size: 0 }),
    {
        PrdEntry { addr: 0, reserved: 0, size: 0 }
    }
}

impl PrdEntry {
    /// One entry can cover this many bytes.
    pub open spec fn covers(len: u32) -> bool {
        0 < len <= PRDT_DATA_BYTE_COUNT_MAX
    }

    /// The entry that covers `len` bytes from `addr` on.
    pub open spec fn of(addr: u64, len: u32) -> Self {
        PrdEntry { addr, reserved: 0, size: (len - 1) as u32 }
    }

    /// The entry that covers `len` bytes from `addr` on.
    pub fn new(addr: u64, len: u32) -> (r: Result<Self, Error>)
        ensures
            r == (if Self::covers(len) {
                Ok::<Self, Error>(Self::of(addr, len))
            } else {
                Err(Error::EINVAL)
            }),
    {
        if len == 0 || len > PRDT_DATA_BYTE_COUNT_MAX {
            return Err(Error::EINVAL);
        }
        Ok(PrdEntry { addr, reserved: 0, size: len - 1 })
    }

    /// The bytes of the entry.
    pub open spec fn bytes(self) -> Seq<u8> {
        endian::le_bytes(self.addr as nat, 8) + endian::le_bytes(self.reserved as nat, 4)
            + endian::le_bytes(self.size as nat, 4)
    }

    /// The bytes of the entry.
    pub fn to_bytes(&self) -> (r: [u8; PRD_ENTRY_SIZE])
        ensures
            r@ == self.bytes(),
    {
        let mut r: [u8; PRD_ENTRY_SIZE] = zeroed();
        put_bytes(&mut r, 0, &le64(self.addr));
        put_bytes(&mut r, 8, &le32(self.reserved));
        put_bytes(&mut r, 12, &le32(self.size));
        proof {
            endian::lemma_be_bytes_len(self.addr as nat, 8);
            endian::lemma_be_bytes_len(self.reserved as nat, 4);
            endian::lemma_be_bytes_len(self.size as nat, 4);
        }
        assert(r@ =~= self.bytes());
        r
    }
}

/// Units and table of a command descriptor.
#[verifier::ext_equal]
pub struct UcdView {
    pub cmd: UpiuView,
    pub rsp: UpiuView,
    pub prdt: Seq<PrdEntry>,
}

/// A command descriptor: the unit that goes to the device, the unit that comes
/// back, and the table of the memory that the data is in.
#[derive(Clone, Copy, Debug)]
pub struct Ucd {
    pub cmd_upiu: Upiu,
    pub rsp_upiu: Upiu,
    pub prdt: [PrdEntry; MAX_PRD_ENTRIES],
}

impl View for Ucd {
    type V = UcdView;

    open spec fn view(&self) -> UcdView {
        UcdView { cmd: self.cmd_upiu@, rsp: self.rsp_upiu@, prdt: self.prdt@ }
    }
}

impl UcdView {
    /// The descriptor whose bytes are all zero.
    pub open spec fn blank() -> Self {
        UcdView {
            cmd: UpiuView::blank(),
            rsp: UpiuView::blank(),
            prdt: Seq::new(
                MAX_PRD_ENTRIES as nat,
                |i: int| PrdEntry { addr: 0, reserved: 0, size: 0 },
            ),
        }
    }

    /// The descriptor with a command in it and no response yet.
    pub open spec fn with_command(self, cmd: UpiuView) -> Self {
        UcdView { cmd, rsp: UpiuView::blank(), prdt: self.prdt }
    }
}

/// The unit that carries a command out.
pub open spec fn command_upiu(cmd: UfsCmd, tag: usize) -> UpiuView {
    match cmd {
        UfsCmd::Device(c) => UpiuView::device(c, tag),
        UfsCmd::SCSI(c) => UpiuView::command(c, tag),
    }
}

impl Default for Ucd {
    fn default() -> (r: Self)
        ensures
            r@ == UcdView::blank(),
    {
        let r = Ucd {
            cmd_upiu: Upiu::default(),
            rsp_upiu: Upiu::default(),
            prdt: [PrdEntry { addr: 0, reserved: 0, size: 0 }; MAX_PRD_ENTRIES],
        };
        assert(r@ =~= UcdView::blank());
        r
    }
}

impl Ucd {
    /// The descriptor with a command in it.
    pub fn build(&self, cmd: UfsCmd, tag: usize) -> (r: Self)
        ensures
            r@ == self@.with_command(command_upiu(cmd, tag)),
    {
        match cmd {
            UfsCmd::Device(cmd) => self.device(cmd, tag),
            UfsCmd::SCSI(cmd) => self.scsi(cmd, tag),
        }
    }

    /// The descriptor with a device management command in it.
    pub fn device(&self, cmd: UfsDevCmd, tag: usize) -> (r: Self)
        ensures
            r@ == self@.with_command(UpiuView::device(cmd, tag)),
    {
        match cmd {
            UfsDevCmd::Nop => self.nop(tag),
            UfsDevCmd::Query(cmd) => self.query(cmd, tag),
            UfsDevCmd::RPMB(_) => self.nop(tag),
        }
    }

    /// The descriptor with a NOP OUT in it.
    pub fn nop(&self, tag: usize) -> (r: Self)
        ensures
            r@ == self@.with_command(UpiuView::nop(tag)),
    {
        Ucd { cmd_upiu: Upiu::nop_out(tag), rsp_upiu: Upiu::default(), prdt: self.prdt }
    }

    /// The descriptor with a query request in it.
    pub fn query(&self, cmd: UfsQueryCmd, tag: usize) -> (r: Self)
        ensures
            r@ == self@.with_command(UpiuView::query(cmd, tag)),
    {
        match cmd {
            UfsQueryCmd::Nop => self.nop(tag),
            UfsQueryCmd::ReadDesc(cmd) => self.read_desc(cmd, tag),
            UfsQueryCmd::WriteDesc(_) => self.nop(tag),
            UfsQueryCmd::ReadAttr(cmd) => self.read_attr(cmd, tag),
            UfsQueryCmd::WriteAttr(cmd) => self.write_attr(cmd, tag),
            UfsQueryCmd::ReadFlag(cmd) => self.read_flag(cmd, tag),
            UfsQueryCmd::SetFlag(cmd) => self.set_flag(cmd, tag),
            UfsQueryCmd::ClearFlag(cmd) => self.clear_flag(cmd, tag),
            UfsQueryCmd::ToggleFlag(cmd) => self.toggle_flag(cmd, tag),
        }
    }

    /// The descriptor with a descriptor read in it.
    pub fn read_desc(&self, cmd: UfsDescCmd, tag: usize) -> (r: Self)
        ensures
            r@ == self@.with_command(UpiuView::query(UfsQueryCmd::ReadDesc(cmd), tag)),
    {
        Ucd { cmd_upiu: Upiu::read_desc(cmd, tag), rsp_upiu: Upiu::default(), prdt: self.prdt }
    }

    /// The descriptor with an attribute read in it.
    pub fn read_attr(&self, cmd: UfsAttrCmd, tag: usize) -> (r: Self)
        ensures
            r@ == self@.with_command(UpiuView::query(UfsQueryCmd::ReadAttr(cmd), tag)),
    {
        Ucd { cmd_upiu: Upiu::read_attr(cmd, tag), rsp_upiu: Upiu::default(), prdt: self.prdt }
    }

    /// The descriptor with an attribute write in it.
    pub fn write_attr(&self, cmd: UfsAttrCmd, tag: usize) -> (r: Self)
        ensures
            r@ == self@.with_command(UpiuView::query(UfsQueryCmd::WriteAttr(cmd), tag)),
    {
        Ucd { cmd_upiu: Upiu::write_attr(cmd, tag), rsp_upiu: Upiu::default(), prdt: self.prdt }
    }

    /// The descriptor with a flag read in it.
    pub fn read_flag(&self, cmd: UfsFlagCmd, tag: usize) -> (r: Self)
        ensures
            r@ == self@.with_command(UpiuView::query(UfsQueryCmd::ReadFlag(cmd), tag)),
    {
        Ucd { cmd_upiu: Upiu::read_flag(cmd, tag), rsp_upiu: Upiu::default(), prdt: self.prdt }
    }

    /// The descriptor with a request that sets a flag in it.
    pub fn set_flag(&self, cmd: UfsFlagCmd, tag: usize) -> (r: Self)
        ensures
            r@ == self@.with_command(UpiuView::query(UfsQueryCmd::SetFlag(cmd), tag)),
    {
        Ucd { cmd_upiu: Upiu::set_flag(cmd, tag), rsp_upiu: Upiu::default(), prdt: self.prdt }
    }

    /// The descriptor with a request that clears a flag in it.
    pub fn clear_flag(&self, cmd: UfsFlagCmd, tag: usize) -> (r: Self)
        ensures
            r@ == self@.with_command(UpiuView::query(UfsQueryCmd::ClearFlag(cmd), tag)),
    {
        Ucd { cmd_upiu: Upiu::clear_flag(cmd, tag), rsp_upiu: Upiu::default(), prdt: self.prdt }
    }

    /// The descriptor with a request that toggles a flag in it.
    pub fn toggle_flag(&self, cmd: UfsFlagCmd, tag: usize) -> (r: Self)
        ensures
            r@ == self@.with_command(UpiuView::query(UfsQueryCmd::ToggleFlag(cmd), tag)),
    {
        Ucd { cmd_upiu: Upiu::toggle_flag(cmd, tag), rsp_upiu: Upiu::default(), prdt: self.prdt }
    }

    /// The descriptor with a SCSI command in it.
    pub fn scsi(&self, cmd: UfsSCSICmd, tag: usize) -> (r: Self)
        ensures
            r@ == self@.with_command(UpiuView::command(cmd, tag)),
    {
        Ucd { cmd_upiu: Upiu::command(cmd, tag), rsp_upiu: Upiu::default(), prdt: self.prdt }
    }

    /// The answer that the response unit gives to a device management command.
    pub fn fetch_dev(&self, cmd: UfsDevCmd) -> (r: Result<UfsDevCmd, Error>)
        ensures
            r is Ok <==> self@.rsp.accepts(cmd),
            match r {
                Ok(answer) => self@.rsp.answers(cmd, answer),
                Err(e) => e == Error::EIO,
            },
    {
        match cmd {
            UfsDevCmd::Nop => {
                match self.rsp_upiu.transaction() {
                    UpiuTransaction::NopIn => Ok(cmd),
                    _ => Err(Error::EIO),
                }
            },
            UfsDevCmd::Query(cmd) => {
                match self.rsp_upiu.transaction() {
                    UpiuTransaction::QueryRsp => {
                        match self.rsp_upiu.response() {
                            UpiuResponse::Success => Ok(self.fetch_query(cmd)),
                            _ => Err(Error::EIO),
                        }
                    },
                    _ => Err(Error::EIO),
                }
            },
            UfsDevCmd::RPMB(cmd) => {
                match self.rsp_upiu.transaction() {
                    UpiuTransaction::Response => Ok(self.fetch_rpmb(cmd)),
                    _ => Err(Error::EIO),
                }
            },
        }
    }

    /// The answer that the response unit gives to a query request.
    pub fn fetch_query(&self, cmd: UfsQueryCmd) -> (r: UfsDevCmd)
        ensures
            r matches UfsDevCmd::Query(answer) && self@.rsp.answers_query(cmd, answer),
    {
        self.rsp_upiu.fetch_query(cmd)
    }

    /// The answer to an RPMB request: the request itself.
    pub fn fetch_rpmb(&self, cmd: UfsRPMBCmd) -> (r: UfsDevCmd)
        ensures
            r == UfsDevCmd::RPMB(cmd),
    {
        UfsDevCmd::RPMB(cmd)
    }
}

/// Header of a request descriptor.
///
/// Bit 0 of `ctrl` asks for an interrupt, bits 1 and 2 hold the data direction
/// and bits 4 to 7 the command type.
#[derive(Clone, Copy, Debug, PartialEq, Eq, Structural)]
pub struct ReqDescHeader {
    pub cci: u8,
    pub ehs_length: u8,
    pub flags: u8,
    pub ctrl: u8,
    pub dunl: u32,
    pub ocs: u8,
    pub cds: u8,
    pub ldbc: u16,
    pub dunu: u32,
}

impl Default for ReqDescHeader {
    fn default() -> (r: Self)
        ensures
            r == ReqDescHeader::blank(),
    {
        ReqDescHeader {
            cci: 0,
            ehs_length: 0,
            flags: 0,
            ctrl: 0,
            dunl: 0,
            ocs: 0,
            cds: 0,
            ldbc: 0,
            dunu: 0,
        }
    }
}

impl ReqDescHeader {
    /// The header whose fields are all zero.
    pub open spec fn blank() -> Self {
        ReqDescHeader {
            cci: 0,
            ehs_length: 0,
            flags: 0,
            ctrl: 0,
            dunl: 0,
            ocs: 0,
            cds: 0,
            ldbc: 0,
            dunu: 0,
        }
    }

    /// Header of a storage command that moves data this way, raises an
    /// interrupt and has no status yet.
    pub open spec fn pending(direction: UtpDataDirection) -> Self {
        ReqDescHeader {
            ctrl: (UtpCmdType::UfsStorage.number() * 16 + direction.number() * 2 + 1) as u8,
            ocs: UtpOcs::InvalidCommandStatus.number(),
            ..Self::blank()
        }
    }

    /// Header of a command's descriptor.
    pub open spec fn of(cmd: UfsCmd) -> Self {
        match cmd {
            UfsCmd::Device(_) => Self::pending(UtpDataDirection::NoDataTransfer),
            UfsCmd::SCSI(c) => Self::pending(
                match c.direction {
                    UfsScsiDataDirection::Read => UtpDataDirection::DeviceToHost,
                    UfsScsiDataDirection::Write => UtpDataDirection::HostToDevice,
                    UfsScsiDataDirection::NoData => UtpDataDirection::NoDataTransfer,
                },
            ),
        }
    }

    /// Sets the command type and nothing else.
    pub fn set_cmd_type(&mut self, cmd_type: UtpCmdType)
        ensures
            *final(self) == (ReqDescHeader {
                ctrl: (cmd_type.number() * 16 + old(self).ctrl % 16) as u8,
                ..*old(self)
            }),
    {
        let ctrl = self.ctrl;
        let kind = cmd_type.code();
        assert(kind < 16 ==> (ctrl & 0x0f) | ((kind << 4) & 0xf0) == kind * 16 + ctrl % 16)
            by (bit_vector);
        self.ctrl = (ctrl & 0x0f) | ((kind << 4) & 0xf0);
    }

    /// Sets the data direction and nothing else.
    pub fn set_direction(&mut self, direction: UtpDataDirection)
        ensures
            *final(self) == (ReqDescHeader {
                ctrl: (old(self).ctrl / 8 * 8 + direction.number() * 2 + old(self).ctrl % 2) as u8,
                ..*old(self)
            }),
    {
        let ctrl = self.ctrl;
        let way = direction.code();
        assert(way < 4 ==> (ctrl & 0xf9) | ((way << 1) & 0x06) == ctrl / 8 * 8 + way * 2 + ctrl % 2)
            by (bit_vector);
        self.ctrl = (ctrl & 0xf9) | ((way << 1) & 0x06);
    }

    /// Asks for an interrupt or not, and changes nothing else.
    pub fn set_interrupt(&mut self, interrupt: bool)
        ensures
            *final(self) == (ReqDescHeader {
                ctrl: (old(self).ctrl / 2 * 2 + if interrupt {
                    1int
                } else {
                    0
                }) as u8,
                ..*old(self)
            }),
    {
        let ctrl = self.ctrl;
        let bit: u8 = if interrupt {
            1
        } else {
            0
        };
        assert(bit < 2 ==> (ctrl & 0xfe) | (bit & 0x01) == ctrl / 2 * 2 + bit) by (bit_vector);
        self.ctrl = (ctrl & 0xfe) | (bit & 0x01);
    }

    /// Header of a device management command.
    pub fn device(cmd: UfsDevCmd) -> (r: Self)
        ensures
            r == Self::of(UfsCmd::Device(cmd)),
    {
        let mut header = ReqDescHeader::default();
        header.set_cmd_type(UtpCmdType::UfsStorage);
        header.set_direction(UtpDataDirection::NoDataTransfer);
        header.set_interrupt(true);
        header.ehs_length = 0;
        header.ocs = UtpOcs::InvalidCommandStatus.code();
        header
    }

    /// Header of a SCSI command.
    pub fn scsi(cmd: UfsSCSICmd) -> (r: Self)
        ensures
            r == Self::of(UfsCmd::SCSI(cmd)),
    {
        let mut header = ReqDescHeader::default();
        header.set_cmd_type(UtpCmdType::UfsStorage);
        header.set_direction(UtpDataDirection::from(cmd.direction()));
        header.set_interrupt(true);
        header.ocs = UtpOcs::InvalidCommandStatus.code();
        header
    }
}

/// A transfer request descriptor.
///
/// The length of the response unit and both offsets are in 4-byte words; the
/// length of the table is in entries.
#[derive(Clone, Copy, Debug, PartialEq, Eq, Structural)]
pub struct Utrd {
    pub header: ReqDescHeader,
    pub command_desc_base_addr: u64,
    pub rsp_upiu_length: u16,
    pub rsp_upiu_offset: u16,
    pub prd_table_length: u16,
    pub prd_table_offset: u16,
}

/// An entry of a submission queue has the layout of a transfer request
/// descriptor.
pub type SqEntry = Utrd;

impl Default for Utrd {
    fn default() -> (r: Self)
        ensures
            r == Utrd::blank(),
    {
        Utrd {
            header: ReqDescHeader::default(),
            command_desc_base_addr: 0,
            rsp_upiu_length: 0,
            rsp_upiu_offset: 0,
            prd_table_length: 0,
            prd_table_offset: 0,
        }
    }
}

impl Utrd {
    /// The descriptor whose fields are all zero.
    pub open spec fn blank() -> Self {
        Utrd {
            header: ReqDescHeader::blank(),
            command_desc_base_addr: 0,
            rsp_upiu_length: 0,
            rsp_upiu_offset: 0,
            prd_table_length: 0,
            prd_table_offset: 0,
        }
    }

    /// The descriptor with the layout of the command descriptor at `addr`
    /// in it.
    pub open spec fn at(self, addr: u64) -> Self {
        Utrd {
            command_desc_base_addr: addr,
            rsp_upiu_length: 128,
            rsp_upiu_offset: 128,
            prd_table_offset: 256,
            ..self
        }
    }

    /// Points the descriptor at the command descriptor at `addr`.
    pub fn set_command_descriptor(self, addr: u64) -> (r: Self)
        ensures
            r == self.at(addr),
    {
        Utrd {
            command_desc_base_addr: addr,
            rsp_upiu_length: (ALIGNED_UPIU_SIZE / 4) as u16,
            rsp_upiu_offset: (ALIGNED_UPIU_SIZE / 4) as u16,
            prd_table_offset: (ALIGNED_UPIU_SIZE / 2) as u16,
            ..self
        }
    }

    /// Sets the number of table entries.
    pub fn set_prd_table_length(self, entries: usize) -> (r: Result<Self, Error>)
        ensures
            r == (if entries <= u16::MAX {
                Ok::<Self, Error>(Utrd { prd_table_length: entries as u16, ..self })
            } else {
                Err(Error::EINVAL)
            }),
    {
        match u16::try_from(entries) {
            Ok(prd_table_length) => Ok(Utrd { prd_table_length, ..self }),
            Err(_) => Err(Error::EINVAL),
        }
    }

    /// The descriptor with the header of a command.
    pub fn build(&self, cmd: UfsCmd) -> (r: Self)
        ensures
            r == (Utrd { header: ReqDescHeader::of(cmd), ..*self }),
    {
        match cmd {
            UfsCmd::Device(cmd) => self.device(cmd),
            UfsCmd::SCSI(cmd) => self.scsi(cmd),
        }
    }

    /// The descriptor with the header of a device management command.
    pub fn device(&self, cmd: UfsDevCmd) -> (r: Self)
        ensures
            r == (Utrd { header: ReqDescHeader::of(UfsCmd::Device(cmd)), ..*self }),
    {
        let header = ReqDescHeader::device(cmd);
        Utrd { header, ..*self }
    }

    /// The descriptor with the header of a SCSI command.
    pub fn scsi(&self, cmd: UfsSCSICmd) -> (r: Self)
        ensures
            r == (Utrd { header: ReqDescHeader::of(UfsCmd::SCSI(cmd)), ..*self }),
    {
        let header = ReqDescHeader::scsi(cmd);
        Utrd { header, ..*self }
    }

    /// The overall command status.
    pub open spec fn status(self) -> u8 {
        (self.header.ocs % 16) as u8
    }

    /// Whether the controller reports success.
    pub fn check_response(&self) -> (r: Result<(), Error>)
        ensures
            r == ocs_outcome(UtpOcs::decode(self.status())),
    {
        ocs_result(UtpOcs::from(self.ocs()))
    }

    /// The overall command status.
    pub fn ocs(&self) -> (r: u8)
        ensures
            r == self.status(),
    {
        let ocs = self.header.ocs;
        assert(ocs & 0x0F == ocs % 16) by (bit_vector);
        ocs & MASK_OCS
    }

    /// The bytes of the descriptor.
    pub open spec fn bytes(self) -> Seq<u8> {
        let h = self.header;
        seq![h.cci, h.ehs_length, h.flags, h.ctrl] + endian::le_bytes(h.dunl as nat, 4) + seq![
            h.ocs,
            h.cds,
        ] + endian::le_bytes(h.ldbc as nat, 2) + endian::le_bytes(h.dunu as nat, 4)
            + endian::le_bytes(self.command_desc_base_addr as nat, 8) + endian::le_bytes(
            self.rsp_upiu_length as nat,
            2,
        ) + endian::le_bytes(self.rsp_upiu_offset as nat, 2) + endian::le_bytes(
            self.prd_table_length as nat,
            2,
        ) + endian::le_bytes(self.prd_table_offset as nat, 2)
    }

    /// The bytes of the descriptor.
    pub fn to_bytes(&self) -> (r: [u8; UTRD_SIZE])
        ensures
            r@ == self.bytes(),
    {
        let h = self.header;
        let mut r: [u8; UTRD_SIZE] = zeroed();
        put_bytes(&mut r, 0, &[h.cci, h.ehs_length, h.flags, h.ctrl]);
        put_bytes(&mut r, 4, &le32(h.dunl));
        put_bytes(&mut r, 8, &[h.ocs, h.cds]);
        put_bytes(&mut r, 10, &le16(h.ldbc));
        put_bytes(&mut r, 12, &le32(h.dunu));
        put_bytes(&mut r, 16, &le64(self.command_desc_base_addr));
        put_bytes(&mut r, 24, &le16(self.rsp_upiu_length));
        put_bytes(&mut r, 26, &le16(self.rsp_upiu_offset));
        put_bytes(&mut r, 28, &le16(self.prd_table_length));
        put_bytes(&mut r, 30, &le16(self.prd_table_offset));
        proof {
            self.lemma_field_lengths();
        }
        assert(r@ =~= self.bytes());
        r
    }

    /// Lengths of the encoded fields.
    proof fn lemma_field_lengths(self)
        ensures
            endian::le_bytes(self.header.dunl as nat, 4).len() == 4,
            endian::le_bytes(self.header.ldbc as nat, 2).len() == 2,
            endian::le_bytes(self.header.dunu as nat, 4).len() == 4,
            endian::le_bytes(self.command_desc_base_addr as nat, 8).len() == 8,
            endian::le_bytes(self.rsp_upiu_length as nat, 2).len() == 2,
            endian::le_bytes(self.rsp_upiu_offset as nat, 2).len() == 2,
            endian::le_bytes(self.prd_table_length as nat, 2).len() == 2,
            endian::le_bytes(self.prd_table_offset as nat, 2).len() == 2,
    {
        endian::lemma_be_bytes_len(self.header.dunl as nat, 4);
        endian::lemma_be_bytes_len(self.header.ldbc as nat, 2);
        endian::lemma_be_bytes_len(self.header.dunu as nat, 4);
        endian::lemma_be_bytes_len(self.command_desc_base_addr as nat, 8);
        endian::lemma_be_bytes_len(self.rsp_upiu_length as nat, 2);
        endian::lemma_be_bytes_len(self.rsp_upiu_offset as nat, 2);
        endian::lemma_be_bytes_len(self.prd_table_length as nat, 2);
        endian::lemma_be_bytes_len(self.prd_table_offset as nat, 2);
    }

    /// The descriptor that 32 bytes hold.
    pub open spec fn decode(b: Seq<u8>) -> Self {
        Utrd {
            header: ReqDescHeader {
                cci: b[0],
                ehs_length: b[1],
                flags: b[2],
                ctrl: b[3],
                dunl: endian::le_value(b.subrange(4, 8)) as u32,
                ocs: b[8],
                cds: b[9],
                ldbc: endian::le_value(b.subrange(10, 12)) as u16,
                dunu: endian::le_value(b.subrange(12, 16)) as u32,
            },
            command_desc_base_addr: endian::le_value(b.subrange(16, 24)) as u64,
            rsp_upiu_length: endian::le_value(b.subrange(24, 26)) as u16,
            rsp_upiu_offset: endian::le_value(b.subrange(26, 28)) as u16,
            prd_table_length: endian::le_value(b.subrange(28, 30)) as u16,
            prd_table_offset: endian::le_value(b.subrange(30, 32)) as u16,
        }
    }

    /// The descriptor that 32 bytes hold.
    pub fn from_bytes(b: &[u8; UTRD_SIZE]) -> (r: Self)
        ensures
            r == Self::decode(b@),
    {
        Utrd {
            header: ReqDescHeader {
                cci: b[0],
                ehs_length: b[1],
                flags: b[2],
                ctrl: b[3],
                dunl: get_le32(b, 4),
                ocs: b[8],
                cds: b[9],
                ldbc: get_le16(b, 10),
                dunu: get_le32(b, 12),
            },
            command_desc_base_addr: get_le64(b, 16),
            rsp_upiu_length: get_le16(b, 24),
            rsp_upiu_offset: get_le16(b, 26),
            prd_table_length: get_le16(b, 28),
            prd_table_offset: get_le16(b, 30),
        }
    }
}

/// Reading back the bytes of a transfer request descriptor gives the
/// descriptor.
pub proof fn law_utrd_round_trip(u: Utrd)
    ensures
        u.bytes().len() == UTRD_SIZE,
        Utrd::decode(u.bytes()) == u,
{
    u.lemma_field_lengths();
    let h = u.header;
    let b = u.bytes();
    reveal_with_fuel(endian::byte_range, 9);
    endian::law_be_decode_encode(h.dunl as nat, 4);
    endian::law_be_decode_encode(h.ldbc as nat, 2);
    endian::law_be_decode_encode(h.dunu as nat, 4);
    endian::law_be_decode_encode(u.command_desc_base_addr as nat, 8);
    endian::law_be_decode_encode(u.rsp_upiu_length as nat, 2);
    endian::law_be_decode_encode(u.rsp_upiu_offset as nat, 2);
    endian::law_be_decode_encode(u.prd_table_length as nat, 2);
    endian::law_be_decode_encode(u.prd_table_offset as nat, 2);
    assert(b.subrange(4, 8) =~= endian::le_bytes(h.dunl as nat, 4));
    assert(b.subrange(10, 12) =~= endian::le_bytes(h.ldbc as nat, 2));
    assert(b.subrange(12, 16) =~= endian::le_bytes(h.dunu as nat, 4));
    assert(b.subrange(16, 24) =~= endian::le_bytes(u.command_desc_base_addr as nat, 8));
    assert(b.subrange(24, 26) =~= endian::le_bytes(u.rsp_upiu_length as nat, 2));
    assert(b.subrange(26, 28) =~= endian::le_bytes(u.rsp_upiu_offset as nat, 2));
    assert(b.subrange(28, 30) =~= endian::le_bytes(u.prd_table_length as nat, 2));
    assert(b.subrange(30, 32) =~= endian::le_bytes(u.prd_table_offset as nat, 2));
}

/// An entry of a completion queue.
#[derive(Clone, Copy, Debug, PartialEq, Eq, Structural)]
pub struct CqEntry {
    pub command_desc_base_addr: u64,
    pub rsp_upiu_length: u16,
    pub rsp_upiu_offset: u16,
    pub prd_table_length: u16,
    pub prd_table_offset: u16,
    pub overall_status: u8,
    pub extended_error_code: u8,
    pub reserved_1: u16,
    pub task_tag: u8,
    pub lun: u8,
    pub iid_ext_iid: u8,
    pub reserved_2: u8,
    pub reserved_3: u64,
}

impl Default for CqEntry {
    fn default() -> (r: Self)
        ensures
            r == CqEntry::blank(),
    {
        CqEntry {
            command_desc_base_addr: 0,
            rsp_upiu_length: 0,
            rsp_upiu_offset: 0,
            prd_table_length: 0,
            prd_table_offset: 0,
            overall_status: 0,
            extended_error_code: 0,
            reserved_1: 0,
            task_tag: 0,
            lun: 0,
            iid_ext_iid: 0,
            reserved_2: 0,
            reserved_3: 0,
        }
    }
}

/// The address without the low bits that a completion queue entry uses for
/// other purposes.
pub open spec fn ucd_base(addr: u64) -> u64 {
    (addr - addr % 128) as u64
}

impl CqEntry {
    /// The entry whose fields are all zero.
    pub open spec fn blank() -> Self {
        CqEntry {
            command_desc_base_addr: 0,
            rsp_upiu_length: 0,
            rsp_upiu_offset: 0,
            prd_table_length: 0,
            prd_table_offset: 0,
            overall_status: 0,
            extended_error_code: 0,
            reserved_1: 0,
            task_tag: 0,
            lun: 0,
            iid_ext_iid: 0,
            reserved_2: 0,
            reserved_3: 0,
        }
    }

    /// The address of the command descriptor, with the low bits that the
    /// controller put there.
    pub fn command_desc_base_addr(&self) -> (r: u64)
        ensures
            r == self.command_desc_base_addr,
    {
        self.command_desc_base_addr
    }

    /// The address of the command descriptor.
    pub fn ucd_base_addr(&self) -> (r: u64)
        ensures
            r == ucd_base(self.command_desc_base_addr),
    {
        let addr = self.command_desc_base_addr;
        assert(addr & 0xffff_ffff_ffff_ff80 == addr - addr % 128) by (bit_vector);
        addr & 0xffff_ffff_ffff_ff80
    }

    /// Whether the entry is about the command descriptor at `expected`.
    pub fn matches_ucd_base_addr(&self, expected: u64) -> (r: bool)
        ensures
            r == (ucd_base(self.command_desc_base_addr) == expected),
    {
        self.ucd_base_addr() == expected
    }

    /// Whether the slot holds no completion.
    pub fn is_empty(&self) -> (r: bool)
        ensures
            r == (self.command_desc_base_addr == 0),
    {
        self.command_desc_base_addr() == 0
    }

    /// Tag of the command.
    pub fn task_tag(&self) -> (r: u8)
        ensures
            r == self.task_tag,
    {
        self.task_tag
    }

    /// Logical unit of the command.
    pub fn lun(&self) -> (r: u8)
        ensures
            r == self.lun,
    {
        self.lun
    }

    /// Overall command status.
    pub fn overall_status(&self) -> (r: u8)
        ensures
            r == self.overall_status,
    {
        self.overall_status
    }

    /// Extended error code.
    pub fn extended_error_code(&self) -> (r: u8)
        ensures
            r == self.extended_error_code,
    {
        self.extended_error_code
    }

    /// Initiator of the command.
    pub fn iid(&self) -> (r: u8)
        ensures
            r == self.iid_ext_iid % 16,
    {
        let v = self.iid_ext_iid;
        assert(v & 0x0f == v % 16) by (bit_vector);
        v & 0x0f
    }

    /// Extended initiator of the command.
    pub fn ext_iid(&self) -> (r: u8)
        ensures
            r == self.iid_ext_iid / 16,
    {
        let v = self.iid_ext_iid;
        assert(v >> 4 == v / 16) by (bit_vector);
        v >> 4
    }

    /// Marks the slot as free.
    pub fn clear(&mut self)
        ensures
            *final(self) == (CqEntry { command_desc_base_addr: 0, ..*old(self) }),
    {
        self.command_desc_base_addr = 0;
    }

    /// The entry that 32 bytes hold.
    pub open spec fn decode(b: Seq<u8>) -> Self {
        CqEntry {
            command_desc_base_addr: endian::le_value(b.subrange(0, 8)) as u64,
            rsp_upiu_length: endian::le_value(b.subrange(8, 10)) as u16,
            rsp_upiu_offset: endian::le_value(b.subrange(10, 12)) as u16,
            prd_table_length: endian::le_value(b.subrange(12, 14)) as u16,
            prd_table_offset: endian::le_value(b.subrange(14, 16)) as u16,
            overall_status: b[16],
            extended_error_code: b[17],
            reserved_1: endian::le_value(b.subrange(18, 20)) as u16,
            task_tag: b[20],
            lun: b[21],
            iid_ext_iid: b[22],
            reserved_2: b[23],
            reserved_3: endian::le_value(b.subrange(24, 32)) as u64,
        }
    }

    /// The entry that 32 bytes hold.
    pub fn from_bytes(b: &[u8; CQ_ENTRY_SIZE]) -> (r: Self)
        ensures
            r == Self::decode(b@),
    {
        CqEntry {
            command_desc_base_addr: get_le64(b, 0),
            rsp_upiu_length: get_le16(b, 8),
            rsp_upiu_offset: get_le16(b, 10),
            prd_table_length: get_le16(b, 12),
            prd_table_offset: get_le16(b, 14),
            overall_status: b[16],
            extended_error_code: b[17],
            reserved_1: get_le16(b, 18),
            task_tag: b[20],
            lun: b[21],
            iid_ext_iid: b[22],
            reserved_2: b[23],
            reserved_3: get_le64(b, 24),
        }
    }
}

/// What the controller reads in the descriptor of a command that lies at `addr`:
/// a storage command that raises an interrupt, with data to the device, from it
/// or none; no status yet; and where the response unit and the table lie in the
/// command descriptor, behind the command unit of 512 bytes.
pub proof fn law_descriptor_tells_controller(cmd: UfsCmd, addr: u64, entries: u16)
    ensures
        ({
            let u = Utrd {
                header: ReqDescHeader::of(cmd),
                prd_table_length: entries,
                ..Utrd::blank().at(addr)
            };
            let b = u.bytes();
            &&& b.len() == 32
            &&& cmd is Device ==> b[3] == 0x11
            &&& cmd is SCSI ==> b[3] == match cmd->SCSI_0.direction {
                UfsScsiDataDirection::Read => 0x15u8,
                UfsScsiDataDirection::Write => 0x13,
                UfsScsiDataDirection::NoData => 0x11,
            }
            &&& b[8] == 0x0f
            &&& b[0] == 0 && b[1] == 0 && b[2] == 0 && b[9] == 0
            &&& endian::le_value(b.subrange(4, 8)) == 0
            &&& endian::le_value(b.subrange(10, 12)) == 0
            &&& endian::le_value(b.subrange(12, 16)) == 0
            &&& endian::le_value(b.subrange(16, 24)) == addr
            &&& endian::le_value(b.subrange(24, 26)) * 4 == 512
            &&& endian::le_value(b.subrange(26, 28)) * 4 == 512
            &&& endian::le_value(b.subrange(28, 30)) == entries
            &&& endian::le_value(b.subrange(30, 32)) * 4 == 1024
        }),
{
    let u = Utrd {
        header: ReqDescHeader::of(cmd),
        prd_table_length: entries,
        ..Utrd::blank().at(addr)
    };
    law_descriptor_layout(u);
}

/// Where a transfer request descriptor holds its fields, all little-endian. Only
/// the low half of byte 8 is the status.
pub proof fn law_descriptor_layout(u: Utrd)
    ensures
        ({
            let b = u.bytes();
            &&& b.len() == 32
            &&& b[0] == u.header.cci
            &&& b[1] == u.header.ehs_length
            &&& b[2] == u.header.flags
            &&& b[3] == u.header.ctrl
            &&& endian::le_value(b.subrange(4, 8)) == u.header.dunl
            &&& b[8] == u.header.ocs
            &&& b[9] == u.header.cds
            &&& endian::le_value(b.subrange(10, 12)) == u.header.ldbc
            &&& endian::le_value(b.subrange(12, 16)) == u.header.dunu
            &&& endian::le_value(b.subrange(16, 24)) == u.command_desc_base_addr
            &&& endian::le_value(b.subrange(24, 26)) == u.rsp_upiu_length
            &&& endian::le_value(b.subrange(26, 28)) == u.rsp_upiu_offset
            &&& endian::le_value(b.subrange(28, 30)) == u.prd_table_length
            &&& endian::le_value(b.subrange(30, 32)) == u.prd_table_offset
            &&& u.status() == b[8] % 16
        }),
{
    u.lemma_field_lengths();
    let h = u.header;
    let b = u.bytes();
    reveal_with_fuel(endian::byte_range, 9);
    endian::law_be_decode_encode(h.dunl as nat, 4);
    endian::law_be_decode_encode(h.ldbc as nat, 2);
    endian::law_be_decode_encode(h.dunu as nat, 4);
    endian::law_be_decode_encode(u.command_desc_base_addr as nat, 8);
    endian::law_be_decode_encode(u.rsp_upiu_length as nat, 2);
    endian::law_be_decode_encode(u.rsp_upiu_offset as nat, 2);
    endian::law_be_decode_encode(u.prd_table_length as nat, 2);
    endian::law_be_decode_encode(u.prd_table_offset as nat, 2);
    assert(b.subrange(4, 8) =~= endian::le_bytes(h.dunl as nat, 4));
    assert(b.subrange(10, 12) =~= endian::le_bytes(h.ldbc as nat, 2));
    assert(b.subrange(12, 16) =~= endian::le_bytes(h.dunu as nat, 4));
    assert(b.subrange(16, 24) =~= endian::le_bytes(u.command_desc_base_addr as nat, 8));
    assert(b.subrange(24, 26) =~= endian::le_bytes(u.rsp_upiu_length as nat, 2));
    assert(b.subrange(26, 28) =~= endian::le_bytes(u.rsp_upiu_offset as nat, 2));
    assert(b.subrange(28, 30) =~= endian::le_bytes(u.prd_table_length as nat, 2));
    assert(b.subrange(30, 32) =~= endian::le_bytes(u.prd_table_offset as nat, 2));
}

/// What the controller reads in a table entry: the address in the first eight
/// bytes, and one byte less than the entry covers in the last four. One entry
/// covers no more than 256 KiB.
pub proof fn law_table_entry_tells_controller(addr: u64, len: u32)
    requires
        0 < len,
    ensures
        PrdEntry::covers(len) <==> len <= 0x4_0000,
        ({
            let b = PrdEntry::of(addr, len).bytes();
            &&& b.len() == 16
            &&& endian::le_value(b.subrange(0, 8)) == addr
            &&& endian::le_value(b.subrange(8, 12)) == 0
            &&& endian::le_value(b.subrange(12, 16)) + 1 == len
        }),
{
    let e = PrdEntry::of(addr, len);
    let b = e.bytes();
    endian::lemma_be_bytes_len(addr as nat, 8);
    endian::lemma_be_bytes_len(0, 4);
    endian::lemma_be_bytes_len(e.size as nat, 4);
    reveal_with_fuel(endian::byte_range, 9);
    endian::law_be_decode_encode(addr as nat, 8);
    endian::law_be_decode_encode(0, 4);
    endian::law_be_decode_encode(e.size as nat, 4);
    assert(b.subrange(0, 8) =~= endian::le_bytes(addr as nat, 8));
    assert(b.subrange(8, 12) =~= endian::le_bytes(0, 4));
    assert(b.subrange(12, 16) =~= endian::le_bytes(e.size as nat, 4));
}

/// A completion queue entry is read as the controller wrote it: the address of
/// the command descriptor first, then the lengths and offsets, the status in byte
/// 16, the error code behind it, and the tag and the logical unit in bytes 20 and
/// 21.
pub proof fn law_completion_is_read_as_written(e: CqEntry)
    ensures
        ({
            let written = endian::le_bytes(e.command_desc_base_addr as nat, 8) + endian::le_bytes(
                e.rsp_upiu_length as nat,
                2,
            ) + endian::le_bytes(e.rsp_upiu_offset as nat, 2) + endian::le_bytes(
                e.prd_table_length as nat,
                2,
            ) + endian::le_bytes(e.prd_table_offset as nat, 2) + seq![
                e.overall_status,
                e.extended_error_code,
            ] + endian::le_bytes(e.reserved_1 as nat, 2) + seq![
                e.task_tag,
                e.lun,
                e.iid_ext_iid,
                e.reserved_2,
            ] + endian::le_bytes(e.reserved_3 as nat, 8);
            &&& written.len() == 32
            &&& written[16] == e.overall_status
            &&& written[20] == e.task_tag
            &&& CqEntry::decode(written) == e
        }),
{
    let written = endian::le_bytes(e.command_desc_base_addr as nat, 8) + endian::le_bytes(
        e.rsp_upiu_length as nat,
        2,
    ) + endian::le_bytes(e.rsp_upiu_offset as nat, 2) + endian::le_bytes(
        e.prd_table_length as nat,
        2,
    ) + endian::le_bytes(e.prd_table_offset as nat, 2) + seq![
        e.overall_status,
        e.extended_error_code,
    ] + endian::le_bytes(e.reserved_1 as nat, 2) + seq![
        e.task_tag,
        e.lun,
        e.iid_ext_iid,
        e.reserved_2,
    ] + endian::le_bytes(e.reserved_3 as nat, 8);
    reveal_with_fuel(endian::byte_range, 9);
    endian::lemma_be_bytes_len(e.command_desc_base_addr as nat, 8);
    endian::lemma_be_bytes_len(e.rsp_upiu_length as nat, 2);
    endian::lemma_be_bytes_len(e.rsp_upiu_offset as nat, 2);
    endian::lemma_be_bytes_len(e.prd_table_length as nat, 2);
    endian::lemma_be_bytes_len(e.prd_table_offset as nat, 2);
    endian::lemma_be_bytes_len(e.reserved_1 as nat, 2);
    endian::lemma_be_bytes_len(e.reserved_3 as nat, 8);
    endian::law_be_decode_encode(e.command_desc_base_addr as nat, 8);
    endian::law_be_decode_encode(e.rsp_upiu_length as nat, 2);
    endian::law_be_decode_encode(e.rsp_upiu_offset as nat, 2);
    endian::law_be_decode_encode(e.prd_table_length as nat, 2);
    endian::law_be_decode_encode(e.prd_table_offset as nat, 2);
    endian::law_be_decode_encode(e.reserved_1 as nat, 2);
    endian::law_be_decode_encode(e.reserved_3 as nat, 8);
    assert(written.subrange(0, 8) =~= endian::le_bytes(e.command_desc_base_addr as nat, 8));
    assert(written.subrange(8, 10) =~= endian::le_bytes(e.rsp_upiu_length as nat, 2));
    assert(written.subrange(10, 12) =~= endian::le_bytes(e.rsp_upiu_offset as nat, 2));
    assert(written.subrange(12, 14) =~= endian::le_bytes(e.prd_table_length as nat, 2));
    assert(written.subrange(14, 16) =~= endian::le_bytes(e.prd_table_offset as nat, 2));
    assert(written.subrange(18, 20) =~= endian::le_bytes(e.reserved_1 as nat, 2));
    assert(written.subrange(24, 32) =~= endian::le_bytes(e.reserved_3 as nat, 8));
}

/// The numbers of the overall command statuses.
pub proof fn law_status_numbers()
    ensures
        UtpOcs::Success.number() == 0x00,
        UtpOcs::InvalidCmdTableAttr.number() == 0x01,
        UtpOcs::InvalidPrdtAttr.number() == 0x02,
        UtpOcs::MismatchDataBufSize.number() == 0x03,
        UtpOcs::MisMatchRespUpiuSize.number() == 0x04,
        UtpOcs::PeerCommFailure.number() == 0x05,
        UtpOcs::Aborted.number() == 0x06,
        UtpOcs::FatalError.number() == 0x07,
        UtpOcs::DeviceFatalError.number() == 0x08,
        UtpOcs::InvalidCryptoConfig.number() == 0x09,
        UtpOcs::GeneralCryptoError.number() == 0x0a,
        UtpOcs::InvalidCommandStatus.number() == 0x0f,
{
}

/// The direction of a transfer as the controller reads it: 1 to the device, 2 from
/// it, 0 for none or for both.
pub proof fn law_direction_numbers(direction: DataDirection)
    ensures
        ({
            let d = <UtpDataDirection as vstd::std_specs::convert::FromSpec<
                DataDirection,
            >>::from_spec(direction);
            &&& d.number() == 1 <==> direction is ToDevice
            &&& d.number() == 2 <==> direction is FromDevice
            &&& d.number() == 0 <==> direction is Bidirectional || direction is NoTransfer
        }),
{
}

/// A command that is put into a command descriptor leaves its table alone and
/// blanks its response. A blank descriptor is all zeros.
pub proof fn law_command_in_descriptor(ucd: UcdView, cmd: UfsCmd, tag: usize, i: int)
    requires
        0 <= i < 256,
    ensures
        ({
            let after = ucd.with_command(command_upiu(cmd, tag));
            &&& after.prdt == ucd.prdt
            &&& after.rsp.bytes() == endian::zeros(512)
            &&& cmd matches UfsCmd::Device(c) ==> after.cmd.bytes() == UpiuView::device(
                c,
                tag,
            ).bytes()
            &&& cmd matches UfsCmd::SCSI(c) ==> after.cmd.bytes() == UpiuView::command(
                c,
                tag,
            ).bytes()
        }),
        UcdView::blank().cmd.bytes() == endian::zeros(512),
        UcdView::blank().rsp.bytes() == endian::zeros(512),
        UcdView::blank().prdt.len() == 256,
        UcdView::blank().prdt[i] == (PrdEntry { addr: 0, reserved: 0, size: 0 }),
        CqEntry::blank().command_desc_base_addr == 0,
        CqEntry::blank().overall_status == 0,
        CqEntry::blank().task_tag == 0,
        Utrd::blank().bytes() == endian::zeros(32),
{
    reveal_with_fuel(endian::be_bytes, 9);
    endian::lemma_be_bytes_len(0, 2);
    endian::lemma_be_bytes_len(0, 4);
    endian::lemma_be_bytes_len(0, 8);
    assert(UpiuView::blank().bytes() =~= endian::zeros(512));
    lemma_zero_le(2);
    lemma_zero_le(4);
    lemma_zero_le(8);
    assert(Utrd::blank().bytes() =~= endian::zeros(32));
}

/// Zero is encoded as zeros.
proof fn lemma_zero_le(n: nat)
    ensures
        endian::le_bytes(0, n) == endian::zeros(n),
{
    lemma_zero_be(n);
    assert(endian::zeros(n).reverse() =~= endian::zeros(n));
}

proof fn lemma_zero_be(n: nat)
    ensures
        endian::be_bytes(0, n) == endian::zeros(n),
    decreases n,
{
    if n > 0 {
        lemma_zero_be((n - 1) as nat);
        assert(endian::be_bytes(0, n) =~= endian::zeros(n));
    } else {
        assert(endian::be_bytes(0, n) =~= endian::zeros(n));
    }
}

/// The fields of a descriptor's control byte are set one by one: whichever is set
/// leaves the others, and what was set is in its place.
pub proof fn law_control_fields_are_apart(
    header: &mut ReqDescHeader,
    directed: &mut ReqDescHeader,
    signalled: &mut ReqDescHeader,
    cmd_type: UtpCmdType,
    direction: UtpDataDirection,
    interrupt: bool,
)
    requires
        call_ensures(ReqDescHeader::set_cmd_type, (header, cmd_type), ()),
        *old(directed) == *final(header),
        call_ensures(ReqDescHeader::set_direction, (directed, direction), ()),
        *old(signalled) == *final(directed),
        call_ensures(ReqDescHeader::set_interrupt, (signalled, interrupt), ()),
    ensures
        final(signalled).ctrl / 16 == cmd_type.number(),
        final(signalled).ctrl / 8 % 2 == old(header).ctrl / 8 % 2,
        final(signalled).ctrl / 2 % 4 == direction.number(),
        final(signalled).ctrl % 2 == 1 <==> interrupt,
        *final(signalled) == (ReqDescHeader { ctrl: final(signalled).ctrl, ..*old(header) }),
{
}

/// A completion's initiator and extended initiator are the two halves of one byte.
pub proof fn law_initiators_of_completion(e: CqEntry, iid: u8, ext_iid: u8)
    requires
        call_ensures(CqEntry::iid, (&e,), iid),
        call_ensures(CqEntry::ext_iid, (&e,), ext_iid),
    ensures
        ext_iid * 16 + iid == e.iid_ext_iid,
        iid < 16,
{
}

/// Only success is no error. What the driver got wrong is an invalid argument; every
/// other status is an I/O error.
pub proof fn law_status_errors(ocs: UtpOcs, r: Result<(), Error>)
    requires
        call_ensures(ocs_result, (ocs,), r),
    ensures
        r is Ok <==> ocs is Success,
        r == Err::<(), Error>(Error::EINVAL) <==> ocs is InvalidCmdTableAttr || ocs is InvalidPrdtAttr
            || ocs is MismatchDataBufSize || ocs is MisMatchRespUpiuSize
            || ocs is InvalidCryptoConfig || ocs is GeneralCryptoError,
        r matches Err(e) ==> e == Error::EINVAL || e == Error::EIO,
{
}

} // verus!
