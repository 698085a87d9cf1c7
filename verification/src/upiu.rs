//! UFS protocol information units.
//!
//! A unit is a 12-byte header and a 500-byte body. Its multi-byte integers are
//! big-endian.

use vstd::prelude::*;

use crate::descriptor::{Desc, DescBuffer, DescIdn, QUERY_DESC_MAX_SIZE};
use crate::endian::{
    self, be16, be32, be64, get_be16, get_be32, get_be64, put_bytes, take_bytes, zeroed,
};
use crate::error::Error;
use crate::query::{
    AttrIdn, FlagIdn, UfsAttrCmd, UfsDescCmd, UfsDevCmd, UfsFlagCmd, UfsQueryCmd,
};
use crate::scsi::{
    UfsSCSICmd, UfsScsiCompletion, UfsScsiDataDirection, UfsScsiResult, UFS_SENSE_SIZE,
};

verus! {

/// Size of a unit in a command descriptor.
pub const ALIGNED_UPIU_SIZE: usize = 512;

/// Size of a unit's header.
pub const UPIU_HEADER_SIZE: usize = 12;

/// Size of a unit's body.
pub const UPIU_BODY_SIZE: usize = 500;

/// SCSI status of a command that was carried out.
pub const SAM_STAT_GOOD: u8 = 0x00;

/// SCSI status of a command that left sense data.
pub const SAM_STAT_CHECK_CONDITION: u8 = 0x02;

/// SCSI status of a busy logical unit.
pub const SAM_STAT_BUSY: u8 = 0x08;

/// SCSI status of a reservation conflict.
pub const SAM_STAT_RESERVATION_CONFLICT: u8 = 0x18;

/// SCSI status of a full task set.
pub const SAM_STAT_TASK_SET_FULL: u8 = 0x28;

/// SCSI status of an aborted task.
pub const SAM_STAT_TASK_ABORTED: u8 = 0x40;

/// Flag of a command unit.
#[derive(Clone, Copy, Debug, PartialEq, Eq, Structural)]
pub enum UpiuFlag {
    NoFlag,
    CP,
    Write,
    Read,
}

impl UpiuFlag {
    /// The number that stands for the variant on the wire.
    pub open spec fn number(self) -> u8 {
        match self {
            UpiuFlag::NoFlag => 0x00,
            UpiuFlag::CP => 0x04,
            UpiuFlag::Write => 0x20,
            UpiuFlag::Read => 0x40,
        }
    }

    /// The number that stands for the variant on the wire.
    pub fn code(self) -> (r: u8)
        ensures
            r == self.number(),
    {
        match self {
            UpiuFlag::NoFlag => 0x00,
            UpiuFlag::CP => 0x04,
            UpiuFlag::Write => 0x20,
            UpiuFlag::Read => 0x40,
        }
    }
}

/// Transaction that a unit belongs to.
#[derive(Clone, Copy, Debug, PartialEq, Eq, Structural)]
pub enum UpiuTransaction {
    NopOut,
    Command,
    DataOut,
    TaskReq,
    QueryReq,
    NopIn,
    Response,
    DataIn,
    TaskRsp,
    ReadyXfer,
    QueryRsp,
    /// Any other transaction.
    Reject,
}

impl UpiuTransaction {
    /// The number that stands for the variant on the wire.
    pub open spec fn number(self) -> u8 {
        match self {
            UpiuTransaction::NopOut => 0x00,
            UpiuTransaction::Command => 0x01,
            UpiuTransaction::DataOut => 0x02,
            UpiuTransaction::TaskReq => 0x04,
            UpiuTransaction::QueryReq => 0x16,
            UpiuTransaction::NopIn => 0x20,
            UpiuTransaction::Response => 0x21,
            UpiuTransaction::DataIn => 0x22,
            UpiuTransaction::TaskRsp => 0x24,
            UpiuTransaction::ReadyXfer => 0x31,
            UpiuTransaction::QueryRsp => 0x36,
            UpiuTransaction::Reject => 0x3F,
        }
    }

    /// The number that stands for the variant on the wire.
    pub fn code(self) -> (r: u8)
        ensures
            r == self.number(),
    {
        match self {
            UpiuTransaction::NopOut => 0x00,
            UpiuTransaction::Command => 0x01,
            UpiuTransaction::DataOut => 0x02,
            UpiuTransaction::TaskReq => 0x04,
            UpiuTransaction::QueryReq => 0x16,
            UpiuTransaction::NopIn => 0x20,
            UpiuTransaction::Response => 0x21,
            UpiuTransaction::DataIn => 0x22,
            UpiuTransaction::TaskRsp => 0x24,
            UpiuTransaction::ReadyXfer => 0x31,
            UpiuTransaction::QueryRsp => 0x36,
            UpiuTransaction::Reject => 0x3F,
        }
    }
}

impl UpiuTransaction {
    /// The variant that a number on the wire stands for.
    pub open spec fn decode(code: u8) -> Self {
        if code == 0x00 {
            UpiuTransaction::NopOut
        } else if code == 0x01 {
            UpiuTransaction::Command
        } else if code == 0x02 {
            UpiuTransaction::DataOut
        } else if code == 0x04 {
            UpiuTransaction::TaskReq
        } else if code == 0x16 {
            UpiuTransaction::QueryReq
        } else if code == 0x20 {
            UpiuTransaction::NopIn
        } else if code == 0x21 {
            UpiuTransaction::Response
        } else if code == 0x22 {
            UpiuTransaction::DataIn
        } else if code == 0x24 {
            UpiuTransaction::TaskRsp
        } else if code == 0x31 {
            UpiuTransaction::ReadyXfer
        } else if code == 0x36 {
            UpiuTransaction::QueryRsp
        } else {
            UpiuTransaction::Reject
        }
    }
}

impl From<u8> for UpiuTransaction {
    fn from(code: u8) -> (r: UpiuTransaction) {
        match code {
            0x00 => UpiuTransaction::NopOut,
            0x01 => UpiuTransaction::Command,
            0x02 => UpiuTransaction::DataOut,
            0x04 => UpiuTransaction::TaskReq,
            0x16 => UpiuTransaction::QueryReq,
            0x20 => UpiuTransaction::NopIn,
            0x21 => UpiuTransaction::Response,
            0x22 => UpiuTransaction::DataIn,
            0x24 => UpiuTransaction::TaskRsp,
            0x31 => UpiuTransaction::ReadyXfer,
            0x36 => UpiuTransaction::QueryRsp,
            _ => UpiuTransaction::Reject,
        }
    }
}

impl vstd::std_specs::convert::FromSpecImpl<u8> for UpiuTransaction {
    open spec fn obeys_from_spec() -> bool {
        true
    }

    open spec fn from_spec(code: u8) -> UpiuTransaction {
        UpiuTransaction::decode(code)
    }
}

/// Decoding the number of a variant gives the variant back, and a number that
/// does not decode to the catch-all variant is the number of what it decodes to.
pub proof fn law_upiu_transaction_round_trip(v: UpiuTransaction, n: u8)
    ensures
        UpiuTransaction::decode(v.number()) == v,
        UpiuTransaction::decode(n) != UpiuTransaction::Reject ==> UpiuTransaction::decode(n).number() == n,
{
}

/// Function of a query request.
#[derive(Clone, Copy, Debug, PartialEq, Eq, Structural)]
pub enum UpiuQueryFunction {
    StandardRead,
    StandardWrite,
}

impl UpiuQueryFunction {
    /// The number that stands for the variant on the wire.
    pub open spec fn number(self) -> u8 {
        match self {
            UpiuQueryFunction::StandardRead => 0x01,
            UpiuQueryFunction::StandardWrite => 0x81,
        }
    }

    /// The number that stands for the variant on the wire.
    pub fn code(self) -> (r: u8)
        ensures
            r == self.number(),
    {
        match self {
            UpiuQueryFunction::StandardRead => 0x01,
            UpiuQueryFunction::StandardWrite => 0x81,
        }
    }
}

/// Response code of a query response.
#[derive(Clone, Copy, Debug, PartialEq, Eq, Structural)]
pub enum UpiuResponse {
    Success,
    ParamNotReadable,
    ParamNotWritable,
    ParamAlreadyWritten,
    InvalidLen,
    InvalidVal,
    InvalidSel,
    InvalidIndex,
    InvalidIdn,
    InvalidOp,
    /// Any other response.
    Failure,
}

impl UpiuResponse {
    /// The number that stands for the variant on the wire.
    pub open spec fn number(self) -> u8 {
        match self {
            UpiuResponse::Success => 0x00,
            UpiuResponse::ParamNotReadable => 0xF6,
            UpiuResponse::ParamNotWritable => 0xF7,
            UpiuResponse::ParamAlreadyWritten => 0xF8,
            UpiuResponse::InvalidLen => 0xF9,
            UpiuResponse::InvalidVal => 0xFA,
            UpiuResponse::InvalidSel => 0xFB,
            UpiuResponse::InvalidIndex => 0xFC,
            UpiuResponse::InvalidIdn => 0xFD,
            UpiuResponse::InvalidOp => 0xFE,
            UpiuResponse::Failure => 0xFF,
        }
    }

    /// The number that stands for the variant on the wire.
    pub fn code(self) -> (r: u8)
        ensures
            r == self.number(),
    {
        match self {
            UpiuResponse::Success => 0x00,
            UpiuResponse::ParamNotReadable => 0xF6,
            UpiuResponse::ParamNotWritable => 0xF7,
            UpiuResponse::ParamAlreadyWritten => 0xF8,
            UpiuResponse::InvalidLen => 0xF9,
            UpiuResponse::InvalidVal => 0xFA,
            UpiuResponse::InvalidSel => 0xFB,
            UpiuResponse::InvalidIndex => 0xFC,
            UpiuResponse::InvalidIdn => 0xFD,
            UpiuResponse::InvalidOp => 0xFE,
            UpiuResponse::Failure => 0xFF,
        }
    }
}

impl UpiuResponse {
    /// The variant that a number on the wire stands for.
    pub open spec fn decode(code: u8) -> Self {
        if code == 0x00 {
            UpiuResponse::Success
        } else if code == 0xF6 {
            UpiuResponse::ParamNotReadable
        } else if code == 0xF7 {
            UpiuResponse::ParamNotWritable
        } else if code == 0xF8 {
            UpiuResponse::ParamAlreadyWritten
        } else if code == 0xF9 {
            UpiuResponse::InvalidLen
        } else if code == 0xFA {
            UpiuResponse::InvalidVal
        } else if code == 0xFB {
            UpiuResponse::InvalidSel
        } else if code == 0xFC {
            UpiuResponse::InvalidIndex
        } else if code == 0xFD {
            UpiuResponse::InvalidIdn
        } else if code == 0xFE {
            UpiuResponse::InvalidOp
        } else {
            UpiuResponse::Failure
        }
    }
}

impl From<u8> for UpiuResponse {
    fn from(code: u8) -> (r: UpiuResponse) {
        match code {
            0x00 => UpiuResponse::Success,
            0xF6 => UpiuResponse::ParamNotReadable,
            0xF7 => UpiuResponse::ParamNotWritable,
            0xF8 => UpiuResponse::ParamAlreadyWritten,
            0xF9 => UpiuResponse::InvalidLen,
            0xFA => UpiuResponse::InvalidVal,
            0xFB => UpiuResponse::InvalidSel,
            0xFC => UpiuResponse::InvalidIndex,
            0xFD => UpiuResponse::InvalidIdn,
            0xFE => UpiuResponse::InvalidOp,
            _ => UpiuResponse::Failure,
        }
    }
}

impl vstd::std_specs::convert::FromSpecImpl<u8> for UpiuResponse {
    open spec fn obeys_from_spec() -> bool {
        true
    }

    open spec fn from_spec(code: u8) -> UpiuResponse {
        UpiuResponse::decode(code)
    }
}

/// Decoding the number of a variant gives the variant back, and a number that
/// does not decode to the catch-all variant is the number of what it decodes to.
pub proof fn law_upiu_response_round_trip(v: UpiuResponse, n: u8)
    ensures
        UpiuResponse::decode(v.number()) == v,
        UpiuResponse::decode(n) != UpiuResponse::Failure ==> UpiuResponse::decode(n).number() == n,
{
}

/// Operation of a query request.
#[derive(Clone, Copy, Debug, PartialEq, Eq, Structural)]
pub enum QueryOpcode {
    Nop,
    ReadDesc,
    WriteDesc,
    ReadAttr,
    WriteAttr,
    ReadFlag,
    SetFlag,
    ClearFlag,
    ToggleFlag,
}

impl QueryOpcode {
    /// The number that stands for the variant on the wire.
    pub open spec fn number(self) -> u8 {
        match self {
            QueryOpcode::Nop => 0x0,
            QueryOpcode::ReadDesc => 0x1,
            QueryOpcode::WriteDesc => 0x2,
            QueryOpcode::ReadAttr => 0x3,
            QueryOpcode::WriteAttr => 0x4,
            QueryOpcode::ReadFlag => 0x5,
            QueryOpcode::SetFlag => 0x6,
            QueryOpcode::ClearFlag => 0x7,
            QueryOpcode::ToggleFlag => 0x8,
        }
    }

    /// The number that stands for the variant on the wire.
    pub fn code(self) -> (r: u8)
        ensures
            r == self.number(),
    {
        match self {
            QueryOpcode::Nop => 0x0,
            QueryOpcode::ReadDesc => 0x1,
            QueryOpcode::WriteDesc => 0x2,
            QueryOpcode::ReadAttr => 0x3,
            QueryOpcode::WriteAttr => 0x4,
            QueryOpcode::ReadFlag => 0x5,
            QueryOpcode::SetFlag => 0x6,
            QueryOpcode::ClearFlag => 0x7,
            QueryOpcode::ToggleFlag => 0x8,
        }
    }
}

/// Header of a unit.
#[derive(Clone, Copy, Debug, PartialEq, Eq, Structural)]
pub struct UpiuHeader {
    pub transaction_code: u8,
    pub flags: u8,
    pub lun: u8,
    pub task_tag: u8,
    pub cmd_set: u8,
    pub query_func: u8,
    pub response: u8,
    pub status: u8,
    pub ehs_length: u8,
    pub dev_info: u8,
    pub data_seg_len: u16,
}

/// The tag as the one byte of a header that holds it.
pub open spec fn tag_byte(tag: usize) -> u8 {
    (tag % 256) as u8
}

impl Default for UpiuHeader {
    fn default() -> (r: Self)
        ensures
            r == UpiuHeader::blank(),
    {
        UpiuHeader {
            transaction_code: 0,
            flags: 0,
            lun: 0,
            task_tag: 0,
            cmd_set: 0,
            query_func: 0,
            response: 0,
            status: 0,
            ehs_length: 0,
            dev_info: 0,
            data_seg_len: 0,
        }
    }
}

impl UpiuHeader {
    /// The header whose fields are all zero.
    pub open spec fn blank() -> Self {
        UpiuHeader {
            transaction_code: 0,
            flags: 0,
            lun: 0,
            task_tag: 0,
            cmd_set: 0,
            query_func: 0,
            response: 0,
            status: 0,
            ehs_length: 0,
            dev_info: 0,
            data_seg_len: 0,
        }
    }

    /// Header of a query request.
    pub open spec fn query_header(function: UpiuQueryFunction, tag: usize) -> Self {
        UpiuHeader {
            transaction_code: UpiuTransaction::QueryReq.number(),
            task_tag: tag_byte(tag),
            query_func: function.number(),
            ..Self::blank()
        }
    }

    /// Header of a NOP OUT.
    pub open spec fn nop_header(tag: usize) -> Self {
        UpiuHeader {
            transaction_code: UpiuTransaction::NopOut.number(),
            task_tag: tag_byte(tag),
            ..Self::blank()
        }
    }

    /// Header of a SCSI command.
    pub open spec fn command_header(cmd: UfsSCSICmd, tag: usize) -> Self {
        UpiuHeader {
            transaction_code: UpiuTransaction::Command.number(),
            flags: match cmd.direction {
                UfsScsiDataDirection::Read => UpiuFlag::Read.number(),
                UfsScsiDataDirection::Write => UpiuFlag::Write.number(),
                UfsScsiDataDirection::NoData => UpiuFlag::NoFlag.number(),
            },
            lun: cmd.lun,
            task_tag: tag_byte(tag),
            ..Self::blank()
        }
    }

    /// Header of a NOP OUT.
    pub fn nop_out(tag: usize) -> (r: Self)
        ensures
            r == Self::nop_header(tag),
    {
        UpiuHeader {
            transaction_code: UpiuTransaction::NopOut.code(),
            task_tag: (tag % 256) as u8,
            ..Self::default()
        }
    }

    /// Header of a query request that reads.
    pub fn query_read(tag: usize) -> (r: Self)
        ensures
            r == Self::query_header(UpiuQueryFunction::StandardRead, tag),
    {
        UpiuHeader {
            transaction_code: UpiuTransaction::QueryReq.code(),
            task_tag: (tag % 256) as u8,
            query_func: UpiuQueryFunction::StandardRead.code(),
            ..Self::default()
        }
    }

    /// Header of a query request that writes.
    pub fn query_write(tag: usize) -> (r: Self)
        ensures
            r == Self::query_header(UpiuQueryFunction::StandardWrite, tag),
    {
        UpiuHeader {
            transaction_code: UpiuTransaction::QueryReq.code(),
            task_tag: (tag % 256) as u8,
            query_func: UpiuQueryFunction::StandardWrite.code(),
            ..Self::default()
        }
    }

    /// Header of a query request that writes `length` bytes of data segment.
    pub fn query_write_data(tag: usize, length: usize) -> (r: Self)
        ensures
            r == (UpiuHeader {
                data_seg_len: (length % 0x1_0000) as u16,
                ..Self::query_header(UpiuQueryFunction::StandardWrite, tag)
            }),
    {
        UpiuHeader {
            transaction_code: UpiuTransaction::QueryReq.code(),
            task_tag: (tag % 256) as u8,
            query_func: UpiuQueryFunction::StandardWrite.code(),
            data_seg_len: (length % 0x1_0000) as u16,
            ..Self::default()
        }
    }

    /// Header of a SCSI command.
    pub fn command(cmd: UfsSCSICmd, tag: usize) -> (r: Self)
        ensures
            r == Self::command_header(cmd, tag),
    {
        let flags = match cmd.direction() {
            UfsScsiDataDirection::Read => UpiuFlag::Read,
            UfsScsiDataDirection::Write => UpiuFlag::Write,
            UfsScsiDataDirection::NoData => UpiuFlag::NoFlag,
        };
        UpiuHeader {
            transaction_code: UpiuTransaction::Command.code(),
            flags: flags.code(),
            lun: cmd.lun(),
            task_tag: (tag % 256) as u8,
            cmd_set: 0,
            ..Self::default()
        }
    }

    /// The bytes of the header.
    pub open spec fn bytes(self) -> Seq<u8> {
        seq![
            self.transaction_code,
            self.flags,
            self.lun,
            self.task_tag,
            self.cmd_set,
            self.query_func,
            self.response,
            self.status,
            self.ehs_length,
            self.dev_info,
        ] + endian::be_bytes(self.data_seg_len as nat, 2)
    }

    /// The bytes of the header.
    pub fn to_bytes(&self) -> (r: [u8; UPIU_HEADER_SIZE])
        ensures
            r@ == self.bytes(),
    {
        let len = be16(self.data_seg_len);
        let r = [
            self.transaction_code,
            self.flags,
            self.lun,
            self.task_tag,
            self.cmd_set,
            self.query_func,
            self.response,
            self.status,
            self.ehs_length,
            self.dev_info,
            len[0],
            len[1],
        ];
        assert(r@ =~= self.bytes());
        r
    }

    /// The header that 12 bytes hold.
    pub open spec fn decode(b: Seq<u8>) -> Self {
        UpiuHeader {
            transaction_code: b[0],
            flags: b[1],
            lun: b[2],
            task_tag: b[3],
            cmd_set: b[4],
            query_func: b[5],
            response: b[6],
            status: b[7],
            ehs_length: b[8],
            dev_info: b[9],
            data_seg_len: endian::be_value(b.subrange(10, 12)) as u16,
        }
    }

    /// The header that stands at the start of a unit.
    pub fn from_bytes(b: &[u8; ALIGNED_UPIU_SIZE]) -> (r: Self)
        ensures
            r == Self::decode(b@),
    {
        UpiuHeader {
            transaction_code: b[0],
            flags: b[1],
            lun: b[2],
            task_tag: b[3],
            cmd_set: b[4],
            query_func: b[5],
            response: b[6],
            status: b[7],
            ehs_length: b[8],
            dev_info: b[9],
            data_seg_len: get_be16(b, 10),
        }
    }
}

/// Body of a query request without its operation-specific fields.
pub open spec fn query_body(opcode: u8, idn: u8, index: u8, selector: u8) -> Seq<u8> {
    endian::zeros(UPIU_BODY_SIZE as nat).update(0, opcode).update(1, idn).update(2, index).update(
        3,
        selector,
    )
}

/// Body of a descriptor read: the length to read stands from byte 6 on.
pub open spec fn read_desc_body(cmd: UfsDescCmd) -> Seq<u8> {
    endian::splice(
        query_body(QueryOpcode::ReadDesc.number(), cmd.idn.number(), cmd.index, cmd.selector),
        6,
        endian::be_bytes(cmd.length as nat, 2),
    )
}

/// Body of an attribute read.
pub open spec fn read_attr_body(cmd: UfsAttrCmd) -> Seq<u8> {
    query_body(QueryOpcode::ReadAttr.number(), cmd.idn.number(), cmd.index, cmd.selector)
}

/// Body of an attribute write: the value stands from byte 4 on.
pub open spec fn write_attr_body(cmd: UfsAttrCmd) -> Seq<u8> {
    endian::splice(
        query_body(QueryOpcode::WriteAttr.number(), cmd.idn.number(), cmd.index, cmd.selector),
        4,
        endian::be_bytes(cmd.value as nat, 8),
    )
}

/// Body of a flag request.
pub open spec fn flag_body(cmd: UfsFlagCmd, opcode: QueryOpcode) -> Seq<u8> {
    query_body(opcode.number(), cmd.idn.number(), cmd.index, cmd.selector)
}

/// Body of a SCSI command: the expected transfer length, then the command
/// descriptor block.
pub open spec fn command_body(cmd: UfsSCSICmd) -> Seq<u8> {
    endian::splice(
        endian::splice(
            endian::zeros(UPIU_BODY_SIZE as nat),
            0,
            endian::be_bytes(cmd.data_len as nat, 4),
        ),
        4,
        cmd.cdb@,
    )
}

/// Body of a unit.
#[derive(Clone, Copy, Debug)]
pub struct UpiuBody {
    pub data: [u8; UPIU_BODY_SIZE],
}

impl UpiuBody {
    /// Body of a NOP OUT.
    pub fn nop_out() -> (r: Self)
        ensures
            r.data@ == endian::zeros(UPIU_BODY_SIZE as nat),
    {
        UpiuBody { data: zeroed() }
    }

    /// Body of a query request without its operation-specific fields.
    fn query(opcode: QueryOpcode, idn: u8, index: u8, selector: u8) -> (r: Self)
        ensures
            r.data@ == query_body(opcode.number(), idn, index, selector),
    {
        let mut data: [u8; UPIU_BODY_SIZE] = zeroed();
        data[0] = opcode.code();
        data[1] = idn;
        data[2] = index;
        data[3] = selector;
        UpiuBody { data }
    }

    /// Body of a descriptor read.
    pub fn read_desc(cmd: UfsDescCmd) -> (r: Self)
        ensures
            r.data@ == read_desc_body(cmd),
    {
        let mut body = Self::query(QueryOpcode::ReadDesc, cmd.idn.code(), cmd.index, cmd.selector);
        put_bytes(&mut body.data, 6, &be16(cmd.length));
        body
    }

    /// Body of an attribute read.
    pub fn read_attr(cmd: UfsAttrCmd) -> (r: Self)
        ensures
            r.data@ == read_attr_body(cmd),
    {
        Self::query(QueryOpcode::ReadAttr, cmd.idn.code(), cmd.index, cmd.selector)
    }

    /// Body of an attribute write.
    pub fn write_attr(cmd: UfsAttrCmd) -> (r: Self)
        ensures
            r.data@ == write_attr_body(cmd),
    {
        let mut body = Self::query(QueryOpcode::WriteAttr, cmd.idn.code(), cmd.index, cmd.selector);
        put_bytes(&mut body.data, 4, &be64(cmd.value));
        body
    }

    /// Body of a flag request.
    fn flag(cmd: UfsFlagCmd, opcode: QueryOpcode) -> (r: Self)
        ensures
            r.data@ == flag_body(cmd, opcode),
    {
        Self::query(opcode, cmd.idn.code(), cmd.index, cmd.selector)
    }

    /// Body of a flag read.
    pub fn read_flag(cmd: UfsFlagCmd) -> (r: Self)
        ensures
            r.data@ == flag_body(cmd, QueryOpcode::ReadFlag),
    {
        Self::flag(cmd, QueryOpcode::ReadFlag)
    }

    /// Body of a request that sets a flag.
    pub fn set_flag(cmd: UfsFlagCmd) -> (r: Self)
        ensures
            r.data@ == flag_body(cmd, QueryOpcode::SetFlag),
    {
        Self::flag(cmd, QueryOpcode::SetFlag)
    }

    /// Body of a request that clears a flag.
    pub fn clear_flag(cmd: UfsFlagCmd) -> (r: Self)
        ensures
            r.data@ == flag_body(cmd, QueryOpcode::ClearFlag),
    {
        Self::flag(cmd, QueryOpcode::ClearFlag)
    }

    /// Body of a request that toggles a flag.
    pub fn toggle_flag(cmd: UfsFlagCmd) -> (r: Self)
        ensures
            r.data@ == flag_body(cmd, QueryOpcode::ToggleFlag),
    {
        Self::flag(cmd, QueryOpcode::ToggleFlag)
    }

    /// Body of a SCSI command.
    pub fn command(cmd: UfsSCSICmd) -> (r: Self)
        ensures
            r.data@ == command_body(cmd),
    {
        let mut data: [u8; UPIU_BODY_SIZE] = zeroed();
        put_bytes(&mut data, 0, &be32(cmd.data_len()));
        put_bytes(&mut data, 4, &cmd.cdb());
        UpiuBody { data }
    }
}

/// Header and body bytes of a unit.
#[verifier::ext_equal]
pub struct UpiuView {
    pub header: UpiuHeader,
    pub body: Seq<u8>,
}

/// A UFS protocol information unit.
#[derive(Clone, Copy, Debug)]
pub struct Upiu {
    pub header: UpiuHeader,
    pub body: UpiuBody,
}

impl View for Upiu {
    type V = UpiuView;

    open spec fn view(&self) -> UpiuView {
        UpiuView { header: self.header, body: self.body.data@ }
    }
}

impl UpiuView {
    /// The unit whose bytes are all zero.
    pub open spec fn blank() -> Self {
        UpiuView { header: UpiuHeader::blank(), body: endian::zeros(UPIU_BODY_SIZE as nat) }
    }

    /// A NOP OUT.
    pub open spec fn nop(tag: usize) -> Self {
        UpiuView { header: UpiuHeader::nop_header(tag), body: endian::zeros(UPIU_BODY_SIZE as nat) }
    }

    /// A SCSI command.
    pub open spec fn command(cmd: UfsSCSICmd, tag: usize) -> Self {
        UpiuView { header: UpiuHeader::command_header(cmd, tag), body: command_body(cmd) }
    }

    /// A query request. Descriptor writes are not supported: they go out as a
    /// NOP OUT.
    pub open spec fn query(cmd: UfsQueryCmd, tag: usize) -> Self {
        let read = UpiuHeader::query_header(UpiuQueryFunction::StandardRead, tag);
        let write = UpiuHeader::query_header(UpiuQueryFunction::StandardWrite, tag);
        match cmd {
            UfsQueryCmd::Nop => Self::nop(tag),
            UfsQueryCmd::ReadDesc(c) => UpiuView { header: read, body: read_desc_body(c) },
            UfsQueryCmd::WriteDesc(_) => Self::nop(tag),
            UfsQueryCmd::ReadAttr(c) => UpiuView { header: read, body: read_attr_body(c) },
            UfsQueryCmd::WriteAttr(c) => UpiuView { header: write, body: write_attr_body(c) },
            UfsQueryCmd::ReadFlag(c) => UpiuView {
                header: read,
                body: flag_body(c, QueryOpcode::ReadFlag),
            },
            UfsQueryCmd::SetFlag(c) => UpiuView {
                header: write,
                body: flag_body(c, QueryOpcode::SetFlag),
            },
            UfsQueryCmd::ClearFlag(c) => UpiuView {
                header: write,
                body: flag_body(c, QueryOpcode::ClearFlag),
            },
            UfsQueryCmd::ToggleFlag(c) => UpiuView {
                header: write,
                body: flag_body(c, QueryOpcode::ToggleFlag),
            },
        }
    }

    /// A device management command. RPMB requests are not supported: they go
    /// out as a NOP OUT.
    pub open spec fn device(cmd: UfsDevCmd, tag: usize) -> Self {
        match cmd {
            UfsDevCmd::Nop => Self::nop(tag),
            UfsDevCmd::Query(c) => Self::query(c, tag),
            UfsDevCmd::RPMB(_) => Self::nop(tag),
        }
    }

    /// The attribute that a query response reports.
    pub open spec fn attr(self) -> UfsAttrCmd {
        UfsAttrCmd {
            idn: AttrIdn::decode(self.body[1]),
            index: self.body[2],
            selector: self.body[3],
            value: endian::be_value(self.body.subrange(4, 12)) as u64,
        }
    }

    /// The flag that a query response reports.
    pub open spec fn flag(self) -> UfsFlagCmd {
        UfsFlagCmd {
            idn: FlagIdn::decode(self.body[1]),
            index: self.body[2],
            selector: self.body[3],
            value: self.body[11],
        }
    }

    /// `desc` is the descriptor that a query response reports.
    pub open spec fn is_desc(self, desc: UfsDescCmd) -> bool {
        &&& desc.idn == DescIdn::decode(self.body[1])
        &&& desc.index == self.body[2]
        &&& desc.selector == self.body[3]
        &&& desc.length == endian::be_value(self.body.subrange(6, 8))
        &&& desc.desc.describes(self.body[1], self.body.subrange(20, 275))
    }

    /// `r` is the answer that this query response gives to `cmd`.
    pub open spec fn answers_query(self, cmd: UfsQueryCmd, r: UfsQueryCmd) -> bool {
        match cmd {
            UfsQueryCmd::ReadDesc(_) => r matches UfsQueryCmd::ReadDesc(d) && self.is_desc(d),
            UfsQueryCmd::ReadAttr(_) => r == UfsQueryCmd::ReadAttr(self.attr()),
            UfsQueryCmd::WriteAttr(_) => r == UfsQueryCmd::WriteAttr(self.attr()),
            UfsQueryCmd::ReadFlag(_) => r == UfsQueryCmd::ReadFlag(self.flag()),
            UfsQueryCmd::SetFlag(_) => r == UfsQueryCmd::SetFlag(self.flag()),
            UfsQueryCmd::ClearFlag(_) => r == UfsQueryCmd::ClearFlag(self.flag()),
            UfsQueryCmd::ToggleFlag(_) => r == UfsQueryCmd::ToggleFlag(self.flag()),
            _ => r == cmd,
        }
    }

    /// This unit is a good response to `cmd`.
    pub open spec fn accepts(self, cmd: UfsDevCmd) -> bool {
        let transaction = UpiuTransaction::decode(self.header.transaction_code);
        match cmd {
            UfsDevCmd::Nop => transaction == UpiuTransaction::NopIn,
            UfsDevCmd::Query(_) => transaction == UpiuTransaction::QueryRsp && UpiuResponse::decode(
                self.header.response,
            ) == UpiuResponse::Success,
            UfsDevCmd::RPMB(_) => transaction == UpiuTransaction::Response,
        }
    }

    /// `r` is the answer that this response gives to `cmd`.
    pub open spec fn answers(self, cmd: UfsDevCmd, r: UfsDevCmd) -> bool {
        match cmd {
            UfsDevCmd::Query(c) => r matches UfsDevCmd::Query(a) && self.answers_query(c, a),
            _ => r == cmd,
        }
    }

    /// How a SCSI command ended that this unit responds to.
    pub open spec fn scsi_completion(self) -> UfsScsiCompletion {
        if UpiuTransaction::decode(self.header.transaction_code) != UpiuTransaction::Response {
            UfsScsiCompletion::Error
        } else if self.header.status == SAM_STAT_GOOD {
            UfsScsiCompletion::Good
        } else if self.header.status == SAM_STAT_CHECK_CONDITION {
            UfsScsiCompletion::CheckCondition
        } else if self.header.status == SAM_STAT_BUSY {
            UfsScsiCompletion::Busy
        } else if self.header.status == SAM_STAT_RESERVATION_CONFLICT {
            UfsScsiCompletion::ReservationConflict
        } else if self.header.status == SAM_STAT_TASK_SET_FULL {
            UfsScsiCompletion::TaskSetFull
        } else if self.header.status == SAM_STAT_TASK_ABORTED {
            UfsScsiCompletion::TaskAborted
        } else {
            UfsScsiCompletion::Error
        }
    }

    /// Length of the sense data, no more than there is room for.
    pub open spec fn sense_len(self) -> nat {
        let len = endian::be_value(self.body.subrange(20, 22));
        if len <= UFS_SENSE_SIZE {
            len
        } else {
            UFS_SENSE_SIZE as nat
        }
    }

    /// `r` is what this unit reports of a SCSI command.
    pub open spec fn reports(self, ocs: u8, r: UfsScsiResult) -> bool {
        &&& r.completion == self.scsi_completion()
        &&& r.ocs == ocs
        &&& r.transaction == self.header.transaction_code
        &&& r.response == self.header.response
        &&& r.status == self.header.status
        &&& r.residual_transfer_count == endian::be_value(self.body.subrange(0, 4))
        &&& r.sense_data_len == self.sense_len()
        &&& r.sense_data@ == self.body.subrange(22, 40)
    }

    /// The bytes of the unit.
    pub open spec fn bytes(self) -> Seq<u8> {
        self.header.bytes() + self.body
    }
}

impl Default for Upiu {
    fn default() -> (r: Self)
        ensures
            r@ == UpiuView::blank(),
    {
        Upiu { header: UpiuHeader::default(), body: UpiuBody::nop_out() }
    }
}

impl Upiu {
    /// A NOP OUT.
    pub fn nop_out(tag: usize) -> (r: Self)
        ensures
            r@ == UpiuView::nop(tag),
    {
        Upiu { header: UpiuHeader::nop_out(tag), body: UpiuBody::nop_out() }
    }

    /// A descriptor read.
    pub fn read_desc(cmd: UfsDescCmd, tag: usize) -> (r: Self)
        ensures
            r@ == UpiuView::query(UfsQueryCmd::ReadDesc(cmd), tag),
    {
        Upiu { header: UpiuHeader::query_read(tag), body: UpiuBody::read_desc(cmd) }
    }

    /// An attribute read.
    pub fn read_attr(cmd: UfsAttrCmd, tag: usize) -> (r: Self)
        ensures
            r@ == UpiuView::query(UfsQueryCmd::ReadAttr(cmd), tag),
    {
        Upiu { header: UpiuHeader::query_read(tag), body: UpiuBody::read_attr(cmd) }
    }

    /// An attribute write.
    pub fn write_attr(cmd: UfsAttrCmd, tag: usize) -> (r: Self)
        ensures
            r@ == UpiuView::query(UfsQueryCmd::WriteAttr(cmd), tag),
    {
        Upiu { header: UpiuHeader::query_write(tag), body: UpiuBody::write_attr(cmd) }
    }

    /// A flag read.
    pub fn read_flag(cmd: UfsFlagCmd, tag: usize) -> (r: Self)
        ensures
            r@ == UpiuView::query(UfsQueryCmd::ReadFlag(cmd), tag),
    {
        Upiu { header: UpiuHeader::query_read(tag), body: UpiuBody::read_flag(cmd) }
    }

    /// A request that sets a flag.
    pub fn set_flag(cmd: UfsFlagCmd, tag: usize) -> (r: Self)
        ensures
            r@ == UpiuView::query(UfsQueryCmd::SetFlag(cmd), tag),
    {
        Upiu { header: UpiuHeader::query_write(tag), body: UpiuBody::set_flag(cmd) }
    }

    /// A request that clears a flag.
    pub fn clear_flag(cmd: UfsFlagCmd, tag: usize) -> (r: Self)
        ensures
            r@ == UpiuView::query(UfsQueryCmd::ClearFlag(cmd), tag),
    {
        Upiu { header: UpiuHeader::query_write(tag), body: UpiuBody::clear_flag(cmd) }
    }

    /// A request that toggles a flag.
    pub fn toggle_flag(cmd: UfsFlagCmd, tag: usize) -> (r: Self)
        ensures
            r@ == UpiuView::query(UfsQueryCmd::ToggleFlag(cmd), tag),
    {
        Upiu { header: UpiuHeader::query_write(tag), body: UpiuBody::toggle_flag(cmd) }
    }

    /// A SCSI command.
    pub fn command(cmd: UfsSCSICmd, tag: usize) -> (r: Self)
        ensures
            r@ == UpiuView::command(cmd, tag),
    {
        Upiu { header: UpiuHeader::command(cmd, tag), body: UpiuBody::command(cmd) }
    }

    /// A device management command.
    pub fn device(cmd: UfsDevCmd, tag: usize) -> (r: Self)
        ensures
            r@ == UpiuView::device(cmd, tag),
    {
        match cmd {
            UfsDevCmd::Nop => Self::nop_out(tag),
            UfsDevCmd::Query(cmd) => Self::query(cmd, tag),
            UfsDevCmd::RPMB(_) => Self::nop_out(tag),
        }
    }

    /// A query request.
    pub fn query(cmd: UfsQueryCmd, tag: usize) -> (r: Self)
        ensures
            r@ == UpiuView::query(cmd, tag),
    {
        match cmd {
            UfsQueryCmd::Nop => Self::nop_out(tag),
            UfsQueryCmd::ReadDesc(cmd) => Self::read_desc(cmd, tag),
            UfsQueryCmd::WriteDesc(_) => Self::nop_out(tag),
            UfsQueryCmd::ReadAttr(cmd) => Self::read_attr(cmd, tag),
            UfsQueryCmd::WriteAttr(cmd) => Self::write_attr(cmd, tag),
            UfsQueryCmd::ReadFlag(cmd) => Self::read_flag(cmd, tag),
            UfsQueryCmd::SetFlag(cmd) => Self::set_flag(cmd, tag),
            UfsQueryCmd::ClearFlag(cmd) => Self::clear_flag(cmd, tag),
            UfsQueryCmd::ToggleFlag(cmd) => Self::toggle_flag(cmd, tag),
        }
    }

    /// The transaction that the unit belongs to.
    pub fn transaction(&self) -> (r: UpiuTransaction)
        ensures
            r == UpiuTransaction::decode(self.header.transaction_code),
    {
        UpiuTransaction::from(self.header.transaction_code)
    }

    /// The response that the unit reports.
    pub fn response(&self) -> (r: UpiuResponse)
        ensures
            r == UpiuResponse::decode(self.header.response),
    {
        UpiuResponse::from(self.header.response)
    }

    /// What the unit reports of a SCSI command.
    pub fn scsi_result(&self, ocs: u8) -> (r: UfsScsiResult)
        ensures
            self@.reports(ocs, r),
    {
        let reported = get_be16(&self.body.data, 20) as usize;
        let sense_data_len = if reported < UFS_SENSE_SIZE {
            reported
        } else {
            UFS_SENSE_SIZE
        };
        let mut result = UfsScsiResult {
            completion: UfsScsiCompletion::Error,
            ocs,
            transaction: self.header.transaction_code,
            response: self.header.response,
            status: self.header.status,
            residual_transfer_count: get_be32(&self.body.data, 0),
            sense_data_len,
            sense_data: take_bytes(&self.body.data, 22),
        };
        match self.transaction() {
            UpiuTransaction::Response => {},
            _ => return result,
        }
        result.completion = match self.header.status {
            SAM_STAT_GOOD => UfsScsiCompletion::Good,
            SAM_STAT_CHECK_CONDITION => UfsScsiCompletion::CheckCondition,
            SAM_STAT_BUSY => UfsScsiCompletion::Busy,
            SAM_STAT_RESERVATION_CONFLICT => UfsScsiCompletion::ReservationConflict,
            SAM_STAT_TASK_SET_FULL => UfsScsiCompletion::TaskSetFull,
            SAM_STAT_TASK_ABORTED => UfsScsiCompletion::TaskAborted,
            _ => UfsScsiCompletion::Error,
        };
        result
    }

    /// The answer that the unit gives to a device management command.
    pub fn fetch_dev(&self, cmd: UfsDevCmd) -> (r: Result<UfsDevCmd, Error>)
        ensures
            r is Ok <==> self@.accepts(cmd),
            match r {
                Ok(answer) => self@.answers(cmd, answer),
                Err(e) => e == Error::EIO,
            },
    {
        match cmd {
            UfsDevCmd::Nop => {
                match self.transaction() {
                    UpiuTransaction::NopIn => Ok(cmd),
                    _ => Err(Error::EIO),
                }
            },
            UfsDevCmd::Query(cmd) => {
                match self.transaction() {
                    UpiuTransaction::QueryRsp => {
                        match self.response() {
                            UpiuResponse::Success => Ok(self.fetch_query(cmd)),
                            _ => Err(Error::EIO),
                        }
                    },
                    _ => Err(Error::EIO),
                }
            },
            UfsDevCmd::RPMB(cmd) => {
                match self.transaction() {
                    UpiuTransaction::Response => Ok(UfsDevCmd::RPMB(cmd)),
                    _ => Err(Error::EIO),
                }
            },
        }
    }

    /// The attribute that the unit reports.
    fn fetch_attr(&self) -> (r: UfsAttrCmd)
        ensures
            r == self@.attr(),
    {
        UfsAttrCmd {
            idn: AttrIdn::from(self.body.data[1]),
            index: self.body.data[2],
            selector: self.body.data[3],
            value: get_be64(&self.body.data, 4),
        }
    }

    /// The flag that the unit reports.
    fn fetch_flag(&self) -> (r: UfsFlagCmd)
        ensures
            r == self@.flag(),
    {
        UfsFlagCmd {
            idn: FlagIdn::from(self.body.data[1]),
            index: self.body.data[2],
            selector: self.body.data[3],
            value: self.body.data[11],
        }
    }

    /// The descriptor that the unit reports.
    fn fetch_desc(&self) -> (r: UfsDescCmd)
        ensures
            self@.is_desc(r),
    {
        let buffer = DescBuffer { data: take_bytes(&self.body.data, 20) };
        UfsDescCmd {
            idn: DescIdn::from(self.body.data[1]),
            index: self.body.data[2],
            selector: self.body.data[3],
            length: get_be16(&self.body.data, 6),
            desc: Desc::from_buffer(self.body.data[1], buffer),
        }
    }

    /// The answer that the unit gives to a query request.
    pub fn fetch_query(&self, cmd: UfsQueryCmd) -> (r: UfsDevCmd)
        ensures
            r matches UfsDevCmd::Query(answer) && self@.answers_query(cmd, answer),
    {
        match cmd {
            UfsQueryCmd::ReadDesc(_) => UfsDevCmd::Query(UfsQueryCmd::ReadDesc(self.fetch_desc())),
            UfsQueryCmd::ReadAttr(_) => UfsDevCmd::Query(UfsQueryCmd::ReadAttr(self.fetch_attr())),
            UfsQueryCmd::WriteAttr(_) => UfsDevCmd::Query(
                UfsQueryCmd::WriteAttr(self.fetch_attr()),
            ),
            UfsQueryCmd::ReadFlag(_) => UfsDevCmd::Query(UfsQueryCmd::ReadFlag(self.fetch_flag())),
            UfsQueryCmd::SetFlag(_) => UfsDevCmd::Query(UfsQueryCmd::SetFlag(self.fetch_flag())),
            UfsQueryCmd::ClearFlag(_) => UfsDevCmd::Query(
                UfsQueryCmd::ClearFlag(self.fetch_flag()),
            ),
            UfsQueryCmd::ToggleFlag(_) => UfsDevCmd::Query(
                UfsQueryCmd::ToggleFlag(self.fetch_flag()),
            ),
            _ => UfsDevCmd::Query(cmd),
        }
    }

    /// The bytes of the unit, as the controller reads them.
    pub fn to_bytes(&self) -> (r: [u8; ALIGNED_UPIU_SIZE])
        ensures
            r@ == self@.bytes(),
    {
        let mut r: [u8; ALIGNED_UPIU_SIZE] = zeroed();
        put_bytes(&mut r, 0, &self.header.to_bytes());
        put_bytes(&mut r, UPIU_HEADER_SIZE, &self.body.data);
        proof {
            endian::lemma_be_bytes_len(self.header.data_seg_len as nat, 2);
        }
        assert(r@ =~= self@.bytes());
        r
    }

    /// The unit that the controller wrote.
    pub fn from_bytes(b: &[u8; ALIGNED_UPIU_SIZE]) -> (r: Self)
        ensures
            r@ == (UpiuView { header: UpiuHeader::decode(b@), body: b@.subrange(12, 512) }),
    {
        Upiu {
            header: UpiuHeader::from_bytes(b),
            body: UpiuBody { data: take_bytes(b, UPIU_HEADER_SIZE) },
        }
    }
}

/// Reading back the bytes of a unit gives the unit.
pub proof fn law_upiu_round_trip(u: UpiuView)
    requires
        u.body.len() == UPIU_BODY_SIZE,
    ensures
        u.bytes().len() == ALIGNED_UPIU_SIZE,
        UpiuHeader::decode(u.bytes()) == u.header,
        u.bytes().subrange(12, 512) == u.body,
{
    let v = u.header.data_seg_len as nat;
    endian::lemma_be_bytes_len(v, 2);
    reveal_with_fuel(endian::byte_range, 3);
    endian::law_be_decode_encode(v, 2);
    assert(u.bytes().subrange(10, 12) =~= endian::be_bytes(v, 2));
    assert(u.bytes().subrange(12, 512) =~= u.body);
}

/// A device that echoes the body of an attribute write confirms the attribute
/// and the value that were written.
pub proof fn law_attr_write_echo(cmd: UfsAttrCmd, header: UpiuHeader)
    ensures
        (UpiuView { header, body: write_attr_body(cmd) }).attr() == cmd,
{
    let u = UpiuView { header, body: write_attr_body(cmd) };
    endian::lemma_be_bytes_len(cmd.value as nat, 8);
    reveal_with_fuel(endian::byte_range, 9);
    endian::law_be_decode_encode(cmd.value as nat, 8);
    assert(u.body.subrange(4, 12) =~= endian::be_bytes(cmd.value as nat, 8));
    crate::query::law_attr_idn_round_trip(cmd.idn, 0);
}

/// Where a unit holds its fields: the header takes the first 12 bytes, the last
/// two of them are the length of the data segment, and the body follows.
pub proof fn law_unit_layout(u: UpiuView)
    requires
        u.body.len() == UPIU_BODY_SIZE,
    ensures
        ({
            let b = u.bytes();
            &&& b.len() == 512
            &&& b[0] == u.header.transaction_code
            &&& b[1] == u.header.flags
            &&& b[2] == u.header.lun
            &&& b[3] == u.header.task_tag
            &&& b[4] == u.header.cmd_set
            &&& b[5] == u.header.query_func
            &&& b[6] == u.header.response
            &&& b[7] == u.header.status
            &&& b[8] == u.header.ehs_length
            &&& b[9] == u.header.dev_info
            &&& endian::be_value(b.subrange(10, 12)) == u.header.data_seg_len
            &&& forall|i: int| 0 <= i < 500 ==> #[trigger] u.body[i] == b[i + 12]
        }),
{
    let v = u.header.data_seg_len as nat;
    endian::lemma_be_bytes_len(v, 2);
    reveal_with_fuel(endian::byte_range, 3);
    endian::law_be_decode_encode(v, 2);
    assert(u.bytes().subrange(10, 12) =~= endian::be_bytes(v, 2));
}

/// Bytes of a unit that lie in its body, as a part of the body.
proof fn lemma_body_part(u: UpiuView, from: int, to: int)
    requires
        u.body.len() == UPIU_BODY_SIZE,
        0 <= from <= to <= 500,
    ensures
        u.bytes().subrange(from + 12, to + 12) == u.body.subrange(from, to),
{
    endian::lemma_be_bytes_len(u.header.data_seg_len as nat, 2);
    assert(u.bytes().subrange(from + 12, to + 12) =~= u.body.subrange(from, to));
}

/// What a device reads in the unit of a SCSI command: what kind of unit it is,
/// which way the data goes, which logical unit and which tag, how much data, and
/// the command descriptor block. The rest is zero.
pub proof fn law_command_unit_carries_command(cmd: UfsSCSICmd, tag: usize)
    ensures
        ({
            let b = UpiuView::command(cmd, tag).bytes();
            &&& b.len() == 512
            &&& b[0] == 0x01
            &&& cmd.direction is Read ==> b[1] == 0x40
            &&& cmd.direction is Write ==> b[1] == 0x20
            &&& cmd.direction is NoData ==> b[1] == 0
            &&& b[2] == cmd.lun
            &&& b[3] == tag % 256
            &&& endian::be_value(b.subrange(12, 16)) == cmd.data_len
            &&& b.subrange(16, 32) == cmd.cdb@
            &&& forall|i: int| 4 <= i < 12 || 32 <= i < 512 ==> #[trigger] b[i] == 0
        }),
{
    let u = UpiuView::command(cmd, tag);
    let b = u.bytes();
    let v = cmd.data_len as nat;
    endian::lemma_be_bytes_len(v, 4);
    endian::lemma_be_bytes_len(0, 2);
    reveal_with_fuel(endian::byte_range, 5);
    reveal_with_fuel(endian::be_bytes, 3);
    endian::law_be_decode_encode(v, 4);
    law_unit_layout(u);
    assert(b.subrange(12, 16) =~= endian::be_bytes(v, 4));
    assert(b.subrange(16, 32) =~= cmd.cdb@);
    assert forall|i: int| 4 <= i < 12 || 32 <= i < 512 implies #[trigger] b[i] == 0 by {
        if i >= 32 {
            assert(u.body[i - 12] == 0);
        }
    }
}

/// The operation code, the query function and the parameters that a device reads
/// in the unit of a query request: number, index and selector.
pub open spec fn asks_query(b: Seq<u8>, opcode: u8, write: bool, idn: u8, index: u8, selector: u8) -> bool {
    &&& b[0] == 0x16
    &&& b[5] == (if write {
        0x81u8
    } else {
        0x01
    })
    &&& b[12] == opcode
    &&& b[13] == idn
    &&& b[14] == index
    &&& b[15] == selector
}

/// The bytes from `from` on, up to `to`, are zero.
pub open spec fn silent(b: Seq<u8>, from: int, to: int) -> bool {
    forall|i: int| from <= i < to ==> #[trigger] b[i] == 0
}

/// What a device reads in the unit of a query request. Reading a descriptor, an
/// attribute and a flag are operations 1, 3 and 5, writing an attribute is 4, and
/// setting, clearing and toggling a flag are 6, 7 and 8. A descriptor read holds
/// the number of bytes that are wanted, an attribute write the value. A request
/// that is not supported is a NOP OUT.
#[verifier::rlimit(40)]
pub proof fn law_query_unit_carries_request(cmd: UfsQueryCmd, tag: usize)
    ensures
        ({
            let b = UpiuView::query(cmd, tag).bytes();
            &&& b.len() == 512
            &&& b[3] == tag % 256
            &&& silent(b, 1, 3) && b[4] == 0 && silent(b, 6, 12)
            &&& match cmd {
                UfsQueryCmd::Nop | UfsQueryCmd::WriteDesc(_) => {
                    &&& b[0] == 0
                    &&& b[5] == 0
                    &&& silent(b, 12, 512)
                },
                UfsQueryCmd::ReadDesc(c) => {
                    &&& asks_query(b, 1, false, c.idn.number(), c.index, c.selector)
                    &&& silent(b, 16, 18)
                    &&& endian::be_value(b.subrange(18, 20)) == c.length
                    &&& silent(b, 20, 512)
                },
                UfsQueryCmd::ReadAttr(c) => {
                    &&& asks_query(b, 3, false, c.idn.number(), c.index, c.selector)
                    &&& silent(b, 16, 512)
                },
                UfsQueryCmd::WriteAttr(c) => {
                    &&& asks_query(b, 4, true, c.idn.number(), c.index, c.selector)
                    &&& endian::be_value(b.subrange(16, 24)) == c.value
                    &&& silent(b, 24, 512)
                },
                UfsQueryCmd::ReadFlag(c) => {
                    &&& asks_query(b, 5, false, c.idn.number(), c.index, c.selector)
                    &&& silent(b, 16, 512)
                },
                UfsQueryCmd::SetFlag(c) => {
                    &&& asks_query(b, 6, true, c.idn.number(), c.index, c.selector)
                    &&& silent(b, 16, 512)
                },
                UfsQueryCmd::ClearFlag(c) => {
                    &&& asks_query(b, 7, true, c.idn.number(), c.index, c.selector)
                    &&& silent(b, 16, 512)
                },
                UfsQueryCmd::ToggleFlag(c) => {
                    &&& asks_query(b, 8, true, c.idn.number(), c.index, c.selector)
                    &&& silent(b, 16, 512)
                },
            }
        }),
{
    let u = UpiuView::query(cmd, tag);
    let b = u.bytes();
    reveal_with_fuel(endian::byte_range, 9);
    reveal_with_fuel(endian::be_bytes, 3);
    endian::lemma_be_bytes_len(0, 2);
    match cmd {
        UfsQueryCmd::ReadDesc(c) => {
            endian::lemma_be_bytes_len(c.length as nat, 2);
            endian::law_be_decode_encode(c.length as nat, 2);
        },
        UfsQueryCmd::WriteAttr(c) => {
            endian::lemma_be_bytes_len(c.value as nat, 8);
            endian::law_be_decode_encode(c.value as nat, 8);
        },
        _ => {},
    }
    law_unit_layout(u);
    assert forall|i: int| 12 <= i < 512 implies #[trigger] b[i] == u.body[i - 12] by {
        assert(u.body[i - 12] == b[(i - 12) + 12]);
    }
    match cmd {
        UfsQueryCmd::ReadDesc(c) => {
            assert(b.subrange(18, 20) =~= endian::be_bytes(c.length as nat, 2));
        },
        UfsQueryCmd::WriteAttr(c) => {
            assert(b.subrange(16, 24) =~= endian::be_bytes(c.value as nat, 8));
        },
        _ => {},
    }
}

/// What a device reads in the unit of a device management command: a query
/// request, or a NOP OUT, which holds nothing but its tag.
pub proof fn law_device_unit_carries_request(cmd: UfsDevCmd, tag: usize)
    ensures
        match cmd {
            UfsDevCmd::Query(c) => UpiuView::device(cmd, tag).bytes() == UpiuView::query(
                c,
                tag,
            ).bytes(),
            _ => {
                let b = UpiuView::device(cmd, tag).bytes();
                &&& b.len() == 512
                &&& b[3] == tag % 256
                &&& silent(b, 0, 3)
                &&& silent(b, 4, 512)
            },
        },
{
    let u = UpiuView::device(cmd, tag);
    let b = u.bytes();
    reveal_with_fuel(endian::be_bytes, 3);
    endian::lemma_be_bytes_len(0, 2);
    match cmd {
        UfsDevCmd::Query(_) => {},
        _ => {
            law_unit_layout(u);
            assert forall|i: int| 12 <= i < 512 implies #[trigger] b[i] == 0 by {
                assert(u.body[i - 12] == b[(i - 12) + 12]);
            }
        },
    }
}

/// Which units are taken for a response: NOP IN (0x20) to a NOP OUT, a query
/// response (0x36) with response code 0 to a query request, and a response (0x21)
/// to an RPMB request.
pub proof fn law_accepted_responses(u: UpiuView, cmd: UfsDevCmd)
    requires
        u.body.len() == UPIU_BODY_SIZE,
    ensures
        u.accepts(cmd) <==> match cmd {
            UfsDevCmd::Nop => u.bytes()[0] == 0x20,
            UfsDevCmd::Query(_) => u.bytes()[0] == 0x36 && u.bytes()[6] == 0,
            UfsDevCmd::RPMB(_) => u.bytes()[0] == 0x21,
        },
{
    law_unit_layout(u);
}

/// The answer to a query request holds what stands in the response, not what was
/// asked: number, index and selector follow the operation code, an attribute's
/// value takes the eight bytes behind them, a flag's value is the last of those,
/// and a descriptor's bytes start at byte 32 of the unit.
pub proof fn law_answer_is_what_the_device_reports(u: UpiuView, cmd: UfsQueryCmd, r: UfsDevCmd)
    requires
        u.body.len() == UPIU_BODY_SIZE,
        u.answers(UfsDevCmd::Query(cmd), r),
    ensures
        ({
            let b = u.bytes();
            let attr = |a: UfsAttrCmd|
                {
                    &&& a.idn == AttrIdn::decode(b[13])
                    &&& a.index == b[14]
                    &&& a.selector == b[15]
                    &&& a.value == endian::be_value(b.subrange(16, 24))
                };
            let flag = |f: UfsFlagCmd|
                {
                    &&& f.idn == FlagIdn::decode(b[13])
                    &&& f.index == b[14]
                    &&& f.selector == b[15]
                    &&& f.value == b[23]
                };
            match cmd {
                UfsQueryCmd::ReadDesc(_) => r matches UfsDevCmd::Query(UfsQueryCmd::ReadDesc(d)) && {
                    &&& d.idn == DescIdn::decode(b[13])
                    &&& d.index == b[14]
                    &&& d.selector == b[15]
                    &&& d.length == endian::be_value(b.subrange(18, 20))
                    &&& d.desc.describes(b[13], b.subrange(32, 287))
                },
                UfsQueryCmd::ReadAttr(_) => r matches UfsDevCmd::Query(UfsQueryCmd::ReadAttr(a))
                    && attr(a),
                UfsQueryCmd::WriteAttr(_) => r matches UfsDevCmd::Query(UfsQueryCmd::WriteAttr(a))
                    && attr(a),
                UfsQueryCmd::ReadFlag(_) => r matches UfsDevCmd::Query(UfsQueryCmd::ReadFlag(f))
                    && flag(f),
                UfsQueryCmd::SetFlag(_) => r matches UfsDevCmd::Query(UfsQueryCmd::SetFlag(f))
                    && flag(f),
                UfsQueryCmd::ClearFlag(_) => r matches UfsDevCmd::Query(UfsQueryCmd::ClearFlag(f))
                    && flag(f),
                UfsQueryCmd::ToggleFlag(_) => r matches UfsDevCmd::Query(UfsQueryCmd::ToggleFlag(f))
                    && flag(f),
                UfsQueryCmd::Nop | UfsQueryCmd::WriteDesc(_) => r == UfsDevCmd::Query(cmd),
            }
        }),
        cmd is ReadAttr || cmd is WriteAttr ==> (r matches UfsDevCmd::Query(answer)
            && answer.attr_value() matches Ok(value) && value == endian::be_value(
            u.bytes().subrange(16, 24),
        )),
        cmd is ReadFlag || cmd is SetFlag || cmd is ClearFlag || cmd is ToggleFlag ==> (r matches
            UfsDevCmd::Query(answer) && answer.flag_value() == Ok::<u8, crate::error::Error>(
            u.bytes()[23],
        )),
{
    law_unit_layout(u);
    lemma_body_part(u, 4, 12);
    lemma_body_part(u, 6, 8);
    lemma_body_part(u, 20, 275);
    endian::law_be_encode_decode(u.body.subrange(4, 12));
    reveal_with_fuel(endian::byte_range, 9);
    assert(u.body[1] == u.bytes()[13] && u.body[2] == u.bytes()[14] && u.body[3] == u.bytes()[15]
        && u.body[11] == u.bytes()[23]);
}

/// Two responses that report different values of an attribute or a flag give
/// different answers to the same request.
pub proof fn law_answers_tell_values_apart(
    u: UpiuView,
    v: UpiuView,
    cmd: UfsQueryCmd,
    r: UfsQueryCmd,
    s: UfsQueryCmd,
)
    requires
        u.body.len() == UPIU_BODY_SIZE,
        v.body.len() == UPIU_BODY_SIZE,
        u.answers(UfsDevCmd::Query(cmd), UfsDevCmd::Query(r)),
        v.answers(UfsDevCmd::Query(cmd), UfsDevCmd::Query(s)),
    ensures
        (cmd is ReadAttr || cmd is WriteAttr) && endian::be_value(u.bytes().subrange(16, 24))
            != endian::be_value(v.bytes().subrange(16, 24)) ==> r.attr_value() != s.attr_value(),
        (cmd is ReadFlag || cmd is ToggleFlag) && u.bytes()[23] != v.bytes()[23] ==> r.flag_value()
            != s.flag_value(),
{
    law_answer_is_what_the_device_reports(u, cmd, UfsDevCmd::Query(r));
    law_answer_is_what_the_device_reports(v, cmd, UfsDevCmd::Query(s));
}

/// What becomes of a SCSI command is decided by the bytes of its response. Byte 0
/// is 0x21 in a response, byte 7 is the status of the command, bytes 32 and 33 are
/// the length of the sense data, of which no more than 18 bytes are looked at, and
/// the sense data stands from byte 34 on. A busy unit and a full task set have the
/// command issued again, and so does a check condition with a unit attention.
pub proof fn law_response_decides(
    u: UpiuView,
    ocs: u8,
    result: UfsScsiResult,
    verdict: crate::scsi::ScsiVerdict,
)
    requires
        u.body.len() == UPIU_BODY_SIZE,
        u.reports(ocs, result),
        verdict.judges(result),
    ensures
        ({
            let b = u.bytes();
            let n = b[32] * 256 + b[33];
            let format = b[34] % 128;
            let fixed_attention = (format == 0x70 || format == 0x71) && n >= 14 && b[36] % 16 == 6;
            let short_attention = (format == 0x72 || format == 0x73) && n >= 4 && b[35] % 16 == 6;
            let attention = fixed_attention || short_attention;
            let again = verdict.requeue && verdict.status == 9;
            &&& result.ocs == ocs
            &&& result.transaction == b[0]
            &&& result.response == b[6]
            &&& result.status == b[7]
            &&& result.residual_transfer_count == endian::be_value(b.subrange(12, 16))
            &&& result.sense_data_len == (if n < 18 {
                n
            } else {
                18
            })
            &&& forall|i: int| 0 <= i < 18 ==> #[trigger] result.sense_data@[i] == b[i + 34]
            &&& if b[0] != 0x21 {
                !verdict.requeue && verdict.status == 10
            } else if b[7] == 0 {
                !verdict.requeue && verdict.status == 0
            } else if b[7] == 0x02 {
                &&& attention ==> again
                &&& !attention ==> !verdict.requeue && verdict.status == 10
            } else if b[7] == 0x08 || b[7] == 0x28 {
                again
            } else if b[7] == 0x18 {
                !verdict.requeue && verdict.status == 6
            } else if b[7] == 0x40 {
                !verdict.requeue && verdict.status == 5
            } else {
                !verdict.requeue && verdict.status == 10
            }
        }),
{
    law_unit_layout(u);
    lemma_body_part(u, 0, 4);
    let b = u.bytes();
    endian::law_be_value_is_positional(u.body.subrange(20, 22));
    assert(u.body[20] == b[32] && u.body[21] == b[33]);
    assert forall|i: int| 0 <= i < 18 implies #[trigger] result.sense_data@[i] == b[i + 34] by {
        assert(u.body[i + 22] == b[i + 34]);
    }
    assert(result.sense_data@[0] == b[34] && result.sense_data@[1] == b[35]
        && result.sense_data@[2] == b[36]);
    crate::scsi::law_sense_fields(result.sense_data@, result.sense_data_len);
    crate::scsi::law_verdict_on_every_completion(result, verdict);
}

/// The numbers of the kinds of units.
pub proof fn law_transaction_numbers()
    ensures
        UpiuTransaction::NopOut.number() == 0x00,
        UpiuTransaction::Command.number() == 0x01,
        UpiuTransaction::DataOut.number() == 0x02,
        UpiuTransaction::TaskReq.number() == 0x04,
        UpiuTransaction::QueryReq.number() == 0x16,
        UpiuTransaction::NopIn.number() == 0x20,
        UpiuTransaction::Response.number() == 0x21,
        UpiuTransaction::DataIn.number() == 0x22,
        UpiuTransaction::TaskRsp.number() == 0x24,
        UpiuTransaction::ReadyXfer.number() == 0x31,
        UpiuTransaction::QueryRsp.number() == 0x36,
        UpiuTransaction::Reject.number() == 0x3f,
{
}

/// The numbers of the responses to a query request.
pub proof fn law_response_numbers()
    ensures
        UpiuResponse::Success.number() == 0x00,
        UpiuResponse::ParamNotReadable.number() == 0xf6,
        UpiuResponse::ParamNotWritable.number() == 0xf7,
        UpiuResponse::ParamAlreadyWritten.number() == 0xf8,
        UpiuResponse::InvalidLen.number() == 0xf9,
        UpiuResponse::InvalidVal.number() == 0xfa,
        UpiuResponse::InvalidSel.number() == 0xfb,
        UpiuResponse::InvalidIndex.number() == 0xfc,
        UpiuResponse::InvalidIdn.number() == 0xfd,
        UpiuResponse::InvalidOp.number() == 0xfe,
        UpiuResponse::Failure.number() == 0xff,
{
}

/// The flags of a command unit.
pub proof fn law_flag_bits()
    ensures
        UpiuFlag::NoFlag.number() == 0x00,
        UpiuFlag::CP.number() == 0x04,
        UpiuFlag::Write.number() == 0x20,
        UpiuFlag::Read.number() == 0x40,
{
}

/// The numbers of the query functions.
pub proof fn law_query_function_numbers()
    ensures
        UpiuQueryFunction::StandardRead.number() == 0x01,
        UpiuQueryFunction::StandardWrite.number() == 0x81,
{
}

/// The numbers of the query operations.
pub proof fn law_query_opcodes()
    ensures
        QueryOpcode::Nop.number() == 0x00,
        QueryOpcode::ReadDesc.number() == 0x01,
        QueryOpcode::WriteDesc.number() == 0x02,
        QueryOpcode::ReadAttr.number() == 0x03,
        QueryOpcode::WriteAttr.number() == 0x04,
        QueryOpcode::ReadFlag.number() == 0x05,
        QueryOpcode::SetFlag.number() == 0x06,
        QueryOpcode::ClearFlag.number() == 0x07,
        QueryOpcode::ToggleFlag.number() == 0x08,
{
}

/// The sense data that a response carries, from its bytes on: whatever 512 bytes
/// the controller wrote, the decoded result has as many bytes of sense data as
/// bytes 32 and 33 say, but no more than 18, and those stand from byte 34 on.
pub proof fn law_result_is_read_from_bytes(
    b: [u8; ALIGNED_UPIU_SIZE],
    u: Upiu,
    ocs: u8,
    r: UfsScsiResult,
)
    requires
        call_ensures(Upiu::from_bytes, (&b,), u),
        call_ensures(Upiu::scsi_result, (&u, ocs), r),
    ensures
        ({
            let n = b@[32] * 256 + b@[33];
            &&& r.sense_data_len == (if n < 18 {
                n
            } else {
                18
            })
            &&& r.sense_data@ == b@.subrange(34, 52)
            &&& r.residual_transfer_count == endian::be_value(b@.subrange(12, 16))
            &&& r.ocs == ocs
            &&& r.transaction == b@[0]
            &&& r.response == b@[6]
            &&& r.status == b@[7]
            &&& r.completion is Good <==> b@[0] == 0x21 && b@[7] == 0
            &&& r.completion is CheckCondition <==> b@[0] == 0x21 && b@[7] == 0x02
            &&& r.completion is Busy <==> b@[0] == 0x21 && b@[7] == 0x08
            &&& r.completion is ReservationConflict <==> b@[0] == 0x21 && b@[7] == 0x18
            &&& r.completion is TaskSetFull <==> b@[0] == 0x21 && b@[7] == 0x28
            &&& r.completion is TaskAborted <==> b@[0] == 0x21 && b@[7] == 0x40
            &&& !(r.completion is Requeue)
        }),
{
    law_unit_is_read_as_written(b, u);
    lemma_body_part(u@, 0, 4);
    lemma_body_part(u@, 20, 22);
    lemma_body_part(u@, 22, 40);
    law_unit_layout(u@);
    endian::law_be_value_is_positional(u@.body.subrange(20, 22));
    assert(u@.body.subrange(20, 22) == b@.subrange(32, 34));
    assert(b@.subrange(32, 34)[0] == b@[32] && b@.subrange(32, 34)[1] == b@[33]);
}

/// A unit that was decoded has the bytes that it was decoded from.
pub proof fn law_unit_is_read_as_written(b: [u8; ALIGNED_UPIU_SIZE], u: Upiu)
    requires
        call_ensures(Upiu::from_bytes, (&b,), u),
    ensures
        u@.bytes() == b@,
        u@.body.len() == UPIU_BODY_SIZE,
        u@.body == b@.subrange(12, 512),
{
    let h = UpiuHeader::decode(b@);
    let part = b@.subrange(10, 12);
    endian::law_be_encode_decode(part);
    endian::law_be_value_is_positional(part);
    endian::lemma_be_bytes_len(h.data_seg_len as nat, 2);
    assert(endian::be_bytes(h.data_seg_len as nat, 2) == part);
    assert(u@.bytes() =~= b@);
}

/// What becomes of a SCSI command, from the bytes of its response on. A busy unit
/// and a full task set have it issued again, and so does a check condition whose
/// sense data, of either format and as long as that format asks for, reports a
/// unit attention.
pub proof fn law_response_bytes_decide(
    b: [u8; ALIGNED_UPIU_SIZE],
    u: Upiu,
    ocs: u8,
    r: UfsScsiResult,
    verdict: crate::scsi::ScsiVerdict,
)
    requires
        call_ensures(Upiu::from_bytes, (&b,), u),
        call_ensures(Upiu::scsi_result, (&u, ocs), r),
        call_ensures(crate::scsi::judge_scsi, (&r,), verdict),
    ensures
        ({
            let n = b@[32] * 256 + b@[33];
            let format = b@[34] % 128;
            let attention = {
                ||| (format == 0x70 || format == 0x71) && n >= 14 && b@[36] % 16 == 6
                ||| (format == 0x72 || format == 0x73) && n >= 4 && b@[35] % 16 == 6
            };
            let again = b@[7] == 0x08 || b@[7] == 0x28 || (b@[7] == 0x02 && attention);
            &&& verdict.requeue <==> b@[0] == 0x21 && again
            &&& verdict.status == (if b@[0] != 0x21 {
                10int
            } else if again {
                9
            } else if b@[7] == 0 {
                0
            } else if b@[7] == 0x18 {
                6
            } else if b@[7] == 0x40 {
                5
            } else {
                10
            })
        }),
{
    law_unit_is_read_as_written(b, u);
    law_response_decides(u@, ocs, r, verdict);
}

/// The answer to an attribute read or write, from the bytes of the response on:
/// the value is what bytes 16 to 23 hold, whatever was asked.
pub proof fn law_attribute_is_read_from_bytes(
    b: [u8; ALIGNED_UPIU_SIZE],
    u: Upiu,
    cmd: UfsQueryCmd,
    r: UfsDevCmd,
    answer: UfsQueryCmd,
    value: Result<u64, Error>,
)
    requires
        cmd is ReadAttr || cmd is WriteAttr,
        call_ensures(Upiu::from_bytes, (&b,), u),
        call_ensures(Upiu::fetch_query, (&u, cmd), r),
        call_ensures(UfsDevCmd::get_query, (&r,), Ok::<UfsQueryCmd, Error>(answer)),
        call_ensures(UfsQueryCmd::get_attr_value, (&answer,), value),
    ensures
        value matches Ok(v) && v == endian::be_value(b@.subrange(16, 24)),
        cmd is ReadAttr ==> (answer matches UfsQueryCmd::ReadAttr(a) && a.idn == AttrIdn::decode(
            b@[13],
        ) && a.index == b@[14] && a.selector == b@[15]),
        cmd is WriteAttr ==> (answer matches UfsQueryCmd::WriteAttr(a) && a.idn == AttrIdn::decode(
            b@[13],
        ) && a.index == b@[14] && a.selector == b@[15]),
{
    law_unit_is_read_as_written(b, u);
    law_answer_is_what_the_device_reports(u@, cmd, r);
}

/// The answer to a flag read, from the bytes of the response on: the value is
/// what byte 23 holds.
pub proof fn law_flag_is_read_from_bytes(
    b: [u8; ALIGNED_UPIU_SIZE],
    u: Upiu,
    cmd: UfsQueryCmd,
    r: UfsDevCmd,
    answer: UfsQueryCmd,
    value: Result<u8, Error>,
)
    requires
        cmd is ReadFlag || cmd is SetFlag || cmd is ClearFlag || cmd is ToggleFlag,
        call_ensures(Upiu::from_bytes, (&b,), u),
        call_ensures(Upiu::fetch_query, (&u, cmd), r),
        call_ensures(UfsDevCmd::get_query, (&r,), Ok::<UfsQueryCmd, Error>(answer)),
        call_ensures(UfsQueryCmd::get_flag_value, (&answer,), value),
    ensures
        value == Ok::<u8, Error>(b@[23]),
{
    law_unit_is_read_as_written(b, u);
    law_answer_is_what_the_device_reports(u@, cmd, r);
}

/// A response is taken for an answer by its bytes: NOP IN (0x20) answers a NOP
/// OUT, a query response (0x36) whose byte 6 is 0 answers a query request, and a
/// response (0x21) answers an RPMB request.
pub proof fn law_response_bytes_are_accepted(
    b: [u8; ALIGNED_UPIU_SIZE],
    u: Upiu,
    cmd: UfsDevCmd,
    r: Result<UfsDevCmd, Error>,
)
    requires
        call_ensures(Upiu::from_bytes, (&b,), u),
        call_ensures(Upiu::fetch_dev, (&u, cmd), r),
    ensures
        r is Ok <==> match cmd {
            UfsDevCmd::Nop => b@[0] == 0x20,
            UfsDevCmd::Query(_) => b@[0] == 0x36 && b@[6] == 0,
            UfsDevCmd::RPMB(_) => b@[0] == 0x21,
        },
        r is Err ==> r == Err::<UfsDevCmd, Error>(Error::EIO),
        !(cmd is Query) && r is Ok ==> r == Ok::<UfsDevCmd, Error>(cmd),
{
    law_unit_is_read_as_written(b, u);
    law_accepted_responses(u@, cmd);
}

/// The bytes that a device gets for a SCSI command.
pub proof fn law_command_bytes(
    cmd: UfsSCSICmd,
    tag: usize,
    u: Upiu,
    b: [u8; ALIGNED_UPIU_SIZE],
)
    requires
        call_ensures(Upiu::command, (cmd, tag), u),
        call_ensures(Upiu::to_bytes, (&u,), b),
    ensures
        b@[0] == 0x01,
        cmd.direction is Read ==> b@[1] == 0x40,
        cmd.direction is Write ==> b@[1] == 0x20,
        cmd.direction is NoData ==> b@[1] == 0,
        b@[2] == cmd.lun,
        b@[3] == tag % 256,
        endian::be_value(b@.subrange(12, 16)) == cmd.data_len,
        b@.subrange(16, 32) == cmd.cdb@,
        silent(b@, 4, 12),
        silent(b@, 32, 512),
{
    law_command_unit_carries_command(cmd, tag);
}

} // verus!
