//! Query requests and the other device management commands.

use vstd::prelude::*;

use crate::descriptor::{Desc, DescIdn, QUERY_DESC_MAX_SIZE};
use crate::error::Error;
use crate::scsi::UfsSCSICmd;

verus! {

/// Time that a NOP OUT may take, in milliseconds.
pub const NOP_OUT_TIMEOUT_MS: i64 = 50;

/// Time that a query request may take, in milliseconds.
pub const QUERY_DEFAULT_TIMEOUT_MS: i64 = 1500;

/// Time that an RPMB request may take, in milliseconds.
pub const ADVANCED_RPMB_TIMEOUT_MS: i64 = 3000;

/// A request that reads or writes a descriptor.
#[derive(Clone, Copy, Debug)]
pub struct UfsDescCmd {
    pub idn: DescIdn,
    pub index: u8,
    pub selector: u8,
    pub length: u16,
    pub desc: Desc,
}

impl UfsDescCmd {
    /// A request for the longest descriptor that there can be.
    pub fn build(idn: DescIdn, index: u8, selector: u8) -> (r: Self)
        ensures
            r == (UfsDescCmd {
                idn,
                index,
                selector,
                length: QUERY_DESC_MAX_SIZE as u16,
                desc: Desc::Reserved,
            }),
    {
        UfsDescCmd {
            idn,
            index,
            selector,
            length: QUERY_DESC_MAX_SIZE as u16,
            desc: Desc::Reserved,
        }
    }
}

/// Identification number of an attribute.
#[derive(Clone, Copy, Debug, PartialEq, Eq, Structural)]
pub enum AttrIdn {
    BootLuEn,
    MaxHPBSingleCmd,
    PowerMode,
    ActiveICCLevel,
    OOODataEn,
    BkOpsStatus,
    PurgeStatus,
    MaxDataIn,
    MaxDataOut,
    DynCapNeeded,
    RefClkFreq,
    ConfDescLock,
    MaxNumOfRTT,
    EEControl,
    EEStatus,
    SecondsPassed,
    CntxConf,
    CorrPrgBlkNum,
    FFUStatus,
    PSAState,
    PSADataSize,
    RefClkGatingWaitTime,
    CaseRoughTemp,
    HighTempBound,
    LowTempBound,
    WBFlushStatus,
    AvailWBBuffSize,
    WBBuffLifeTimeEst,
    CurrWBBuffSize,
    Timestamp,
    DevLvlExceptionID,
    HIDDefragOperation,
    HIDAvailableSize,
    HIDSize,
    HIDProgressRatio,
    HIDState,
    WBBuffResizeHint,
    WBBuffResizeEn,
    WBBuffResizeStatus,
    /// Any other number.
    Reserved,
}

impl AttrIdn {
    /// The number that stands for the variant on the wire.
    pub open spec fn number(self) -> u8 {
        match self {
            AttrIdn::BootLuEn => 0x00,
            AttrIdn::MaxHPBSingleCmd => 0x01,
            AttrIdn::PowerMode => 0x02,
            AttrIdn::ActiveICCLevel => 0x03,
            AttrIdn::OOODataEn => 0x04,
            AttrIdn::BkOpsStatus => 0x05,
            AttrIdn::PurgeStatus => 0x06,
            AttrIdn::MaxDataIn => 0x07,
            AttrIdn::MaxDataOut => 0x08,
            AttrIdn::DynCapNeeded => 0x09,
            AttrIdn::RefClkFreq => 0x0A,
            AttrIdn::ConfDescLock => 0x0B,
            AttrIdn::MaxNumOfRTT => 0x0C,
            AttrIdn::EEControl => 0x0D,
            AttrIdn::EEStatus => 0x0E,
            AttrIdn::SecondsPassed => 0x0F,
            AttrIdn::CntxConf => 0x10,
            AttrIdn::CorrPrgBlkNum => 0x11,
            AttrIdn::FFUStatus => 0x14,
            AttrIdn::PSAState => 0x15,
            AttrIdn::PSADataSize => 0x16,
            AttrIdn::RefClkGatingWaitTime => 0x17,
            AttrIdn::CaseRoughTemp => 0x18,
            AttrIdn::HighTempBound => 0x19,
            AttrIdn::LowTempBound => 0x1A,
            AttrIdn::WBFlushStatus => 0x1C,
            AttrIdn::AvailWBBuffSize => 0x1D,
            AttrIdn::WBBuffLifeTimeEst => 0x1E,
            AttrIdn::CurrWBBuffSize => 0x1F,
            AttrIdn::Timestamp => 0x30,
            AttrIdn::DevLvlExceptionID => 0x34,
            AttrIdn::HIDDefragOperation => 0x35,
            AttrIdn::HIDAvailableSize => 0x36,
            AttrIdn::HIDSize => 0x37,
            AttrIdn::HIDProgressRatio => 0x38,
            AttrIdn::HIDState => 0x39,
            AttrIdn::WBBuffResizeHint => 0x3C,
            AttrIdn::WBBuffResizeEn => 0x3D,
            AttrIdn::WBBuffResizeStatus => 0x3E,
            AttrIdn::Reserved => 0xFF,
        }
    }

    /// The number that stands for the variant on the wire.
    pub fn code(self) -> (r: u8)
        ensures
            r == self.number(),
    {
        match self {
            AttrIdn::BootLuEn => 0x00,
            AttrIdn::MaxHPBSingleCmd => 0x01,
            AttrIdn::PowerMode => 0x02,
            AttrIdn::ActiveICCLevel => 0x03,
            AttrIdn::OOODataEn => 0x04,
            AttrIdn::BkOpsStatus => 0x05,
            AttrIdn::PurgeStatus => 0x06,
            AttrIdn::MaxDataIn => 0x07,
            AttrIdn::MaxDataOut => 0x08,
            AttrIdn::DynCapNeeded => 0x09,
            AttrIdn::RefClkFreq => 0x0A,
            AttrIdn::ConfDescLock => 0x0B,
            AttrIdn::MaxNumOfRTT => 0x0C,
            AttrIdn::EEControl => 0x0D,
            AttrIdn::EEStatus => 0x0E,
            AttrIdn::SecondsPassed => 0x0F,
            AttrIdn::CntxConf => 0x10,
            AttrIdn::CorrPrgBlkNum => 0x11,
            AttrIdn::FFUStatus => 0x14,
            AttrIdn::PSAState => 0x15,
            AttrIdn::PSADataSize => 0x16,
            AttrIdn::RefClkGatingWaitTime => 0x17,
            AttrIdn::CaseRoughTemp => 0x18,
            AttrIdn::HighTempBound => 0x19,
            AttrIdn::LowTempBound => 0x1A,
            AttrIdn::WBFlushStatus => 0x1C,
            AttrIdn::AvailWBBuffSize => 0x1D,
            AttrIdn::WBBuffLifeTimeEst => 0x1E,
            AttrIdn::CurrWBBuffSize => 0x1F,
            AttrIdn::Timestamp => 0x30,
            AttrIdn::DevLvlExceptionID => 0x34,
            AttrIdn::HIDDefragOperation => 0x35,
            AttrIdn::HIDAvailableSize => 0x36,
            AttrIdn::HIDSize => 0x37,
            AttrIdn::HIDProgressRatio => 0x38,
            AttrIdn::HIDState => 0x39,
            AttrIdn::WBBuffResizeHint => 0x3C,
            AttrIdn::WBBuffResizeEn => 0x3D,
            AttrIdn::WBBuffResizeStatus => 0x3E,
            AttrIdn::Reserved => 0xFF,
        }
    }
}

impl AttrIdn {
    /// The variant that a number on the wire stands for.
    pub open spec fn decode(idn: u8) -> Self {
        if idn == 0x00 {
            AttrIdn::BootLuEn
        } else if idn == 0x01 {
            AttrIdn::MaxHPBSingleCmd
        } else if idn == 0x02 {
            AttrIdn::PowerMode
        } else if idn == 0x03 {
            AttrIdn::ActiveICCLevel
        } else if idn == 0x04 {
            AttrIdn::OOODataEn
        } else if idn == 0x05 {
            AttrIdn::BkOpsStatus
        } else if idn == 0x06 {
            AttrIdn::PurgeStatus
        } else if idn == 0x07 {
            AttrIdn::MaxDataIn
        } else if idn == 0x08 {
            AttrIdn::MaxDataOut
        } else if idn == 0x09 {
            AttrIdn::DynCapNeeded
        } else if idn == 0x0A {
            AttrIdn::RefClkFreq
        } else if idn == 0x0B {
            AttrIdn::ConfDescLock
        } else if idn == 0x0C {
            AttrIdn::MaxNumOfRTT
        } else if idn == 0x0D {
            AttrIdn::EEControl
        } else if idn == 0x0E {
            AttrIdn::EEStatus
        } else if idn == 0x0F {
            AttrIdn::SecondsPassed
        } else if idn == 0x10 {
            AttrIdn::CntxConf
        } else if idn == 0x11 {
            AttrIdn::CorrPrgBlkNum
        } else if idn == 0x14 {
            AttrIdn::FFUStatus
        } else if idn == 0x15 {
            AttrIdn::PSAState
        } else if idn == 0x16 {
            AttrIdn::PSADataSize
        } else if idn == 0x17 {
            AttrIdn::RefClkGatingWaitTime
        } else if idn == 0x18 {
            AttrIdn::CaseRoughTemp
        } else if idn == 0x19 {
            AttrIdn::HighTempBound
        } else if idn == 0x1A {
            AttrIdn::LowTempBound
        } else if idn == 0x1C {
            AttrIdn::WBFlushStatus
        } else if idn == 0x1D {
            AttrIdn::AvailWBBuffSize
        } else if idn == 0x1E {
            AttrIdn::WBBuffLifeTimeEst
        } else if idn == 0x1F {
            AttrIdn::CurrWBBuffSize
        } else if idn == 0x30 {
            AttrIdn::Timestamp
        } else if idn == 0x34 {
            AttrIdn::DevLvlExceptionID
        } else if idn == 0x35 {
            AttrIdn::HIDDefragOperation
        } else if idn == 0x36 {
            AttrIdn::HIDAvailableSize
        } else if idn == 0x37 {
            AttrIdn::HIDSize
        } else if idn == 0x38 {
            AttrIdn::HIDProgressRatio
        } else if idn == 0x39 {
            AttrIdn::HIDState
        } else if idn == 0x3C {
            AttrIdn::WBBuffResizeHint
        } else if idn == 0x3D {
            AttrIdn::WBBuffResizeEn
        } else if idn == 0x3E {
            AttrIdn::WBBuffResizeStatus
        } else {
            AttrIdn::Reserved
        }
    }
}

impl From<u8> for AttrIdn {
    fn from(idn: u8) -> (r: AttrIdn) {
        match idn {
            0x00 => AttrIdn::BootLuEn,
            0x01 => AttrIdn::MaxHPBSingleCmd,
            0x02 => AttrIdn::PowerMode,
            0x03 => AttrIdn::ActiveICCLevel,
            0x04 => AttrIdn::OOODataEn,
            0x05 => AttrIdn::BkOpsStatus,
            0x06 => AttrIdn::PurgeStatus,
            0x07 => AttrIdn::MaxDataIn,
            0x08 => AttrIdn::MaxDataOut,
            0x09 => AttrIdn::DynCapNeeded,
            0x0A => AttrIdn::RefClkFreq,
            0x0B => AttrIdn::ConfDescLock,
            0x0C => AttrIdn::MaxNumOfRTT,
            0x0D => AttrIdn::EEControl,
            0x0E => AttrIdn::EEStatus,
            0x0F => AttrIdn::SecondsPassed,
            0x10 => AttrIdn::CntxConf,
            0x11 => AttrIdn::CorrPrgBlkNum,
            0x14 => AttrIdn::FFUStatus,
            0x15 => AttrIdn::PSAState,
            0x16 => AttrIdn::PSADataSize,
            0x17 => AttrIdn::RefClkGatingWaitTime,
            0x18 => AttrIdn::CaseRoughTemp,
            0x19 => AttrIdn::HighTempBound,
            0x1A => AttrIdn::LowTempBound,
            0x1C => AttrIdn::WBFlushStatus,
            0x1D => AttrIdn::AvailWBBuffSize,
            0x1E => AttrIdn::WBBuffLifeTimeEst,
            0x1F => AttrIdn::CurrWBBuffSize,
            0x30 => AttrIdn::Timestamp,
            0x34 => AttrIdn::DevLvlExceptionID,
            0x35 => AttrIdn::HIDDefragOperation,
            0x36 => AttrIdn::HIDAvailableSize,
            0x37 => AttrIdn::HIDSize,
            0x38 => AttrIdn::HIDProgressRatio,
            0x39 => AttrIdn::HIDState,
            0x3C => AttrIdn::WBBuffResizeHint,
            0x3D => AttrIdn::WBBuffResizeEn,
            0x3E => AttrIdn::WBBuffResizeStatus,
            _ => AttrIdn::Reserved,
        }
    }
}

impl vstd::std_specs::convert::FromSpecImpl<u8> for AttrIdn {
    open spec fn obeys_from_spec() -> bool {
        true
    }

    open spec fn from_spec(idn: u8) -> AttrIdn {
        AttrIdn::decode(idn)
    }
}

/// Decoding the number of a variant gives the variant back, and a number that
/// does not decode to the catch-all variant is the number of what it decodes to.
pub proof fn law_attr_idn_round_trip(v: AttrIdn, n: u8)
    ensures
        AttrIdn::decode(v.number()) == v,
        AttrIdn::decode(n) != AttrIdn::Reserved ==> AttrIdn::decode(n).number() == n,
{
}

/// A request that reads or writes an attribute.
#[derive(Clone, Copy, Debug, PartialEq, Eq, Structural)]
pub struct UfsAttrCmd {
    pub idn: AttrIdn,
    pub index: u8,
    pub selector: u8,
    pub value: u64,
}

impl UfsAttrCmd {
    /// A request on one attribute.
    pub fn build(idn: AttrIdn, index: u8, selector: u8, value: u64) -> (r: Self)
        ensures
            r == (UfsAttrCmd { idn, index, selector, value }),
    {
        UfsAttrCmd { idn, index, selector, value }
    }
}

/// Identification number of a flag.
#[derive(Clone, Copy, Debug, PartialEq, Eq, Structural)]
pub enum FlagIdn {
    /// Any other number.
    Reserved,
    FDeviceInit,
    PermanentWPE,
    PwrOnWPE,
    BkOpsEn,
    LifeSpanModeEnable,
    PurgeEnable,
    FPhyResourceRemoval,
    BusyRTC,
    PermanentlyDisableFWUpdate,
    WBEn,
    WBBuffFlushEn,
    WBBuffFlushDuringHibern8,
    HPBReset,
    HPBEn,
    UnpinEn,
}

impl FlagIdn {
    /// The number that stands for the variant on the wire.
    pub open spec fn number(self) -> u8 {
        match self {
            FlagIdn::Reserved => 0x00,
            FlagIdn::FDeviceInit => 0x01,
            FlagIdn::PermanentWPE => 0x02,
            FlagIdn::PwrOnWPE => 0x03,
            FlagIdn::BkOpsEn => 0x04,
            FlagIdn::LifeSpanModeEnable => 0x05,
            FlagIdn::PurgeEnable => 0x06,
            FlagIdn::FPhyResourceRemoval => 0x08,
            FlagIdn::BusyRTC => 0x09,
            FlagIdn::PermanentlyDisableFWUpdate => 0x0B,
            FlagIdn::WBEn => 0x0E,
            FlagIdn::WBBuffFlushEn => 0x0F,
            FlagIdn::WBBuffFlushDuringHibern8 => 0x10,
            FlagIdn::HPBReset => 0x11,
            FlagIdn::HPBEn => 0x12,
            FlagIdn::UnpinEn => 0x13,
        }
    }

    /// The number that stands for the variant on the wire.
    pub fn code(self) -> (r: u8)
        ensures
            r == self.number(),
    {
        match self {
            FlagIdn::Reserved => 0x00,
            FlagIdn::FDeviceInit => 0x01,
            FlagIdn::PermanentWPE => 0x02,
            FlagIdn::PwrOnWPE => 0x03,
            FlagIdn::BkOpsEn => 0x04,
            FlagIdn::LifeSpanModeEnable => 0x05,
            FlagIdn::PurgeEnable => 0x06,
            FlagIdn::FPhyResourceRemoval => 0x08,
            FlagIdn::BusyRTC => 0x09,
            FlagIdn::PermanentlyDisableFWUpdate => 0x0B,
            FlagIdn::WBEn => 0x0E,
            FlagIdn::WBBuffFlushEn => 0x0F,
            FlagIdn::WBBuffFlushDuringHibern8 => 0x10,
            FlagIdn::HPBReset => 0x11,
            FlagIdn::HPBEn => 0x12,
            FlagIdn::UnpinEn => 0x13,
        }
    }
}

impl FlagIdn {
    /// The variant that a number on the wire stands for.
    pub open spec fn decode(idn: u8) -> Self {
        if idn == 0x01 {
            FlagIdn::FDeviceInit
        } else if idn == 0x02 {
            FlagIdn::PermanentWPE
        } else if idn == 0x03 {
            FlagIdn::PwrOnWPE
        } else if idn == 0x04 {
            FlagIdn::BkOpsEn
        } else if idn == 0x05 {
            FlagIdn::LifeSpanModeEnable
        } else if idn == 0x06 {
            FlagIdn::PurgeEnable
        } else if idn == 0x08 {
            FlagIdn::FPhyResourceRemoval
        } else if idn == 0x09 {
            FlagIdn::BusyRTC
        } else if idn == 0x0B {
            FlagIdn::PermanentlyDisableFWUpdate
        } else if idn == 0x0E {
            FlagIdn::WBEn
        } else if idn == 0x0F {
            FlagIdn::WBBuffFlushEn
        } else if idn == 0x10 {
            FlagIdn::WBBuffFlushDuringHibern8
        } else if idn == 0x11 {
            FlagIdn::HPBReset
        } else if idn == 0x12 {
            FlagIdn::HPBEn
        } else if idn == 0x13 {
            FlagIdn::UnpinEn
        } else {
            FlagIdn::Reserved
        }
    }
}

impl From<u8> for FlagIdn {
    fn from(idn: u8) -> (r: FlagIdn) {
        match idn {
            0x01 => FlagIdn::FDeviceInit,
            0x02 => FlagIdn::PermanentWPE,
            0x03 => FlagIdn::PwrOnWPE,
            0x04 => FlagIdn::BkOpsEn,
            0x05 => FlagIdn::LifeSpanModeEnable,
            0x06 => FlagIdn::PurgeEnable,
            0x08 => FlagIdn::FPhyResourceRemoval,
            0x09 => FlagIdn::BusyRTC,
            0x0B => FlagIdn::PermanentlyDisableFWUpdate,
            0x0E => FlagIdn::WBEn,
            0x0F => FlagIdn::WBBuffFlushEn,
            0x10 => FlagIdn::WBBuffFlushDuringHibern8,
            0x11 => FlagIdn::HPBReset,
            0x12 => FlagIdn::HPBEn,
            0x13 => FlagIdn::UnpinEn,
            _ => FlagIdn::Reserved,
        }
    }
}

impl vstd::std_specs::convert::FromSpecImpl<u8> for FlagIdn {
    open spec fn obeys_from_spec() -> bool {
        true
    }

    open spec fn from_spec(idn: u8) -> FlagIdn {
        FlagIdn::decode(idn)
    }
}

/// Decoding the number of a variant gives the variant back, and a number that
/// does not decode to the catch-all variant is the number of what it decodes to.
pub proof fn law_flag_idn_round_trip(v: FlagIdn, n: u8)
    ensures
        FlagIdn::decode(v.number()) == v,
        FlagIdn::decode(n) != FlagIdn::Reserved ==> FlagIdn::decode(n).number() == n,
{
}

/// A request that reads or changes a flag.
#[derive(Clone, Copy, Debug, PartialEq, Eq, Structural)]
pub struct UfsFlagCmd {
    pub idn: FlagIdn,
    pub index: u8,
    pub selector: u8,
    pub value: u8,
}

impl UfsFlagCmd {
    /// A request on one flag.
    pub fn build(idn: FlagIdn, index: u8, selector: u8) -> (r: Self)
        ensures
            r == (UfsFlagCmd { idn, index, selector, value: 0 }),
    {
        UfsFlagCmd { idn, index, selector, value: 0 }
    }
}

/// A query request.
#[derive(Clone, Copy, Debug)]
pub enum UfsQueryCmd {
    Nop,
    ReadDesc(UfsDescCmd),
    WriteDesc(UfsDescCmd),
    ReadAttr(UfsAttrCmd),
    WriteAttr(UfsAttrCmd),
    ReadFlag(UfsFlagCmd),
    SetFlag(UfsFlagCmd),
    ClearFlag(UfsFlagCmd),
    ToggleFlag(UfsFlagCmd),
}

impl Default for UfsQueryCmd {
    fn default() -> (r: Self)
        ensures
            r == UfsQueryCmd::Nop,
    {
        UfsQueryCmd::Nop
    }
}

impl UfsQueryCmd {
    /// The device command that asks for `ReadDesc`.
    pub fn read_desc(&self, idn: DescIdn, index: u8, selector: u8) -> (r: UfsCmd)
        ensures
            r == UfsCmd::Device(
                UfsDevCmd::Query(
                    UfsQueryCmd::ReadDesc(
                        UfsDescCmd {
                            idn,
                            index,
                            selector,
                            length: QUERY_DESC_MAX_SIZE as u16,
                            desc: Desc::Reserved,
                        },
                    ),
                ),
            ),
    {
        let cmd = UfsDescCmd::build(idn, index, selector);
        UfsCmd::Device(UfsDevCmd::Query(UfsQueryCmd::ReadDesc(cmd)))
    }

    /// The device command that asks for `ReadAttr`.
    pub fn read_attr(&self, idn: AttrIdn, index: u8, selector: u8) -> (r: UfsCmd)
        ensures
            r == UfsCmd::Device(
                UfsDevCmd::Query(
                    UfsQueryCmd::ReadAttr(
                        UfsAttrCmd { idn, index, selector, value: 0 },
                    ),
                ),
            ),
    {
        let cmd = UfsAttrCmd::build(idn, index, selector, 0);
        UfsCmd::Device(UfsDevCmd::Query(UfsQueryCmd::ReadAttr(cmd)))
    }

    /// The device command that asks for `WriteAttr`.
    pub fn write_attr(&self, idn: AttrIdn, index: u8, selector: u8, value: u64) -> (r: UfsCmd)
        ensures
            r == UfsCmd::Device(
                UfsDevCmd::Query(
                    UfsQueryCmd::WriteAttr(
                        UfsAttrCmd { idn, index, selector, value },
                    ),
                ),
            ),
    {
        let cmd = UfsAttrCmd::build(idn, index, selector, value);
        UfsCmd::Device(UfsDevCmd::Query(UfsQueryCmd::WriteAttr(cmd)))
    }

    /// The device command that asks for `ReadFlag`.
    pub fn read_flag(&self, idn: FlagIdn, index: u8, selector: u8) -> (r: UfsCmd)
        ensures
            r == UfsCmd::Device(
                UfsDevCmd::Query(
                    UfsQueryCmd::ReadFlag(
                        UfsFlagCmd { idn, index, selector, value: 0 },
                    ),
                ),
            ),
    {
        let cmd = UfsFlagCmd::build(idn, index, selector);
        UfsCmd::Device(UfsDevCmd::Query(UfsQueryCmd::ReadFlag(cmd)))
    }

    /// The device command that asks for `SetFlag`.
    pub fn set_flag(&self, idn: FlagIdn, index: u8, selector: u8) -> (r: UfsCmd)
        ensures
            r == UfsCmd::Device(
                UfsDevCmd::Query(
                    UfsQueryCmd::SetFlag(
                        UfsFlagCmd { idn, index, selector, value: 0 },
                    ),
                ),
            ),
    {
        let cmd = UfsFlagCmd::build(idn, index, selector);
        UfsCmd::Device(UfsDevCmd::Query(UfsQueryCmd::SetFlag(cmd)))
    }

    /// The device command that asks for `ClearFlag`.
    pub fn clear_flag(&self, idn: FlagIdn, index: u8, selector: u8) -> (r: UfsCmd)
        ensures
            r == UfsCmd::Device(
                UfsDevCmd::Query(
                    UfsQueryCmd::ClearFlag(
                        UfsFlagCmd { idn, index, selector, value: 0 },
                    ),
                ),
            ),
    {
        let cmd = UfsFlagCmd::build(idn, index, selector);
        UfsCmd::Device(UfsDevCmd::Query(UfsQueryCmd::ClearFlag(cmd)))
    }

    /// The device command that asks for `ToggleFlag`.
    pub fn toggle_flag(&self, idn: FlagIdn, index: u8, selector: u8) -> (r: UfsCmd)
        ensures
            r == UfsCmd::Device(
                UfsDevCmd::Query(
                    UfsQueryCmd::ToggleFlag(
                        UfsFlagCmd { idn, index, selector, value: 0 },
                    ),
                ),
            ),
    {
        let cmd = UfsFlagCmd::build(idn, index, selector);
        UfsCmd::Device(UfsDevCmd::Query(UfsQueryCmd::ToggleFlag(cmd)))
    }

    /// The descriptor request, if this is a descriptor read.
    pub open spec fn read_desc_part(self) -> Result<UfsDescCmd, Error> {
        match self {
            UfsQueryCmd::ReadDesc(cmd) => Ok(cmd),
            _ => Err(Error::EINVAL),
        }
    }

    /// The attribute value, if this is an attribute request.
    pub open spec fn attr_value(self) -> Result<u64, Error> {
        match self {
            UfsQueryCmd::ReadAttr(cmd) | UfsQueryCmd::WriteAttr(cmd) => Ok(cmd.value),
            _ => Err(Error::EINVAL),
        }
    }

    /// The flag value, if this is a flag request.
    pub open spec fn flag_value(self) -> Result<u8, Error> {
        match self {
            UfsQueryCmd::ReadFlag(cmd)
            | UfsQueryCmd::SetFlag(cmd)
            | UfsQueryCmd::ClearFlag(cmd)
            | UfsQueryCmd::ToggleFlag(cmd) => Ok(cmd.value),
            _ => Err(Error::EINVAL),
        }
    }

    /// The descriptor request, if this is a descriptor read.
    pub fn get_read_desc(&self) -> (r: Result<UfsDescCmd, Error>)
        ensures
            r == self.read_desc_part(),
    {
        match *self {
            UfsQueryCmd::ReadDesc(cmd) => Ok(cmd),
            _ => Err(Error::EINVAL),
        }
    }

    /// The attribute value, if this is an attribute request.
    pub fn get_attr_value(&self) -> (r: Result<u64, Error>)
        ensures
            r == self.attr_value(),
    {
        match *self {
            UfsQueryCmd::ReadAttr(cmd) => Ok(cmd.value),
            UfsQueryCmd::WriteAttr(cmd) => Ok(cmd.value),
            _ => Err(Error::EINVAL),
        }
    }

    /// The flag value, if this is a flag request.
    pub fn get_flag_value(&self) -> (r: Result<u8, Error>)
        ensures
            r == self.flag_value(),
    {
        match *self {
            UfsQueryCmd::ReadFlag(cmd) => Ok(cmd.value),
            UfsQueryCmd::SetFlag(cmd) => Ok(cmd.value),
            UfsQueryCmd::ClearFlag(cmd) => Ok(cmd.value),
            UfsQueryCmd::ToggleFlag(cmd) => Ok(cmd.value),
            _ => Err(Error::EINVAL),
        }
    }
}

/// A request to the replay-protected memory block.
#[derive(Clone, Copy, Debug, PartialEq, Eq, Structural)]
pub struct UfsRPMBCmd {}

/// A device management command.
#[derive(Clone, Copy, Debug)]
pub enum UfsDevCmd {
    Nop,
    Query(UfsQueryCmd),
    RPMB(UfsRPMBCmd),
}

impl UfsDevCmd {
    /// The command that only asks the device to answer.
    pub fn nop() -> (r: UfsCmd)
        ensures
            r == UfsCmd::Device(UfsDevCmd::Nop),
    {
        UfsCmd::Device(UfsDevCmd::Nop)
    }

    /// A query request to build on.
    pub fn query() -> (r: UfsQueryCmd)
        ensures
            r == UfsQueryCmd::Nop,
    {
        UfsQueryCmd::default()
    }

    /// Time that the command may take, in milliseconds.
    pub fn timeout(&self) -> (r: i64)
        ensures
            r == (match *self {
                UfsDevCmd::Nop => NOP_OUT_TIMEOUT_MS,
                UfsDevCmd::Query(_) => QUERY_DEFAULT_TIMEOUT_MS,
                UfsDevCmd::RPMB(_) => ADVANCED_RPMB_TIMEOUT_MS,
            }),
    {
        match *self {
            UfsDevCmd::Nop => NOP_OUT_TIMEOUT_MS,
            UfsDevCmd::Query(_) => QUERY_DEFAULT_TIMEOUT_MS,
            UfsDevCmd::RPMB(_) => ADVANCED_RPMB_TIMEOUT_MS,
        }
    }

    /// The query request, if this is one.
    pub open spec fn query_part(self) -> Result<UfsQueryCmd, Error> {
        match self {
            UfsDevCmd::Query(cmd) => Ok(cmd),
            _ => Err(Error::EINVAL),
        }
    }

    /// The query request, if this is one.
    pub fn get_query(&self) -> (r: Result<UfsQueryCmd, Error>)
        ensures
            r == self.query_part(),
    {
        match *self {
            UfsDevCmd::Query(cmd) => Ok(cmd),
            _ => Err(Error::EINVAL),
        }
    }
}

/// A command of any kind.
#[derive(Clone, Copy, Debug)]
pub enum UfsCmd {
    Device(UfsDevCmd),
    SCSI(UfsSCSICmd),
}

impl UfsCmd {
    /// The device management command, if this is one.
    pub open spec fn device_part(self) -> Result<UfsDevCmd, Error> {
        match self {
            UfsCmd::Device(cmd) => Ok(cmd),
            _ => Err(Error::EINVAL),
        }
    }

    /// The query request, if this is one.
    pub open spec fn query_part(self) -> Result<UfsQueryCmd, Error> {
        match self {
            UfsCmd::Device(UfsDevCmd::Query(cmd)) => Ok(cmd),
            _ => Err(Error::EINVAL),
        }
    }

    /// The device management command, if this is one.
    pub fn get_device(&self) -> (r: Result<UfsDevCmd, Error>)
        ensures
            r == self.device_part(),
    {
        match *self {
            UfsCmd::Device(cmd) => Ok(cmd),
            _ => Err(Error::EINVAL),
        }
    }
}

/// The numbers of the attributes.
pub proof fn law_attribute_numbers()
    ensures
        AttrIdn::BootLuEn.number() == 0x00,
        AttrIdn::MaxHPBSingleCmd.number() == 0x01,
        AttrIdn::PowerMode.number() == 0x02,
        AttrIdn::ActiveICCLevel.number() == 0x03,
        AttrIdn::OOODataEn.number() == 0x04,
        AttrIdn::BkOpsStatus.number() == 0x05,
        AttrIdn::PurgeStatus.number() == 0x06,
        AttrIdn::MaxDataIn.number() == 0x07,
        AttrIdn::MaxDataOut.number() == 0x08,
        AttrIdn::DynCapNeeded.number() == 0x09,
        AttrIdn::RefClkFreq.number() == 0x0a,
        AttrIdn::ConfDescLock.number() == 0x0b,
        AttrIdn::MaxNumOfRTT.number() == 0x0c,
        AttrIdn::EEControl.number() == 0x0d,
        AttrIdn::EEStatus.number() == 0x0e,
        AttrIdn::SecondsPassed.number() == 0x0f,
        AttrIdn::CntxConf.number() == 0x10,
        AttrIdn::CorrPrgBlkNum.number() == 0x11,
        AttrIdn::FFUStatus.number() == 0x14,
        AttrIdn::PSAState.number() == 0x15,
        AttrIdn::PSADataSize.number() == 0x16,
        AttrIdn::RefClkGatingWaitTime.number() == 0x17,
        AttrIdn::CaseRoughTemp.number() == 0x18,
        AttrIdn::HighTempBound.number() == 0x19,
        AttrIdn::LowTempBound.number() == 0x1a,
        AttrIdn::WBFlushStatus.number() == 0x1c,
        AttrIdn::AvailWBBuffSize.number() == 0x1d,
        AttrIdn::WBBuffLifeTimeEst.number() == 0x1e,
        AttrIdn::CurrWBBuffSize.number() == 0x1f,
        AttrIdn::Timestamp.number() == 0x30,
        AttrIdn::DevLvlExceptionID.number() == 0x34,
        AttrIdn::HIDDefragOperation.number() == 0x35,
        AttrIdn::HIDAvailableSize.number() == 0x36,
        AttrIdn::HIDSize.number() == 0x37,
        AttrIdn::HIDProgressRatio.number() == 0x38,
        AttrIdn::HIDState.number() == 0x39,
        AttrIdn::WBBuffResizeHint.number() == 0x3c,
        AttrIdn::WBBuffResizeEn.number() == 0x3d,
        AttrIdn::WBBuffResizeStatus.number() == 0x3e,
        AttrIdn::Reserved.number() == 0xff,
{
}

/// The numbers of the flags.
pub proof fn law_flag_numbers()
    ensures
        FlagIdn::Reserved.number() == 0x00,
        FlagIdn::FDeviceInit.number() == 0x01,
        FlagIdn::PermanentWPE.number() == 0x02,
        FlagIdn::PwrOnWPE.number() == 0x03,
        FlagIdn::BkOpsEn.number() == 0x04,
        FlagIdn::LifeSpanModeEnable.number() == 0x05,
        FlagIdn::PurgeEnable.number() == 0x06,
        FlagIdn::FPhyResourceRemoval.number() == 0x08,
        FlagIdn::BusyRTC.number() == 0x09,
        FlagIdn::PermanentlyDisableFWUpdate.number() == 0x0b,
        FlagIdn::WBEn.number() == 0x0e,
        FlagIdn::WBBuffFlushEn.number() == 0x0f,
        FlagIdn::WBBuffFlushDuringHibern8.number() == 0x10,
        FlagIdn::HPBReset.number() == 0x11,
        FlagIdn::HPBEn.number() == 0x12,
        FlagIdn::UnpinEn.number() == 0x13,
{
}

/// What a command has in it: a query request is a device management command, a
/// SCSI command is none.
pub proof fn law_command_parts(cmd: UfsCmd)
    ensures
        cmd matches UfsCmd::Device(dev) ==> cmd.device_part() == Ok::<UfsDevCmd, Error>(dev),
        cmd matches UfsCmd::Device(UfsDevCmd::Query(query)) ==> {
            &&& cmd.query_part() == Ok::<UfsQueryCmd, Error>(query)
            &&& UfsDevCmd::Query(query).query_part() == Ok::<UfsQueryCmd, Error>(query)
        },
        cmd is SCSI ==> cmd.device_part() == Err::<UfsDevCmd, Error>(Error::EINVAL)
            && cmd.query_part() == Err::<UfsQueryCmd, Error>(Error::EINVAL),
        cmd.query_part() is Ok ==> cmd.device_part() is Ok,
{
}

/// What a query request has in it: an attribute's value in a read or write of one,
/// a flag's value in a request on one, a descriptor in a read of one, and nothing
/// of the kind in any other.
pub proof fn law_query_parts(cmd: UfsQueryCmd)
    ensures
        cmd matches UfsQueryCmd::ReadAttr(a) ==> cmd.attr_value() == Ok::<u64, Error>(a.value),
        cmd matches UfsQueryCmd::WriteAttr(a) ==> cmd.attr_value() == Ok::<u64, Error>(a.value),
        !(cmd is ReadAttr || cmd is WriteAttr) ==> cmd.attr_value() == Err::<u64, Error>(
            Error::EINVAL,
        ),
        cmd matches UfsQueryCmd::ReadFlag(f) ==> cmd.flag_value() == Ok::<u8, Error>(f.value),
        cmd matches UfsQueryCmd::SetFlag(f) ==> cmd.flag_value() == Ok::<u8, Error>(f.value),
        cmd matches UfsQueryCmd::ClearFlag(f) ==> cmd.flag_value() == Ok::<u8, Error>(f.value),
        cmd matches UfsQueryCmd::ToggleFlag(f) ==> cmd.flag_value() == Ok::<u8, Error>(f.value),
        !(cmd is ReadFlag || cmd is SetFlag || cmd is ClearFlag || cmd is ToggleFlag)
            ==> cmd.flag_value() == Err::<u8, Error>(Error::EINVAL),
        cmd matches UfsQueryCmd::ReadDesc(d) ==> cmd.read_desc_part() == Ok::<UfsDescCmd, Error>(d),
        !(cmd is ReadDesc) ==> cmd.read_desc_part() == Err::<UfsDescCmd, Error>(Error::EINVAL),
{
}

/// A request names what it was asked for: the kind of object, its number, its index
/// and its selector, and for a write the value.
pub proof fn law_requests_name_what_they_ask_for(
    q: UfsQueryCmd,
    desc: DescIdn,
    attr: AttrIdn,
    flag: FlagIdn,
    index: u8,
    selector: u8,
    value: u64,
    r: [UfsCmd; 7],
)
    requires
        call_ensures(UfsQueryCmd::read_desc, (&q, desc, index, selector), r@[0]),
        call_ensures(UfsQueryCmd::read_attr, (&q, attr, index, selector), r@[1]),
        call_ensures(UfsQueryCmd::write_attr, (&q, attr, index, selector, value), r@[2]),
        call_ensures(UfsQueryCmd::read_flag, (&q, flag, index, selector), r@[3]),
        call_ensures(UfsQueryCmd::set_flag, (&q, flag, index, selector), r@[4]),
        call_ensures(UfsQueryCmd::clear_flag, (&q, flag, index, selector), r@[5]),
        call_ensures(UfsQueryCmd::toggle_flag, (&q, flag, index, selector), r@[6]),
    ensures
        r@[0] matches UfsCmd::Device(UfsDevCmd::Query(UfsQueryCmd::ReadDesc(c))) && c.idn == desc
            && c.index == index && c.selector == selector && c.length == 255,
        r@[1] matches UfsCmd::Device(UfsDevCmd::Query(UfsQueryCmd::ReadAttr(c))) && c.idn == attr
            && c.index == index && c.selector == selector,
        r@[2] matches UfsCmd::Device(UfsDevCmd::Query(UfsQueryCmd::WriteAttr(c))) && c.idn == attr
            && c.index == index && c.selector == selector && c.value == value,
        r@[3] matches UfsCmd::Device(UfsDevCmd::Query(UfsQueryCmd::ReadFlag(c))) && c.idn == flag
            && c.index == index && c.selector == selector,
        r@[4] matches UfsCmd::Device(UfsDevCmd::Query(UfsQueryCmd::SetFlag(c))) && c.idn == flag
            && c.index == index && c.selector == selector,
        r@[5] matches UfsCmd::Device(UfsDevCmd::Query(UfsQueryCmd::ClearFlag(c))) && c.idn == flag
            && c.index == index && c.selector == selector,
        r@[6] matches UfsCmd::Device(UfsDevCmd::Query(UfsQueryCmd::ToggleFlag(c))) && c.idn == flag
            && c.index == index && c.selector == selector,
{
}

/// A query is found in a device management command that is one, as it is there.
/// Anything else is refused.
pub proof fn law_query_is_found(
    cmd: UfsCmd,
    dev: Result<UfsDevCmd, Error>,
    query: Result<UfsQueryCmd, Error>,
)
    requires
        call_ensures(UfsCmd::get_device, (&cmd,), dev),
        dev is Ok ==> call_ensures(UfsDevCmd::get_query, (&dev->Ok_0,), query),
    ensures
        dev is Err ==> cmd is SCSI && dev == Err::<UfsDevCmd, Error>(Error::EINVAL),
        dev matches Ok(d) ==> cmd == UfsCmd::Device(d) && match d {
            UfsDevCmd::Query(q) => query == Ok::<UfsQueryCmd, Error>(q),
            _ => query == Err::<UfsQueryCmd, Error>(Error::EINVAL),
        },
{
}

} // verus!
