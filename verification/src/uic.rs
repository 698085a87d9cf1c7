//! Commands of the interconnect layer.

use vstd::prelude::*;

use crate::error::Error;
use crate::reg::{
    self, get_uic_cmd_result, is_uic_command_completion, is_uic_power_mode, RegOp,
};

verus! {

/// Time that a command may take, in milliseconds.
pub const UIC_CMD_TIMEOUT_MS: i64 = 500;

/// Interval at which the controller is polled for readiness, in microseconds.
pub const UIC_READY_INTERVAL_US: i64 = 500;

/// A command of the device management entity.
#[derive(Clone, Copy, Debug, PartialEq, Eq, Structural)]
pub enum UicCmdDme {
    /// Reads an attribute.
    AttrGet,
    /// Writes an attribute.
    AttrSet,
    PeerGet,
    PeerSet,
    PowerOn,
    PowerOff,
    Enable,
    Reset,
    EndPtRst,
    LinkStartup,
    HibernEnter,
    HibernExit,
    TestMode,
}

impl UicCmdDme {
    /// The number that stands for the variant on the wire.
    pub open spec fn number(self) -> u32 {
        match self {
            UicCmdDme::AttrGet => 0x01,
            UicCmdDme::AttrSet => 0x02,
            UicCmdDme::PeerGet => 0x03,
            UicCmdDme::PeerSet => 0x04,
            UicCmdDme::PowerOn => 0x10,
            UicCmdDme::PowerOff => 0x11,
            UicCmdDme::Enable => 0x12,
            UicCmdDme::Reset => 0x14,
            UicCmdDme::EndPtRst => 0x15,
            UicCmdDme::LinkStartup => 0x16,
            UicCmdDme::HibernEnter => 0x17,
            UicCmdDme::HibernExit => 0x18,
            UicCmdDme::TestMode => 0x1A,
        }
    }

    /// The number that stands for the variant on the wire.
    pub fn code(self) -> (r: u32)
        ensures
            r == self.number(),
    {
        match self {
            UicCmdDme::AttrGet => 0x01,
            UicCmdDme::AttrSet => 0x02,
            UicCmdDme::PeerGet => 0x03,
            UicCmdDme::PeerSet => 0x04,
            UicCmdDme::PowerOn => 0x10,
            UicCmdDme::PowerOff => 0x11,
            UicCmdDme::Enable => 0x12,
            UicCmdDme::Reset => 0x14,
            UicCmdDme::EndPtRst => 0x15,
            UicCmdDme::LinkStartup => 0x16,
            UicCmdDme::HibernEnter => 0x17,
            UicCmdDme::HibernExit => 0x18,
            UicCmdDme::TestMode => 0x1A,
        }
    }
}

/// Result of a command.
#[derive(Clone, Copy, Debug, PartialEq, Eq, Structural)]
pub enum UicCmdResult {
    Success,
    InvalidAttr,
    InvalidAttrValue,
    ReadOnlyAttr,
    WriteOnlyAttr,
    BadIndex,
    LockedAttr,
    BadTestFeatureIndex,
    PeerCommFailure,
    Busy,
    /// Any other failure.
    DmeFailure,
}

impl UicCmdResult {
    /// The number that stands for the variant on the wire.
    pub open spec fn number(self) -> u32 {
        match self {
            UicCmdResult::Success => 0x00,
            UicCmdResult::InvalidAttr => 0x01,
            UicCmdResult::InvalidAttrValue => 0x02,
            UicCmdResult::ReadOnlyAttr => 0x03,
            UicCmdResult::WriteOnlyAttr => 0x04,
            UicCmdResult::BadIndex => 0x05,
            UicCmdResult::LockedAttr => 0x06,
            UicCmdResult::BadTestFeatureIndex => 0x07,
            UicCmdResult::PeerCommFailure => 0x08,
            UicCmdResult::Busy => 0x09,
            UicCmdResult::DmeFailure => 0x0A,
        }
    }

    /// The number that stands for the variant on the wire.
    pub fn code(self) -> (r: u32)
        ensures
            r == self.number(),
    {
        match self {
            UicCmdResult::Success => 0x00,
            UicCmdResult::InvalidAttr => 0x01,
            UicCmdResult::InvalidAttrValue => 0x02,
            UicCmdResult::ReadOnlyAttr => 0x03,
            UicCmdResult::WriteOnlyAttr => 0x04,
            UicCmdResult::BadIndex => 0x05,
            UicCmdResult::LockedAttr => 0x06,
            UicCmdResult::BadTestFeatureIndex => 0x07,
            UicCmdResult::PeerCommFailure => 0x08,
            UicCmdResult::Busy => 0x09,
            UicCmdResult::DmeFailure => 0x0A,
        }
    }
}

impl UicCmdResult {
    /// The variant that a number on the wire stands for.
    pub open spec fn decode(result: u32) -> Self {
        if result == 0x00 {
            UicCmdResult::Success
        } else if result == 0x01 {
            UicCmdResult::InvalidAttr
        } else if result == 0x02 {
            UicCmdResult::InvalidAttrValue
        } else if result == 0x03 {
            UicCmdResult::ReadOnlyAttr
        } else if result == 0x04 {
            UicCmdResult::WriteOnlyAttr
        } else if result == 0x05 {
            UicCmdResult::BadIndex
        } else if result == 0x06 {
            UicCmdResult::LockedAttr
        } else if result == 0x07 {
            UicCmdResult::BadTestFeatureIndex
        } else if result == 0x08 {
            UicCmdResult::PeerCommFailure
        } else if result == 0x09 {
            UicCmdResult::Busy
        } else {
            UicCmdResult::DmeFailure
        }
    }
}

impl From<u32> for UicCmdResult {
    fn from(result: u32) -> (r: UicCmdResult) {
        match result {
            0x00 => UicCmdResult::Success,
            0x01 => UicCmdResult::InvalidAttr,
            0x02 => UicCmdResult::InvalidAttrValue,
            0x03 => UicCmdResult::ReadOnlyAttr,
            0x04 => UicCmdResult::WriteOnlyAttr,
            0x05 => UicCmdResult::BadIndex,
            0x06 => UicCmdResult::LockedAttr,
            0x07 => UicCmdResult::BadTestFeatureIndex,
            0x08 => UicCmdResult::PeerCommFailure,
            0x09 => UicCmdResult::Busy,
            _ => UicCmdResult::DmeFailure,
        }
    }
}

impl vstd::std_specs::convert::FromSpecImpl<u32> for UicCmdResult {
    open spec fn obeys_from_spec() -> bool {
        true
    }

    open spec fn from_spec(result: u32) -> UicCmdResult {
        UicCmdResult::decode(result)
    }
}

/// Decoding the number of a variant gives the variant back, and a number that
/// does not decode to the catch-all variant is the number of what it decodes to.
pub proof fn law_uic_cmd_result_round_trip(v: UicCmdResult, n: u32)
    ensures
        UicCmdResult::decode(v.number()) == v,
        UicCmdResult::decode(n) != UicCmdResult::DmeFailure ==> UicCmdResult::decode(n).number() == n,
{
}

/// A command with its arguments.
#[derive(Clone, Copy, Debug, PartialEq, Eq, Structural)]
pub struct UfsUicCmd {
    pub command: UicCmdDme,
    pub argument1: u32,
    pub argument2: u32,
    pub argument3: u32,
}

/// Response to a command.
#[derive(Clone, Copy, Debug, PartialEq, Eq, Structural)]
pub struct UfsUicRsp {
    pub result: UicCmdResult,
    pub value: u32,
}

/// The command that was issued last, and the response that came last.
#[derive(Clone, Copy, Debug, PartialEq, Eq, Structural)]
pub struct UfsUic {
    pub cmd: Option<UfsUicCmd>,
    pub rsp: Option<UfsUicRsp>,
}

/// The writes that issue a command: its arguments, then the command itself.
pub open spec fn dispatch_ops(cmd: UfsUicCmd) -> Seq<RegOp> {
    seq![
        RegOp::Write { offset: reg::UIC_ARG1, value: cmd.argument1 },
        RegOp::Write { offset: reg::UIC_ARG2, value: cmd.argument2 },
        RegOp::Write { offset: reg::UIC_ARG3, value: cmd.argument3 },
        RegOp::Write { offset: reg::UIC_COMMAND, value: cmd.command.number() },
    ]
}

/// The response that an interrupt brings, if it brings one.
pub open spec fn response_of(interrupt_status: u32, arg2: u32, arg3: u32) -> Option<UfsUicRsp> {
    if interrupt_status & reg::UIC_COMMAND_COMPL != 0 {
        Some(UfsUicRsp { result: UicCmdResult::decode(arg2 % 256), value: arg3 })
    } else if interrupt_status & reg::UIC_POWER_MODE != 0 {
        Some(UfsUicRsp { result: UicCmdResult::Success, value: 0 })
    } else {
        None
    }
}

impl UfsUic {
    /// No command was issued yet.
    pub fn new() -> (r: Self)
        ensures
            r == (UfsUic { cmd: None, rsp: None }),
    {
        UfsUic { cmd: None, rsp: None }
    }

    /// The command that starts the link.
    pub open spec fn startup_cmd() -> UfsUicCmd {
        UfsUicCmd {
            command: UicCmdDme::LinkStartup,
            argument1: 0,
            argument2: 0,
            argument3: 0,
        }
    }

    /// Starts the link: the command's interrupts are enabled, and when the
    /// controller is ready the command is issued.
    pub fn link_startup(&mut self) -> (r: Vec<RegOp>)
        ensures
            *final(self) == (UfsUic { cmd: Some(Self::startup_cmd()), ..*old(self) }),
            r@ == seq![
                RegOp::SetBits { offset: reg::INTERRUPT_ENABLE, bits: reg::UIC_INTR_MASK },
                RegOp::Poll {
                    offset: reg::CONTROLLER_STATUS,
                    mask: reg::HCS_UIC_COMMAND_READY,
                    value: reg::HCS_UIC_COMMAND_READY,
                    interval_us: UIC_READY_INTERVAL_US,
                    timeout_us: 500_000,
                },
            ] + dispatch_ops(Self::startup_cmd()),
    {
        let cmd = UfsUicCmd {
            command: UicCmdDme::LinkStartup,
            argument1: 0,
            argument2: 0,
            argument3: 0,
        };
        self.cmd = Some(cmd);
        let mut ops: Vec<RegOp> = Vec::new();
        ops.push(reg::enable_uic_interrupts());
        ops.push(reg::wait_for_uic_cmd_ready(UIC_READY_INTERVAL_US, UIC_CMD_TIMEOUT_MS));
        let mut dispatch = Self::dispatch_uic_cmd(cmd);
        ops.append(&mut dispatch);
        assert(ops@ =~= seq![
            RegOp::SetBits { offset: reg::INTERRUPT_ENABLE, bits: reg::UIC_INTR_MASK },
            RegOp::Poll {
                offset: reg::CONTROLLER_STATUS,
                mask: reg::HCS_UIC_COMMAND_READY,
                value: reg::HCS_UIC_COMMAND_READY,
                interval_us: UIC_READY_INTERVAL_US,
                timeout_us: 500_000,
            },
        ] + dispatch_ops(cmd));
        ops
    }

    /// Issues a command.
    pub fn dispatch_uic_cmd(cmd: UfsUicCmd) -> (r: Vec<RegOp>)
        ensures
            r@ == dispatch_ops(cmd),
    {
        let mut ops: Vec<RegOp> = Vec::new();
        ops.push(RegOp::Write { offset: reg::UIC_ARG1, value: cmd.argument1 });
        ops.push(RegOp::Write { offset: reg::UIC_ARG2, value: cmd.argument2 });
        ops.push(RegOp::Write { offset: reg::UIC_ARG3, value: cmd.argument3 });
        ops.push(RegOp::Write { offset: reg::UIC_COMMAND, value: cmd.command.code() });
        assert(ops@ =~= dispatch_ops(cmd));
        ops
    }

    /// What a command came to, given the time that was left when the wait for
    /// its completion ended.
    pub fn wait_for_uic_cmd(&self, time_left: u64) -> (r: Result<(), Error>)
        ensures
            r == (if time_left == 0 {
                Err::<(), Error>(Error::ETIMEDOUT)
            } else {
                match self.rsp {
                    None => Err(Error::ENOMEM),
                    Some(rsp) => if rsp.result == UicCmdResult::Success {
                        Ok(())
                    } else {
                        Err(Error::EIO)
                    },
                }
            }),
    {
        if time_left == 0 {
            return Err(Error::ETIMEDOUT);
        }
        match self.rsp {
            None => Err(Error::ENOMEM),
            Some(rsp) => {
                match rsp.result {
                    UicCmdResult::Success => Ok(()),
                    _ => Err(Error::EIO),
                }
            },
        }
    }

    /// Takes over the response that an interrupt brings, given the second and
    /// third argument registers. The result says whether it brings one.
    pub fn get_uic_cmd_response(&mut self, interrupt_status: u32, arg2: u32, arg3: u32) -> (r: bool)
        ensures
            match response_of(interrupt_status, arg2, arg3) {
                Some(rsp) => r && *final(self) == (UfsUic { rsp: Some(rsp), ..*old(self) }),
                None => !r && *final(self) == *old(self),
            },
    {
        if is_uic_command_completion(interrupt_status) {
            self.rsp = Some(
                UfsUicRsp {
                    result: UicCmdResult::from(get_uic_cmd_result(arg2)),
                    value: arg3,
                },
            );
            true
        } else if is_uic_power_mode(interrupt_status) {
            self.rsp = Some(UfsUicRsp { result: UicCmdResult::Success, value: 0 });
            true
        } else {
            false
        }
    }
}

/// How a command reaches the controller: its three arguments are written before
/// the command itself, whose write has it carried out.
pub proof fn law_arguments_come_before_command(cmd: UfsUicCmd)
    ensures
        dispatch_ops(cmd).len() == 4,
        dispatch_ops(cmd)[0] == (RegOp::Write { offset: 0x94, value: cmd.argument1 }),
        dispatch_ops(cmd)[1] == (RegOp::Write { offset: 0x98, value: cmd.argument2 }),
        dispatch_ops(cmd)[2] == (RegOp::Write { offset: 0x9c, value: cmd.argument3 }),
        dispatch_ops(cmd)[3] matches RegOp::Write { offset, value } && offset == 0x90 && value
            == cmd.command.number(),
        UfsUic::startup_cmd().command.number() == 0x16,
        UfsUic::startup_cmd().argument1 == 0,
        UfsUic::startup_cmd().argument2 == 0,
        UfsUic::startup_cmd().argument3 == 0,
{
}

/// What an interrupt says of a command. Bit 10 of the interrupt status tells that
/// a command has completed: it has succeeded if and only if the low byte of the
/// second argument is 0, and its value is the third argument. Bit 4 tells that the
/// power mode has changed, which is a success. Nothing else is a response.
pub proof fn law_response_follows_interrupt(interrupt_status: u32, arg2: u32, arg3: u32)
    ensures
        ({
            let completed = interrupt_status as int / 0x400 % 2 == 1;
            let changed = interrupt_status as int / 0x10 % 2 == 1;
            let r = response_of(interrupt_status, arg2, arg3);
            &&& r is Some <==> completed || changed
            &&& completed ==> r->0.value == arg3 && (r->0.result == UicCmdResult::Success <==> arg2
                % 256 == 0)
            &&& completed && 0 < arg2 % 256 < 10 ==> r->0.result.number() == arg2 % 256
            &&& completed && arg2 % 256 >= 10 ==> r->0.result == UicCmdResult::DmeFailure
            &&& !completed && changed ==> r->0.value == 0 && r->0.result == UicCmdResult::Success
        }),
{
    assert(((interrupt_status & 0x400u32 != 0) <==> (interrupt_status / 0x400) % 2 == 1) && ((
    interrupt_status & 0x10u32 != 0) <==> (interrupt_status / 0x10) % 2 == 1)) by (bit_vector);
}

/// The numbers of the commands of the device management entity.
pub proof fn law_command_numbers()
    ensures
        UicCmdDme::AttrGet.number() == 1,
        UicCmdDme::AttrSet.number() == 2,
        UicCmdDme::PeerGet.number() == 3,
        UicCmdDme::PeerSet.number() == 4,
        UicCmdDme::PowerOn.number() == 0x10,
        UicCmdDme::PowerOff.number() == 0x11,
        UicCmdDme::Enable.number() == 0x12,
        UicCmdDme::Reset.number() == 0x14,
        UicCmdDme::EndPtRst.number() == 0x15,
        UicCmdDme::LinkStartup.number() == 0x16,
        UicCmdDme::HibernEnter.number() == 0x17,
        UicCmdDme::HibernExit.number() == 0x18,
        UicCmdDme::TestMode.number() == 0x1a,
{
}

/// How the link is started: the command's interrupts are enabled, the controller
/// is waited for, and then the command is issued with no arguments.
pub proof fn law_link_startup_operations(uic: &mut UfsUic, ops: Vec<RegOp>)
    requires
        call_ensures(UfsUic::link_startup, (uic,), ops),
    ensures
        ops@ == seq![
            RegOp::SetBits { offset: 0x24, bits: 0x470 },
            RegOp::Poll {
                offset: 0x30,
                mask: 8,
                value: 8,
                interval_us: 500,
                timeout_us: 500_000,
            },
            RegOp::Write { offset: 0x94, value: 0 },
            RegOp::Write { offset: 0x98, value: 0 },
            RegOp::Write { offset: 0x9c, value: 0 },
            RegOp::Write { offset: 0x90, value: 0x16 },
        ],
        final(uic).rsp == old(uic).rsp,
{
    law_arguments_come_before_command(UfsUic::startup_cmd());
    let d = dispatch_ops(UfsUic::startup_cmd());
    assert(d[0] == ops@[2] && d[1] == ops@[3] && d[2] == ops@[4] && d[3] == ops@[5]);
}

/// What a command came to, from the interrupt that brought its response on: it has
/// succeeded exactly when it was on time and its result code is 0.
pub proof fn law_command_succeeds(
    uic: &mut UfsUic,
    interrupt_status: u32,
    arg2: u32,
    arg3: u32,
    brought: bool,
    time_left: u64,
    r: Result<(), Error>,
)
    requires
        interrupt_status as int / 0x400 % 2 == 1,
        call_ensures(UfsUic::get_uic_cmd_response, (uic, interrupt_status, arg2, arg3), brought),
        call_ensures(UfsUic::wait_for_uic_cmd, (final(uic), time_left), r),
    ensures
        brought,
        r is Ok <==> time_left > 0 && arg2 % 256 == 0,
        time_left == 0 ==> r == Err::<(), Error>(Error::ETIMEDOUT),
        time_left > 0 && arg2 % 256 != 0 ==> r == Err::<(), Error>(Error::EIO),
        final(uic).rsp matches Some(rsp) && rsp.value == arg3,
        final(uic).cmd == old(uic).cmd,
{
    law_response_follows_interrupt(interrupt_status, arg2, arg3);
}

} // verus!
