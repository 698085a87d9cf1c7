//! Registers, circular queues, interconnect commands and interrupts.

use rufs::error::Error;
use rufs::hci::{CqEntry, Utrd};
use rufs::irq::{
    self, IrqFlags, IrqScope, PrimaryAction, UfsControllerHandler, UfsInterruptPolicy, UfsIrq,
};
use rufs::mcq::UfsMcqQueue;
use rufs::mcq_setup::{self, QueueMemory};
use rufs::reg::{
    self, PowerMode, RegOp, UfsMcqOprInfo, UfsMcqOprRegion, UfsMcqOprSet, UfsReg, UicErrorStatus,
};
use rufs::transfer::McqConfig;
use rufs::uic::{UfsUic, UfsUicRsp, UicCmdDme, UicCmdResult};

fn write(offset: usize, value: u32) -> RegOp {
    RegOp::Write { offset, value }
}

fn oprs() -> UfsMcqOprSet {
    UfsMcqOprSet::default_set(0x1000, 0x1010, 0x1020, 0x1028)
}

fn controller() -> UfsReg {
    UfsReg { cap: 0x4083_001f, mcq_cap: 0x0004_0003 }
}

const QUIET: UicErrorStatus =
    UicErrorStatus { phy: 0, data_link: 0, network: 0, transport: 0, dme: 0 };

#[test]
fn capabilities_are_decoded() {
    let reg = controller();
    assert_eq!(reg.nutrs(), 32);
    assert_eq!(reg.nutrs_mcq(), 32);
    assert_eq!(reg.nutmrs(), 4);
    assert!(reg.mcq_supported());
    assert!(reg.autoh8());
    assert_eq!(reg.mcq_max_queues(), 4);
    assert_eq!(reg.mcq_queue_cfg_base(), 0x800);
    let reg = UfsReg { cap: 0x0000_00ff, mcq_cap: 0 };
    assert_eq!((reg.nutrs(), reg.nutrs_mcq(), reg.nutmrs()), (32, 256, 1));
    assert!(!reg.mcq_supported());
    assert!(!reg.autoh8());
    assert_eq!(reg.mcq_max_queues(), 1);
}

#[test]
fn operations_compute_what_to_write() {
    assert_eq!(write(0, 5).value_to_write(0xff), Some(5));
    assert_eq!(RegOp::SetBits { offset: 0, bits: 0x0f }.value_to_write(0xf1), Some(0xff));
    assert_eq!(RegOp::ClearBits { offset: 0, bits: 0x0f }.value_to_write(0xff), Some(0xf0));
    let poll = RegOp::Poll { offset: 0, mask: 3, value: 1, interval_us: 1, timeout_us: 2 };
    assert_eq!(poll.value_to_write(0), None);
    assert!(poll.poll_done(5));
    assert!(!poll.poll_done(7));
}

#[test]
fn interrupt_masks_are_unions() {
    assert_eq!(reg::UIC_INTR_MASK, 0x10 | 0x20 | 0x40 | 0x400);
    assert_eq!(reg::ERROR_MASK, 0x4 | 0x80 | 0x800 | 0x1_0000 | 0x2_0000 | 0x4_0000 | 0x1000);
    assert_eq!(reg::TRANSFER_INTR_MASK, reg::ERROR_MASK | 0x1 | 0x10_0000);
}

#[test]
fn interconnect_errors_that_need_recovery() {
    assert!(!QUIET.requires_recovery());
    assert!(!UicErrorStatus { phy: 0xffff_ffff, ..QUIET }.requires_recovery());
    assert!(UicErrorStatus { data_link: 0x8000_2000, ..QUIET }.requires_recovery());
    assert!(!UicErrorStatus { data_link: 0x8000_0001, ..QUIET }.requires_recovery());
    assert!(!UicErrorStatus { data_link: 0x2000, ..QUIET }.requires_recovery());
    assert!(UicErrorStatus { network: 0x8000_0004, ..QUIET }.requires_recovery());
    assert!(!UicErrorStatus { network: 0x8000_0008, ..QUIET }.requires_recovery());
    assert!(UicErrorStatus { transport: 0x8000_0040, ..QUIET }.requires_recovery());
    assert!(!UicErrorStatus { transport: 0x40, ..QUIET }.requires_recovery());
    assert!(UicErrorStatus { dme: 0x8000_0001, ..QUIET }.requires_recovery());
    assert!(!UicErrorStatus { dme: 0x8000_0000, ..QUIET }.requires_recovery());
}

#[test]
fn power_mode_codes() {
    assert_eq!(PowerMode::OK.code(), 0);
    assert_eq!(PowerMode::Busy.code(), 3);
    assert_eq!(PowerMode::FatalError.code(), 5);
    assert_eq!(reg::get_power_mode_change_status(0x0000_0530), 5);
}

#[test]
fn operation_registers_are_addressed() {
    let oprs = oprs();
    assert_eq!(oprs.get(UfsMcqOprRegion::Cqd).offset(), 0x1020);
    assert_eq!(oprs.get(UfsMcqOprRegion::Cqd).stride(), 48);
    assert_eq!(oprs.mcq_opr_offset(UfsMcqOprRegion::Sqis, 2, 4), 0x1010 + 96 + 4);
    assert_eq!(oprs.mcq_sq_head_offset(1), 0x1030);
    assert_eq!(oprs.mcq_cq_tail_offset(1), 0x1054);
    assert_eq!(oprs.mcq_cqis_offset(1), 0x1058);
    assert_eq!(oprs.write_mcq_sq_tail(1, 64), write(0x1034, 64));
    assert_eq!(oprs.write_mcq_cq_head(0, 32), write(0x1020, 32));
    assert_eq!(oprs.write_mcq_cqis(0, 1), write(0x1028, 1));
    assert_eq!(oprs.enable_mcq_cq_tail_push_intr(0), write(0x102c, 1));
    assert!(oprs.is_addressable(1000));
    let info = UfsMcqOprInfo::new(0, usize::MAX);
    assert!(!UfsMcqOprSet::new(info, info, info, info).is_addressable(2));
}

#[test]
fn submission_queues_stop_start_and_clean_up() {
    let oprs = oprs();
    let poll = |mask: u32, value: u32| RegOp::Poll {
        offset: 0x1010,
        mask,
        value,
        interval_us: 20,
        timeout_us: 500_000,
    };
    assert_eq!(oprs.stop_mcq_sq(0), vec![write(0x1008, 1), poll(1, 1)]);
    assert_eq!(oprs.start_mcq_sq(0), vec![write(0x1008, 0), poll(1, 0)]);
    assert_eq!(
        oprs.initiate_mcq_sq_cleanup(0),
        vec![RegOp::SetBits { offset: 0x1008, bits: 2 }, poll(2, 2)]
    );
    assert_eq!(oprs.write_mcq_sq_cleanup_target(0, 3, 9), write(0x100c, 0x309));
    assert_eq!(UfsMcqOprSet::mcq_sq_cleanup_error_code(0xabc5), 0xc);
}

#[test]
fn queue_configuration_registers() {
    let reg = controller();
    assert_eq!(reg.mcq_queue_cfg_offset(2, 0x24), 0x800 + 0x80 + 0x24);
    assert_eq!(reg.write_mcq_queue_cfg(0, 0x0c, 7), write(0x80c, 7));
    let addr = 0x0123_4567_89ab_cdef;
    assert_eq!(
        reg.set_mcq_sq_base_addr(1, addr),
        vec![write(0x844, 0x89ab_cdef), write(0x848, 0x0123_4567)]
    );
    assert_eq!(
        reg.set_mcq_cq_base_addr(1, addr),
        vec![write(0x864, 0x89ab_cdef), write(0x868, 0x0123_4567)]
    );
    assert_eq!(UfsReg::dma_addr_lo(addr), 0x89ab_cdef);
    assert_eq!(UfsReg::dma_addr_hi(addr), 0x0123_4567);
    assert_eq!(reg.enable_mcq_sq(0, 33, 2), Ok(write(0x800, 0x8002_0107)));
    assert_eq!(reg.enable_mcq_cq(0, 33), Ok(write(0x820, 0x8000_0107)));
}

#[test]
fn queue_attributes_are_bounded() {
    assert_eq!(UfsReg::mcq_queue_attr(1), Ok(0x8000_0007));
    assert_eq!(UfsReg::mcq_queue_attr(0), Err(Error::EINVAL));
    assert_eq!(UfsReg::mcq_queue_attr(0x2000_0000), Err(Error::EOVERFLOW));
    assert_eq!(UfsReg::mcq_queue_attr(0x1_0000_0000), Err(Error::EINVAL));
}

#[test]
fn active_commands_are_configured() {
    let least = reg::config_mcq_max_active_cmds(1).unwrap();
    assert_eq!(least, RegOp::Replace { offset: 0x380, mask: 0x1_ff00, bits: 0 });
    assert_eq!(least.value_to_write(0xffff_ffff), Some(0xfffe_00ff));
    let most = reg::config_mcq_max_active_cmds(512).unwrap();
    assert_eq!(most.value_to_write(0), Some(0x0001_ff00));
    assert_eq!(reg::config_mcq_max_active_cmds(0), Err(Error::EINVAL));
    assert_eq!(reg::config_mcq_max_active_cmds(513), Err(Error::EOVERFLOW));
}

#[test]
fn modes_and_addresses() {
    assert_eq!(reg::enable_mcq_mode(), RegOp::SetBits { offset: 0x300, bits: 1 });
    assert_eq!(reg::disable_mcq_mode(), RegOp::ClearBits { offset: 0x300, bits: 1 });
    assert_eq!(reg::enable_mcq_esi(), RegOp::SetBits { offset: 0x300, bits: 2 });
    assert_eq!(reg::config_mcq_esi(0x1_0000_0002), vec![write(0x384, 2), write(0x388, 1)]);
    assert_eq!(reg::set_utrdl_base(0x1_0000_0002), vec![write(0x50, 2), write(0x54, 1)]);
    assert_eq!(reg::set_utmrdl_base(0x1_0000_0002), vec![write(0x70, 2), write(0x74, 1)]);
}

#[test]
fn doorbells_and_lists() {
    assert_eq!(reg::ring_utrl_doorbell(31), write(0x58, 0x8000_0000));
    assert_eq!(reg::clear_utrl_slots(5), write(0x5c, 5));
    assert_eq!(reg::ring_utmrl_doorbell(6), write(0x78, 6));
    assert_eq!(reg::clear_utmrl_slots(7), write(0x7c, 7));
    assert_eq!(reg::enable_run_stop(), vec![write(0x80, 1), write(0x60, 1)]);
    assert_eq!(reg::disable_run_stop(), vec![write(0x60, 0), write(0x80, 0)]);
    assert_eq!(reg::write_utrlcnr(9), write(0x64, 9));
    assert_eq!(reg::disable_transfer_req_int_aggr(), write(0x4c, 0));
}

#[test]
fn controller_is_enabled_and_disabled() {
    assert_eq!(reg::ctrl_enable(), RegOp::SetBits { offset: 0x34, bits: 1 });
    assert_eq!(reg::ctrl_disable(), write(0x34, 0));
    assert!(reg::ctrl_enabled(3));
    assert!(!reg::ctrl_enabled(2));
    let clear = reg::clear_all_interrupts();
    assert_eq!(clear, RegOp::WriteBack { offset: 0x20 });
    assert_eq!((clear.value_to_write(0), clear.value_to_write(9)), (None, Some(9)));
    let guard = reg::if_ctrl_enabled();
    assert_eq!(guard, RegOp::Guard { offset: 0x34, bits: 1 });
    assert_eq!(guard.value_to_write(1), None);
    assert!(guard.goes_on(3) && !guard.goes_on(2) && clear.goes_on(0));
    assert_eq!(reg::disable_interrupts(), write(0x24, 0));
    let ready = reg::wait_for_request_ready(1000, 50);
    assert!(ready.poll_done(0x0e));
    assert!(!ready.poll_done(0x0c));
    assert!(reg::wait_for_uic_cmd_ready(500, 500).poll_done(0x08));
    assert!(!reg::wait_for_uic_cmd_ready(500, 500).poll_done(0x07));
    assert!(reg::wait_for_ctrl_enable(1000, 50).poll_done(1));
    assert!(reg::wait_for_ctrl_disable(10, 1).poll_done(0));
}

#[test]
fn interrupts_are_read_and_confirmed() {
    assert_eq!(reg::enable_uic_interrupts(), RegOp::SetBits { offset: 0x24, bits: 0x470 });
    assert_eq!(reg::read_uic_interrupts(0xffff_ffff, 0x401), 0x400);
    assert_eq!(reg::confirm_uic_interrupts(0xffff_ffff), write(0x20, 0x470));
    assert_eq!(reg::read_transfer_interrupts(0x0010_0401, 0xffff_ffff), 0x0010_0001);
    assert_eq!(reg::confirm_transfer_interrupts(0xffff_ffff), write(0x20, 0x0017_1885));
    assert_eq!(reg::enable_interrupts(), RegOp::SetBits { offset: 0x24, bits: 0x0007_1885 });
    assert_eq!(reg::enable_mcq_interrupts(), RegOp::SetBits { offset: 0x24, bits: 0x10_0000 });
    assert_eq!(reg::get_uic_cmd_result(0x1234), 0x34);
    assert_eq!(reg::confirm_uic_error(), write(0x20, 4));
}

#[test]
fn error_interrupts_are_classified() {
    assert!(reg::is_uic_command_completion(0x400));
    assert!(reg::is_uic_power_mode(0x10));
    assert!(!reg::is_uic_power_mode(0x400));
    for bit in 0..32 {
        let status = 1u32 << bit;
        assert_eq!(
            reg::is_error_interrupt(status),
            reg::is_uic_error_interrupt(status) || reg::is_transfer_recovery_interrupt(status)
        );
    }
    assert!(reg::is_uic_error_interrupt(4));
    assert!(!reg::is_transfer_recovery_interrupt(4));
    assert!(reg::is_transfer_recovery_interrupt(0x1_0000));
}

fn queue(entries: u32) -> UfsMcqQueue {
    UfsMcqQueue::new(1, entries, oprs(), 0x1000, 0x2000).ok().unwrap()
}

fn cqe(addr: u64) -> CqEntry {
    CqEntry { command_desc_base_addr: addr, ..CqEntry::default() }
}

#[test]
fn empty_rings_are_refused() {
    assert_eq!(UfsMcqQueue::new(0, 0, oprs(), 0, 0).err(), Some(Error::EINVAL));
    let q = queue(4);
    assert_eq!((q.id(), q.max_entries()), (1, 4));
    assert_eq!((q.sqe_dma_addr(), q.cqe_dma_addr()), (0x1000, 0x2000));
    assert_eq!(q.oprs(), oprs());
}

#[test]
fn slots_have_byte_offsets() {
    assert_eq!(UfsMcqQueue::sq_slot_offset(3), 96);
    assert_eq!(UfsMcqQueue::cq_slot_offset(3), 96);
    assert_eq!(UfsMcqQueue::offset_to_slot(96, 32, 4), Ok(3));
    assert_eq!(UfsMcqQueue::offset_to_slot(128, 32, 4), Err(Error::EINVAL));
    assert_eq!(UfsMcqQueue::offset_to_slot(97, 32, 4), Err(Error::EINVAL));
}

#[test]
fn submissions_go_round() {
    let mut q = queue(3);
    assert_eq!(q.sq_tail_index(), Ok(0));
    assert_eq!(q.write_sq_entry(Utrd::default()), Ok(32));
    assert_eq!(q.sq_is_full(0), Ok(false));
    assert_eq!(q.write_sq_entry(Utrd::default()), Ok(64));
    assert_eq!(q.sq_is_full(0), Ok(true));
    assert_eq!(q.sq_is_full(32), Ok(false));
    assert_eq!(q.sq_is_full(7), Err(Error::EINVAL));
    assert_eq!(q.next_sq_tail_slot(), 0);
    assert_eq!(q.write_sq_entry(Utrd::default()), Ok(0));
    q.reset_slots();
    assert_eq!((q.sq_tail_slot(), q.cq_tail_slot(), q.cq_head_slot()), (0, 0, 0));
}

#[test]
fn completions_are_consumed_once() {
    let mut q = queue(2);
    assert!(q.cq_is_empty());
    assert_eq!(q.load_cq_entry(0, cqe(0x80)), Ok(()));
    assert!(q.load_cq_entry(2, cqe(0x80)).is_err());
    assert_eq!(q.update_cq_tail_slot(32), Ok(()));
    assert!(!q.cq_is_empty());
    assert_eq!(q.consume_cq_entry(), (Some(cqe(0x80)), write(0x1050, 32)));
    assert!(q.cq_is_empty());
    assert_eq!(q.update_cq_tail_slot(0), Ok(()));
    assert_eq!(q.consume_cq_entry(), (None, write(0x1050, 0)));
    assert_eq!(q.consume_cq_entry(), (None, write(0x1050, 32)));
    assert_eq!(q.update_cq_tail_slot(64), Err(Error::EINVAL));
    assert_eq!(q.acknowledge_cq_events(0), None);
    assert_eq!(q.acknowledge_cq_events(5), Some(write(0x1058, 5)));
}

fn mcq_config(queues: usize) -> McqConfig {
    McqConfig {
        max_queues: 4,
        total_queues: queues,
        default_queues: queues - 1,
        read_queues: 0,
        interrupt_queues: queues - 1,
        poll_queues: 1,
        max_active_commands: 32,
        task_tag_count: 256,
        software_queue_depth: 256,
        ring_entries: 33,
    }
}

#[test]
fn queues_are_configured_in_order() {
    let memory = vec![
        QueueMemory { sqe_addr: 0x1000, cqe_addr: 0x2000 },
        QueueMemory { sqe_addr: 0x3000, cqe_addr: 0x4000 },
    ];
    let config = mcq_config(2);
    let mut queues = mcq_setup::new_queues(&config, oprs(), &memory).ok().unwrap();
    assert_eq!(queues.len(), 2);
    assert_eq!((queues[1].id(), queues[1].max_entries()), (1, 33));
    assert_eq!(queues[1].cqe_dma_addr(), 0x4000);
    let ops =
        mcq_setup::configure_registers_with_interrupt_queues(&mut queues, &controller(), 1).unwrap();
    let position = |op: RegOp| ops.iter().position(|o| *o == op);
    assert!(position(write(0x824, 0x2000)).is_some());
    assert!(position(write(0x844, 0x3000)).is_some());
    assert!(position(write(0x102c, 1)).is_some());
    assert!(position(write(0x105c, 1)).is_none());
    let cq = position(write(0x860, 0x8000_0107));
    let sq = position(write(0x840, 0x8001_0107));
    assert!(cq.is_some() && cq < sq);
}

#[test]
fn activation_selects_the_mode() {
    let memory = vec![
        QueueMemory { sqe_addr: 0x1000, cqe_addr: 0x2000 },
        QueueMemory { sqe_addr: 0x3000, cqe_addr: 0x4000 },
    ];
    let config = mcq_config(2);
    let mut queues = mcq_setup::new_queues(&config, oprs(), &memory).ok().unwrap();
    let activation = mcq_setup::activate(&mut queues, &controller(), &config);
    assert_eq!(activation.outcome, Ok(()));
    let ops = activation.ops;
    let limit = RegOp::Replace { offset: 0x380, mask: 0x1_ff00, bits: 0x1f00 };
    assert!(ops.contains(&limit));
    assert!(ops.contains(&RegOp::SetBits { offset: 0x300, bits: 1 }));
    assert!(ops.contains(&RegOp::SetBits { offset: 0x24, bits: 0x10_0000 }));
    let none = McqConfig { max_active_commands: 0, ..config };
    let activation = mcq_setup::activate(&mut queues, &controller(), &none);
    assert_eq!(activation.outcome, Err(Error::EINVAL));
    assert_eq!(activation.ops.len() + 3, ops.len());
    let many = McqConfig { max_active_commands: 513, ..config };
    let activation = mcq_setup::activate(&mut queues, &controller(), &many);
    assert_eq!(activation.outcome, Err(Error::EOVERFLOW));
    assert_eq!(activation.ops.len() + 3, ops.len());
    let loud = McqConfig { interrupt_queues: 3, ..config };
    let activation = mcq_setup::activate(&mut queues, &controller(), &loud);
    assert_eq!(activation.outcome, Err(Error::EINVAL));
    assert!(activation.ops.is_empty());
}

#[test]
fn interconnect_codes() {
    assert_eq!(UicCmdDme::AttrGet.code(), 1);
    assert_eq!(UicCmdDme::LinkStartup.code(), 0x16);
    assert_eq!(UicCmdDme::TestMode.code(), 0x1a);
    for n in 0u32..0x0a {
        assert_eq!(UicCmdResult::from(n).code(), n);
    }
    assert_eq!(UicCmdResult::from(0x0a), UicCmdResult::DmeFailure);
    assert_eq!(UicCmdResult::from(0xffff), UicCmdResult::DmeFailure);
}

#[test]
fn single_entries_are_consumed_and_committed() {
    let mut q = queue(4);
    q.load_cq_entry(0, cqe(0x80)).unwrap();
    q.load_cq_entry(1, cqe(0x100)).unwrap();
    q.update_cq_tail_slot(64).unwrap();
    assert_eq!(q.consume_entry(), Some(cqe(0x80)));
    assert_eq!(q.consume_entry(), Some(cqe(0x100)));
    assert_eq!(q.commit_head(), write(0x1050, 64));
    assert_eq!(q.sq_offset_to_slot(64), Ok(2));
    assert_eq!(q.sq_offset_to_slot(128), Err(Error::EINVAL));
}

#[test]
fn link_is_started() {
    let mut uic = UfsUic::new();
    let ops = uic.link_startup();
    assert_eq!(
        ops,
        vec![
            RegOp::SetBits { offset: 0x24, bits: 0x470 },
            RegOp::Poll { offset: 0x30, mask: 8, value: 8, interval_us: 500, timeout_us: 500_000 },
            write(0x94, 0),
            write(0x98, 0),
            write(0x9c, 0),
            write(0x90, 0x16),
        ]
    );
    assert_eq!(uic.cmd.map(|cmd| cmd.command), Some(UicCmdDme::LinkStartup));
    assert_eq!(uic.wait_for_uic_cmd(0), Err(Error::ETIMEDOUT));
    assert_eq!(uic.wait_for_uic_cmd(1), Err(Error::ENOMEM));
    assert!(uic.get_uic_cmd_response(0x400, 0x100, 0x55));
    assert_eq!(uic.rsp, Some(UfsUicRsp { result: UicCmdResult::Success, value: 0x55 }));
    assert_eq!(uic.wait_for_uic_cmd(1), Ok(()));
    assert!(uic.get_uic_cmd_response(0x400, 0x109, 0));
    assert_eq!(uic.wait_for_uic_cmd(1), Err(Error::EIO));
    assert!(uic.get_uic_cmd_response(0x10, 9, 9));
    assert_eq!(uic.rsp, Some(UfsUicRsp { result: UicCmdResult::Success, value: 0 }));
    assert!(!uic.get_uic_cmd_response(0x20, 9, 9));
}

#[test]
fn registration_flags_follow_the_policy() {
    assert_eq!(
        irq::registration_flags(UfsInterruptPolicy::EagerAck),
        IrqFlags { shared: true, oneshot: false }
    );
    assert_eq!(
        irq::registration_flags(UfsInterruptPolicy::ThreadedAck),
        IrqFlags { shared: true, oneshot: true }
    );
}

#[test]
fn eager_handler_acknowledges_at_once() {
    let mut handler = UfsControllerHandler::new(IrqScope::Controller, UfsInterruptPolicy::EagerAck);
    assert!(matches!(handler.handle(0, 0xffff_ffff), PrimaryAction::NotMine));
    assert!(handler.take_pending().is_none());
    match handler.handle(0x401, 0xffff_ffff) {
        PrimaryAction::Wake { ack, error } => {
            assert_eq!(ack, vec![write(0x20, 0x400), write(0x20, 0x1)]);
            assert!(!error);
        }
        PrimaryAction::NotMine => panic!("the interrupt is this controller's"),
    }
    assert_eq!(handler.pending_interrupts, 0x401);
    match handler.handle(0x4, 0xffff_ffff) {
        PrimaryAction::Wake { error, .. } => assert!(error),
        PrimaryAction::NotMine => panic!("the interrupt is this controller's"),
    }
    let step = handler.take_pending().unwrap();
    assert_eq!((step.uic_status, step.transfer_status), (0x400, 0x5));
    assert!(step.read_uic_errors);
    assert!(step.ack.is_empty());
    assert!(handler.take_pending().is_none());
}

#[test]
fn threaded_handler_acknowledges_later() {
    let mut handler =
        UfsControllerHandler::new(IrqScope::Controller, UfsInterruptPolicy::ThreadedAck);
    match handler.handle(0x10_0000, 0xffff_ffff) {
        PrimaryAction::Wake { ack, .. } => assert!(ack.is_empty()),
        PrimaryAction::NotMine => panic!("the interrupt is this controller's"),
    }
    let step = handler.take_pending().unwrap();
    assert_eq!(step.ack, vec![write(0x20, 0), write(0x20, 0x10_0000)]);
    assert!(!step.read_uic_errors);
}

#[test]
fn handlers_keep_to_their_scope() {
    let mut uic = UfsControllerHandler::new(IrqScope::Uic, UfsInterruptPolicy::EagerAck);
    assert!(matches!(uic.handle(0x1, 0xffff_ffff), PrimaryAction::NotMine));
    match uic.handle(0x401, 0xffff_ffff) {
        PrimaryAction::Wake { ack, .. } => assert_eq!(ack, vec![write(0x20, 0x400)]),
        PrimaryAction::NotMine => panic!("a command is done"),
    }
    let mut queue = UfsControllerHandler::new(IrqScope::Queue, UfsInterruptPolicy::EagerAck);
    assert!(matches!(queue.handle(0x400, 0xffff_ffff), PrimaryAction::NotMine));
    match queue.handle(0x401, 0xffff_ffff) {
        PrimaryAction::Wake { ack, .. } => assert_eq!(ack, vec![write(0x20, 0x1)]),
        PrimaryAction::NotMine => panic!("a transfer is done"),
    }
}

#[test]
fn interconnect_completions_wake_the_waiter() {
    let mut handler = UfsControllerHandler::new(IrqScope::Controller, UfsInterruptPolicy::EagerAck);
    let mut uic = UfsUic::new();
    handler.handle(0x400, 0xffff_ffff);
    let step = handler.take_pending().unwrap();
    let outcome = irq::handle_threaded(&step, &mut uic, None, 0, 3, None);
    assert!(outcome.complete_uic);
    assert!(!outcome.complete_queue);
    assert_eq!(uic.rsp, Some(UfsUicRsp { result: UicCmdResult::Success, value: 3 }));
}

#[test]
fn one_queue_is_attached() {
    let mut irq = UfsIrq::new();
    assert_eq!(irq.attach_queue(), Ok(()));
    assert_eq!(irq.attach_queue(), Err(Error::EBUSY));
}
