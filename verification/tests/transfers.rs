//! Commands on their way to the controller and back.

use rufs::block::dma_map_iter::{DmaMapIter, DmaVector, IterStep, P2pdmaMap};
use rufs::block::DataDirection;
use rufs::command::{CommandOwner, CommandPool, TaskTag};
use rufs::completion::{
    CompletedRequests, SdbCompletionSource, SdbCompletionState, SubmissionOutcome,
};
use rufs::dma::UfsDma;
use rufs::error::Error;
use rufs::hci::{CqEntry, PrdEntry};
use rufs::host::HostFlow;
use rufs::irq;
use rufs::lu::{self, HandBack};
use rufs::mcq_setup::{self, QueueMemory};
use rufs::prdt::{
    self, PrdtBuilder, PrdtPlan, UfsPrdt, UfsPrdtMapping, UfsSgMapping,
};
use rufs::query::{UfsCmd, UfsDevCmd};
use rufs::queue::{
    self, CompletionOutcome, CompletionStep, PolledAction, RequestContext, UfsHwQueue, UfsQueue,
};
use rufs::recovery::{RecoveryCause, RecoveryReason, RecoveryScope, RecoveryState};
use rufs::reg::{RegOp, UfsMcqOprSet, UfsReg, UicErrorStatus};
use rufs::request::{
    CompletionDisposition, TimeoutDisposition, UfsRequestInner, UfsRequestState,
};
use rufs::scsi::{ScsiVerdict, UfsSCSICmd, UfsScsiCompletion};
use rufs::transfer::{self, McqConfig, QueueType, UfsQueueMap, UfsQueueRange, UfsTransferConfig};
use rufs::upiu::Upiu;

const UCD_BASE: u64 = 0x10_0000;

fn write(offset: usize, value: u32) -> RegOp {
    RegOp::Write { offset, value }
}

fn dma(slots: usize) -> UfsDma {
    UfsDma::new(slots, UCD_BASE, 0x20_0000, 0x30_0000).ok().unwrap()
}

fn sdb_queue() -> UfsQueue {
    UfsQueue::new(UfsTransferConfig::Sdb { tag_count: 4 }, dma(4), Vec::new()).ok().unwrap()
}

fn mcq_queue() -> UfsQueue {
    let reg = UfsReg { cap: 0x4000_001f, mcq_cap: 3 };
    let config = UfsTransferConfig::new(&reg, 2).unwrap();
    let mcq = match config {
        UfsTransferConfig::Mcq(mcq) => mcq,
        UfsTransferConfig::Sdb { .. } => panic!("the controller has circular queues"),
    };
    let memory: Vec<QueueMemory> = (0..mcq.total_queues)
        .map(|i| QueueMemory { sqe_addr: 0x1000 * i as u64, cqe_addr: 0x8000 + 0x1000 * i as u64 })
        .collect();
    let oprs = UfsMcqOprSet::default_set(0x1000, 0x1010, 0x1020, 0x1028);
    let queues = mcq_setup::new_queues(&mcq, oprs, &memory).ok().unwrap();
    UfsQueue::new(config, dma(256), queues).ok().unwrap()
}

const UNIT: RequestContext = RequestContext { dev_queue: false, logical_unit: true };
const DEVICE: RequestContext = RequestContext { dev_queue: true, logical_unit: false };
const SDB: UfsHwQueue = UfsHwQueue { id: 0, mcq: false, poll: false };

fn good_response() -> Upiu {
    let mut rsp = Upiu::default();
    rsp.header.transaction_code = 0x21;
    rsp
}

fn cqe(tag: u8) -> CqEntry {
    CqEntry {
        command_desc_base_addr: UCD_BASE + 5120 * tag as u64,
        task_tag: tag,
        ..CqEntry::default()
    }
}

// Configuration.

#[test]
fn one_doorbell_is_configured() {
    let reg = UfsReg { cap: 0x1f, mcq_cap: 0 };
    let config = UfsTransferConfig::new(&reg, 8).unwrap();
    assert_eq!(config, UfsTransferConfig::Sdb { tag_count: 32 });
    assert_eq!(config.tag_count(), 32);
    assert_eq!(config.max_active_commands(), 32);
    assert_eq!(config.software_queue_depth(), 256);
    assert_eq!(config.queue_map(), Ok(UfsQueueMap::sdb()));
    assert_eq!(UfsQueueMap::sdb().num_maps(), 3);
}

#[test]
fn circular_queues_are_configured() {
    let reg = UfsReg { cap: 0x4000_00ff, mcq_cap: 7 };
    let expected = McqConfig {
        max_queues: 8,
        total_queues: 5,
        default_queues: 4,
        read_queues: 0,
        interrupt_queues: 4,
        poll_queues: 1,
        max_active_commands: 256,
        task_tag_count: 256,
        software_queue_depth: 256,
        ring_entries: 257,
    };
    assert_eq!(UfsTransferConfig::new(&reg, 4), Ok(UfsTransferConfig::Mcq(expected)));
    assert!(expected.is_poll_queue(4));
    assert!(!expected.is_poll_queue(3));
    assert!(!expected.is_poll_queue(5));
    match UfsTransferConfig::new(&reg, 64) {
        Ok(UfsTransferConfig::Mcq(config)) => assert_eq!(config.default_queues, 7),
        _ => panic!("the controller has circular queues"),
    }
    assert_eq!(transfer::possible_cpus(0), 1);
    assert_eq!(transfer::possible_cpus(6), 6);
}

#[test]
fn too_few_circular_queues_are_refused() {
    let reg = UfsReg { cap: 0x4000_001f, mcq_cap: 0 };
    assert_eq!(UfsTransferConfig::new(&reg, 4), Err(Error::ENOTSUPP));
}

#[test]
fn queue_maps_partition_the_queues() {
    let map = UfsQueueMap::new(6, 3, 2, 1).unwrap();
    assert_eq!(map.range(QueueType::Default), UfsQueueRange { offset: 0, count: 3 });
    assert_eq!(map.range(QueueType::Read), UfsQueueRange { offset: 3, count: 2 });
    assert_eq!(map.range(QueueType::Poll), UfsQueueRange { offset: 5, count: 1 });
    assert_eq!((map.nr_hw_queues(), map.num_maps()), (6, 3));
    assert_eq!(UfsQueueMap::new(5, 3, 2, 0).unwrap().num_maps(), 2);
    assert_eq!(UfsQueueMap::new(3, 3, 0, 0).unwrap().num_maps(), 1);
    assert_eq!(UfsQueueMap::new(5, 3, 2, 1), Err(Error::EINVAL));
    assert_eq!(UfsQueueMap::new(0, 0, 0, 0), Err(Error::EINVAL));
    assert_eq!(UfsQueueMap::new(1, usize::MAX, 1, 1), Err(Error::EOVERFLOW));
}

// Task tags.

#[test]
fn task_tags_are_bounded() {
    assert_eq!(TaskTag::new(255), Ok(TaskTag(255)));
    assert_eq!(TaskTag::new(256), Err(Error::EINVAL));
    assert_eq!(TaskTag::from_index(7).map(|tag| tag.index()), Ok(7));
    assert_eq!(TaskTag::from_index(256), Err(Error::EINVAL));
    assert_eq!(TaskTag(9).value(), 9);
    assert_eq!(queue::task_tag(None), Err(Error::EIO));
    assert_eq!(queue::task_tag(Some(300)), Err(Error::EINVAL));
    assert_eq!(queue::task_tag(Some(3)), Ok(TaskTag(3)));
}

#[test]
fn pools_need_tags_and_a_limit() {
    assert_eq!(CommandPool::new(0, 0).err(), Some(Error::EINVAL));
    assert_eq!(CommandPool::new(4, 0).err(), Some(Error::EINVAL));
    assert_eq!(CommandPool::new(4, 5).err(), Some(Error::EINVAL));
    assert_eq!(CommandPool::new(257, 1).err(), Some(Error::EINVAL));
    assert!(CommandPool::new(256, 256).is_ok());
}

#[test]
fn tags_are_reserved_bound_and_released() {
    let mut pool = CommandPool::new(4, 2).ok().unwrap();
    assert_eq!(pool.reserve(), Some(TaskTag(0)));
    assert_eq!(pool.reserve(), Some(TaskTag(1)));
    assert_eq!(pool.reserve(), None);
    assert_eq!(pool.active(), 2);
    let owner = CommandOwner { queue_id: 3, blk_tag: 70 };
    assert_eq!(pool.owner(TaskTag(0)), None);
    assert_eq!(pool.bind(TaskTag(0), owner), Ok(()));
    assert_eq!(pool.bind(TaskTag(0), owner), Err(Error::EIO));
    assert_eq!(pool.bind(TaskTag(2), owner), Err(Error::EIO));
    assert_eq!(pool.owner(TaskTag(0)), Some(owner));
    assert_eq!(pool.recovery_owner(TaskTag(0)), Ok(Some(owner)));
    assert_eq!(pool.recovery_owner(TaskTag(2)), Ok(None));
    assert_eq!(pool.recovery_owner(TaskTag(1)), Err(Error::EBUSY));
    assert_eq!(pool.release(TaskTag(0)), Ok(()));
    assert_eq!(pool.release(TaskTag(0)), Err(Error::EIO));
    assert_eq!(pool.active(), 1);
    assert_eq!(pool.reserve(), Some(TaskTag(0)));
}

// Tables of physical regions.

#[test]
fn segments_are_split_into_entries() {
    let mut entries: Vec<PrdEntry> = Vec::new();
    assert_eq!(prdt::append_entries(&mut entries, 0x1000, 0x8_0004), Ok(()));
    assert_eq!(
        entries,
        vec![
            PrdEntry { addr: 0x1000, reserved: 0, size: 0x3_ffff },
            PrdEntry { addr: 0x4_1000, reserved: 0, size: 0x3_ffff },
            PrdEntry { addr: 0x8_1000, reserved: 0, size: 3 },
        ]
    );
}

#[test]
fn odd_segments_are_refused() {
    let mut entries: Vec<PrdEntry> = Vec::new();
    assert_eq!(prdt::append_entries(&mut entries, 0, 0), Err(Error::EINVAL));
    assert_eq!(prdt::append_entries(&mut entries, 0, 6), Err(Error::EINVAL));
    assert_eq!(
        prdt::append_entries(&mut entries, u64::MAX, 0x4_0004),
        Err(Error::EOVERFLOW)
    );
    let mut full: Vec<PrdEntry> = vec![PrdEntry::default(); 256];
    assert_eq!(prdt::append_entries(&mut full, 0, 4), Err(Error::EINVAL));
    assert_eq!(full.len(), 256);
}

fn plan(cmd: UfsSCSICmd, nr_segments: Option<usize>) -> Result<PrdtPlan, Error> {
    PrdtPlan::for_request(4, 0, cmd, nr_segments)
}

#[test]
fn requests_are_mapped_by_what_they_carry() {
    assert!(matches!(plan(UfsSCSICmd::flush(0), None), Ok(PrdtPlan::NoData)));
    let read = UfsSCSICmd::read_write(0, false, 0, 8, 4096, false);
    match plan(read, Some(3)) {
        Ok(PrdtPlan::Scatter { nr_segments, direction }) => {
            assert_eq!((nr_segments, direction), (3, DataDirection::FromDevice));
        }
        _ => panic!("data is scattered"),
    }
    let unmap = UfsSCSICmd::unmap(0, 5, 6);
    match plan(unmap, None) {
        Ok(PrdtPlan::Unmap(list)) => assert_eq!(list, unmap.unmap_param_list()),
        _ => panic!("an unmap carries its list"),
    }
    assert_eq!(plan(UfsSCSICmd::unmap(0, 5, 0), None).err(), Some(Error::EINVAL));
    assert_eq!(plan(read, None).err(), Some(Error::EINVAL));
    assert_eq!(plan(read, Some(0)).err(), Some(Error::EINVAL));
    assert_eq!(plan(read, Some(257)).err(), Some(Error::EINVAL));
    assert_eq!(PrdtPlan::for_request(4, 4, read, Some(1)).err(), Some(Error::EINVAL));
    assert!(matches!(PrdtPlan::for_segments(read), Ok(PrdtPlan::Segments(_))));
}

#[test]
fn mapping_counts_are_checked() {
    assert_eq!(prdt::filled_entries(2), Ok(2));
    assert_eq!(prdt::filled_entries(0), Err(Error::EIO));
    assert_eq!(prdt::filled_entries(-1), Err(Error::EIO));
    assert_eq!(prdt::mapped_segments(2), Ok(2));
    assert_eq!(prdt::mapped_segments(0), Err(Error::ENOMEM));
}

#[test]
fn scattered_data_becomes_a_table() {
    let sg = UfsSgMapping { nents: 2, direction: DataDirection::ToDevice };
    let segments = vec![
        DmaVector { address: 0x1000, length: 512 },
        DmaVector { address: 0x8000, length: 0x4_0000 },
    ];
    let table = UfsPrdt::from_segments(sg, 2, &segments).ok().unwrap();
    assert_eq!(
        *table.entries(),
        vec![
            PrdEntry { addr: 0x1000, reserved: 0, size: 511 },
            PrdEntry { addr: 0x8000, reserved: 0, size: 0x3_ffff },
        ]
    );
    match table.into_mapping() {
        Some(UfsPrdtMapping::Sg(mapping)) => assert_eq!(mapping, sg),
        _ => panic!("the table rests on the mapping"),
    }
    assert_eq!(UfsPrdt::from_segments(sg, 3, &segments).err(), Some(Error::EIO));
    let large = vec![DmaVector { address: 0, length: 0x4_0001 }];
    assert_eq!(UfsPrdt::from_segments(sg, 1, &large).err(), Some(Error::EINVAL));
}

#[test]
fn unmap_lists_become_a_table() {
    let table = UfsPrdt::for_unmap(Some(0x9000)).ok().unwrap();
    assert_eq!(*table.entries(), vec![PrdEntry { addr: 0x9000, reserved: 0, size: 23 }]);
    assert_eq!(UfsPrdt::for_unmap(None).err(), Some(Error::ENOMEM));
}

fn step(address: u64, length: u32) -> IterStep {
    IterStep { ok: true, status: 0, address, length, map_type: P2pdmaMap::NotPeer }
}

#[test]
fn segments_fill_a_table_exactly() {
    let mut iter =
        DmaMapIter::<256>::new(DataDirection::ToDevice, true, step(0x1000, 512)).ok().unwrap();
    let mut builder = PrdtBuilder::new(1024);
    let segment = DmaVector { address: iter.address(), length: iter.length() };
    assert_eq!(builder.push_segment(1024, segment), Ok(false));
    assert!(iter.next(step(0x4000, 512)).is_ok());
    let segment = DmaVector { address: iter.address(), length: iter.length() };
    assert_eq!(builder.push_segment(1024, segment), Ok(true));
    let table = builder.finish(1024, iter.finish());
    assert_eq!(table.entries().len(), 2);
    assert_eq!(table.entries()[1], PrdEntry { addr: 0x4000, reserved: 0, size: 511 });
    let mut builder = PrdtBuilder::new(512);
    let long = DmaVector { address: 0, length: 516 };
    assert_eq!(builder.push_segment(512, long), Err(Error::EINVAL));
    let empty = DmaVector { address: 0, length: 0 };
    assert_eq!(builder.push_segment(512, empty), Err(Error::EINVAL));
}

// Descriptors in memory.

#[test]
fn slots_follow_the_capabilities() {
    assert_eq!(UfsDma::transfer_slots_for(&UfsReg { cap: 0x1f, mcq_cap: 0 }), 32);
    assert_eq!(UfsDma::transfer_slots_for(&UfsReg { cap: 0x4000_00ff, mcq_cap: 0 }), 256);
}

#[test]
fn descriptors_point_at_their_commands() {
    let dma = dma(4);
    assert_eq!(dma.transfer_slots(), 4);
    let utrd = dma.transfer_request_desc(3).unwrap();
    assert_eq!(utrd.command_desc_base_addr, UCD_BASE + 3 * 5120);
    assert_eq!((utrd.rsp_upiu_length, utrd.rsp_upiu_offset), (128, 128));
    assert_eq!(utrd.prd_table_offset, 256);
    assert_eq!(dma.transfer_request_desc(4), Err(Error::ERANGE));
}

#[test]
fn controller_is_made_operational() {
    let mut ops = vec![
        RegOp::SetBits { offset: 0x24, bits: 0x0007_1885 },
        write(0x4c, 0),
        write(0x50, 0x20_0000),
        write(0x54, 0),
        write(0x70, 0x30_0000),
        write(0x74, 0),
        RegOp::Poll { offset: 0x30, mask: 0xe, value: 0xe, interval_us: 1000, timeout_us: 50_000 },
        write(0x80, 1),
        write(0x60, 1),
    ];
    assert_eq!(dma(4).make_hba_operational(HostFlow::Resources), ops);
    ops.remove(1);
    assert_eq!(dma(4).make_hba_operational(HostFlow::Pci), ops);
}

#[test]
fn entries_lead_back_to_their_slot() {
    let dma = dma(4);
    for tag in 0u8..4 {
        let mut entry = cqe(tag);
        entry.command_desc_base_addr |= 0x55;
        assert_eq!(dma.tag_from_cq_entry(&entry), Ok(tag as usize));
    }
    assert_eq!(dma.tag_from_cq_entry(&cqe(4)), Err(Error::EINVAL));
    let mut entry = cqe(0);
    entry.command_desc_base_addr = UCD_BASE - 128;
    assert_eq!(dma.tag_from_cq_entry(&entry), Err(Error::EINVAL));
    entry.command_desc_base_addr = UCD_BASE + 128;
    assert_eq!(dma.tag_from_cq_entry(&entry), Err(Error::EINVAL));
}

#[test]
fn entries_are_validated() {
    let dma = dma(4);
    assert_eq!(dma.validate_cq_entry(&cqe(2), 1, 1), Ok(()));
    assert_eq!(dma.validate_cq_entry(&cqe(4), 1, 1), Err(Error::EINVAL));
    assert_eq!(dma.validate_cq_entry(&cqe(2), 0, 1), Err(Error::EINVAL));
    let moved = CqEntry { task_tag: 3, ..cqe(2) };
    assert_eq!(dma.validate_cq_entry(&moved, 1, 1), Err(Error::EIO));
}

#[test]
fn composing_leaves_other_slots_alone() {
    let mut dma = dma(4);
    let before = dma.transfer_request_desc(2).unwrap();
    let cmd = UfsSCSICmd::read_write(1, true, 7, 1, 512, false);
    let table = UfsPrdt::for_unmap(Some(0x9000)).ok().unwrap();
    assert!(dma.compose_scsi_upiu(cmd, 1, table).is_ok());
    let utrd = dma.transfer_request_desc(1).unwrap();
    assert_eq!(utrd.header.ctrl, 0x13);
    assert_eq!(utrd.prd_table_length, 1);
    assert_eq!(utrd.command_desc_base_addr, UCD_BASE + 5120);
    let ucd = dma.command_desc(1).ok().unwrap();
    assert_eq!(ucd.cmd_upiu.header.task_tag, 1);
    assert_eq!(ucd.prdt[0].addr, 0x9000);
    assert_eq!(dma.transfer_request_desc(2).unwrap(), before);
    assert_eq!(dma.compose_devman_upiu(UfsDevCmd::Nop, 4), Err(Error::ERANGE));
}

#[test]
fn answers_are_fetched_from_their_slot() {
    let mut dma = dma(4);
    assert_eq!(dma.compose_devman_upiu(UfsDevCmd::Nop, 0), Ok(()));
    assert_eq!(dma.fetch_devman_upiu(UfsDevCmd::Nop, 0).unwrap_err(), Error::EIO);
    assert_eq!(dma.load_status(0, 0), Ok(()));
    let mut nop_in = Upiu::default();
    nop_in.header.transaction_code = 0x20;
    assert_eq!(dma.load_response(0, nop_in), Ok(()));
    assert!(matches!(
        dma.fetch_devman_upiu(UfsDevCmd::Nop, 0),
        Ok(UfsCmd::Device(UfsDevCmd::Nop))
    ));
    let failed = CqEntry { overall_status: 2, ..cqe(0) };
    assert_eq!(
        dma.fetch_mcq_devman_upiu(UfsDevCmd::Nop, 0, failed).unwrap_err(),
        Error::EINVAL
    );
    assert!(dma.fetch_mcq_devman_upiu(UfsDevCmd::Nop, 0, cqe(0)).is_ok());
    assert_eq!(dma.load_status(4, 0), Err(Error::ERANGE));
}

#[test]
fn scsi_completions_are_fetched() {
    let mut dma = dma(4);
    assert_eq!(dma.fetch_scsi_completion(4).completion, UfsScsiCompletion::Error);
    dma.load_response(1, good_response()).unwrap();
    for (ocs, completion) in [
        (0x00, UfsScsiCompletion::Good),
        (0x02, UfsScsiCompletion::Error),
        (0x06, UfsScsiCompletion::Requeue),
        (0x0f, UfsScsiCompletion::Requeue),
        (0xf0, UfsScsiCompletion::Good),
    ] {
        dma.load_status(1, ocs).unwrap();
        let result = dma.fetch_scsi_completion(1);
        assert_eq!((result.completion, result.ocs), (completion, ocs & 0x0f));
    }
    for (ocs, completion) in [
        (0x00, UfsScsiCompletion::Good),
        (0x05, UfsScsiCompletion::Error),
        (0x06, UfsScsiCompletion::Requeue),
        (0xf0, UfsScsiCompletion::Requeue),
    ] {
        let entry = CqEntry { overall_status: ocs, ..cqe(1) };
        let result = dma.fetch_mcq_scsi_completion(1, entry);
        assert_eq!((result.completion, result.ocs), (completion, ocs));
    }
    assert_eq!(dma.fetch_mcq_scsi_completion(4, cqe(1)).ocs, 0x0f);
}

// Requests.

#[test]
fn requests_go_through_their_states() {
    let mut request = UfsRequestInner::default();
    let cmd = UfsSCSICmd::flush(0);
    assert_eq!(request.mark_in_flight(2), Err(Error::EIO));
    assert_eq!(request.prepare_scsi(cmd, None), Ok(()));
    assert_eq!(request.prepare_scsi(cmd, None), Err(Error::EBUSY));
    assert!(matches!(request.prepared_command(), Ok(UfsCmd::SCSI(_))));
    assert!(matches!(request.timeout(), TimeoutDisposition::Pending(_)));
    assert_eq!(request.mark_in_flight(2), Ok(()));
    assert!(request.begin_completion(1).is_err());
    assert!(matches!(request.timeout(), TimeoutDisposition::StartRecovery(_)));
    assert!(matches!(request.timeout(), TimeoutDisposition::Recovering(_)));
    assert!(matches!(request.begin_completion(2), Ok((UfsCmd::SCSI(_), None))));
    assert!(request.begin_completion(2).is_err());
    assert_eq!(request.schedule_completion(CompletionDisposition::End(0)), Ok(()));
    assert!(matches!(request.timeout(), TimeoutDisposition::Completed));
    assert_eq!(request.take_scheduled_completion(), Ok(CompletionDisposition::End(0)));
    assert!(matches!(request.state, UfsRequestState::Idle));
    assert!(request.take_scheduled_completion().is_err());
}

#[test]
fn device_requests_hand_their_answer_over() {
    let mut request = UfsRequestInner::default();
    assert!(request.prepare_device(UfsCmd::SCSI(UfsSCSICmd::flush(0))).is_err());
    assert_eq!(request.prepare_device(UfsDevCmd::nop()), Ok(()));
    assert!(request.take_device_completion().is_err());
    assert_eq!(request.mark_in_flight(0), Ok(()));
    assert!(request.begin_completion(0).is_ok());
    assert_eq!(request.complete_device(UfsDevCmd::Nop), Ok(()));
    assert!(matches!(request.take_device_completion(), Ok(UfsCmd::Device(UfsDevCmd::Nop))));
    assert!(matches!(request.state, UfsRequestState::Idle));
}

// Recovery.

#[test]
fn first_cause_stays() {
    let cause = |tag: usize| RecoveryCause {
        reason: RecoveryReason::Driver("request timeout"),
        scope: RecoveryScope::Controller,
        tag,
    };
    let mut state = RecoveryState::Operational;
    assert!(state.cause().is_none());
    assert!(state.start().is_none());
    assert!(state.request(cause(1)));
    assert!(!state.request(cause(2)));
    assert_eq!(state.cause().map(|cause| cause.tag), Some(1));
    assert_eq!(state.start().map(|cause| cause.tag), Some(1));
    assert!(matches!(state, RecoveryState::Quiescing(_)));
    state.quiesced();
    assert!(matches!(state, RecoveryState::Recovering(_)));
    state.give_up();
    assert!(matches!(state, RecoveryState::Failed(_)));
    assert!(!state.request(cause(3)));
    assert_eq!(state.cause().map(|cause| cause.tag), Some(1));
}

#[test]
fn causes_are_described() {
    let errors = UicErrorStatus { phy: 1, data_link: 2, network: 3, transport: 4, dme: 5 };
    assert_eq!(RecoveryReason::Uic(errors).uic_errors(), Some(errors));
    assert_eq!(RecoveryReason::Driver("request timeout").uic_errors(), None);
    assert_eq!(RecoveryReason::Driver("request timeout").name(), "request timeout");
    assert_eq!(RecoveryScope::Queue(3).queue_id(), Some(3));
    assert_eq!(RecoveryScope::Controller.queue_id(), None);
}

// Batches.

#[test]
fn batches_hold_sixteen_completions() {
    let mut batch = CompletedRequests::new();
    for tag in 0u8..16 {
        assert!(!batch.is_full());
        assert_eq!(batch.insert(TaskTag(tag), 0, None), Ok(()));
    }
    assert!(batch.is_full());
    assert!(batch.insert(TaskTag(16), 0, None).is_err());
    for tag in 0u8..16 {
        assert_eq!(batch.take_next().map(|request| request.task_tag), Some(TaskTag(tag)));
    }
    assert!(batch.take_next().is_none());
}

#[test]
fn first_fault_stays() {
    let mut batch = CompletedRequests::new();
    batch.record_fault("first", 1, None);
    batch.record_fault("second", 2, Some(2));
    let fault = batch.take_fault().unwrap();
    assert_eq!((fault.reason, fault.tag, fault.queue_id), ("first", 1, None));
    assert!(batch.take_fault().is_none());
}

#[test]
fn doorbell_masks_are_unpacked() {
    let mut batch = CompletedRequests::new();
    assert_eq!(batch.insert_sdb_mask(0x8000_0005), Ok(0x8000_0005));
    let tags: Vec<u8> = (0..3).map(|_| batch.take_next().unwrap().task_tag.value()).collect();
    assert_eq!(tags, vec![0, 2, 31]);
    let mut batch = CompletedRequests::new();
    assert_eq!(batch.insert_sdb_mask(0xffff_ffff), Ok(0x0000_ffff));
}

#[test]
fn doorbell_has_one_collector() {
    let mut state = SdbCompletionState::default();
    let mut submit = |tag: u32, polled: bool| {
        let mut request = UfsRequestInner::default();
        request.prepare_scsi(UfsSCSICmd::flush(0), None).unwrap();
        state.submit(&mut request, 0, tag, polled)
    };
    assert!(matches!(submit(0, false), SubmissionOutcome::Submitted(op) if op == write(0x58, 1)));
    assert!(matches!(submit(1, true), SubmissionOutcome::Submitted(op) if op == write(0x58, 2)));
    assert!(matches!(submit(1, true), SubmissionOutcome::NotSubmitted(Error::EBUSY)));
    assert!(matches!(submit(32, true), SubmissionOutcome::NotSubmitted(Error::EINVAL)));
    assert_eq!(state, SdbCompletionState { outstanding: 3, polled: 2 });
    let mut batch = CompletedRequests::new();
    assert_eq!(state.collect(0, SdbCompletionSource::Interrupt, &mut batch), Ok(()));
    assert_eq!(batch.take_next().map(|request| request.task_tag), Some(TaskTag(0)));
    assert!(batch.take_next().is_none());
    assert_eq!(state, SdbCompletionState { outstanding: 2, polled: 2 });
    assert_eq!(state.collect(2, SdbCompletionSource::Poll, &mut batch), Ok(()));
    assert!(batch.take_next().is_none());
    assert_eq!(state.collect(0, SdbCompletionSource::Poll, &mut batch), Ok(()));
    assert_eq!(batch.take_next().map(|request| request.task_tag), Some(TaskTag(1)));
    assert_eq!(state, SdbCompletionState { outstanding: 0, polled: 0 });
    assert_eq!(SdbCompletionState::tag_mask(31), Some(0x8000_0000));
    assert_eq!(SdbCompletionState::tag_mask(32), None);
}

// The queue.

#[test]
fn queues_fit_their_configuration() {
    let queue = sdb_queue();
    assert_eq!(queue.hw_queues(), vec![SDB]);
    let queue = mcq_queue();
    assert_eq!(
        queue.hw_queues(),
        vec![
            UfsHwQueue { id: 0, mcq: true, poll: false },
            UfsHwQueue { id: 1, mcq: true, poll: false },
            UfsHwQueue { id: 2, mcq: true, poll: true },
        ]
    );
    let none = UfsTransferConfig::Sdb { tag_count: 0 };
    assert_eq!(UfsQueue::new(none, dma(1), Vec::new()).err(), Some(Error::EINVAL));
    let config = UfsTransferConfig::new(&UfsReg { cap: 0x4000_001f, mcq_cap: 3 }, 2).unwrap();
    assert_eq!(UfsQueue::new(config, dma(1), Vec::new()).err(), Some(Error::EINVAL));
}

#[test]
fn budgets_limit_active_commands() {
    let mut queue = sdb_queue();
    for token in 0..4 {
        assert_eq!(queue.try_get_budget(), Some(token));
    }
    assert_eq!(queue.try_get_budget(), None);
    assert!(queue.put_budget(2));
    assert!(!queue.put_budget(2));
    assert!(!queue.put_budget(1000));
    assert_eq!(queue.try_get_budget(), Some(2));
}

#[test]
fn every_active_command_has_room_for_a_mapping() {
    let mut queue = mcq_queue();
    let reserve = queue.mapping_reserve();
    assert_eq!(reserve, 32);
    for _ in 0..reserve {
        assert!(queue.try_get_budget().is_some());
    }
    assert_eq!(queue.try_get_budget(), None);
    assert_eq!(sdb_queue().mapping_reserve(), 4);
}

#[test]
fn full_batches_leave_the_rest_in_the_queue() {
    let mut queue = mcq_queue();
    for slot in 0u8..20 {
        let entry = if slot == 3 { CqEntry::default() } else { cqe(slot) };
        queue.mcq[0].load_cq_entry(u32::from(slot), entry).unwrap();
    }
    let mut batch = CompletedRequests::new();
    assert_eq!(queue.collect_mcq(0, 20 * 32, &mut batch), Ok(Some(write(0x1020, 17 * 32))));
    for tag in (0u8..17).filter(|tag| *tag != 3) {
        assert_eq!(batch.take_next().unwrap().task_tag, TaskTag(tag));
    }
    assert!(batch.take_next().is_none());
    let mut batch = CompletedRequests::new();
    assert!(queue.collect_mcq(0, 20 * 32, &mut batch).is_ok());
    for tag in 17u8..20 {
        assert_eq!(batch.take_next().unwrap().task_tag, TaskTag(tag));
    }
    assert!(batch.take_next().is_none());
    assert_eq!((queue.mcq[0].sqe_dma_addr(), queue.mcq[0].cqe_dma_addr()), (0, 0x8000));
    assert_eq!((queue.mcq[0].slot_behind(0), queue.mcq[0].slot_behind(32)), (1, 0));
}

#[test]
fn circular_queues_take_over() {
    let mut queue = sdb_queue();
    let UfsQueue { config, mcq, .. } = mcq_queue();
    assert_eq!(queue.enable_mcq_backend(config, Vec::new()), Err(Error::EINVAL));
    assert_eq!(queue.hw_queues(), vec![SDB]);
    assert_eq!(queue.enable_mcq_backend(config, mcq), Ok(()));
    assert_eq!(queue.hw_queues().len(), config.queue_map().unwrap().nr_hw_queues());
    assert_eq!(queue.dma.transfer_slots(), 4);
}

#[test]
fn passes_cover_active_commands() {
    let mut queue = mcq_queue();
    assert_eq!(queue.completion_pass_limit(), 1);
    for _ in 0..16 {
        queue.try_get_budget();
    }
    assert_eq!(queue.completion_pass_limit(), 1);
    queue.try_get_budget();
    assert_eq!(queue.completion_pass_limit(), 2);
}

fn submitted(queue: &mut UfsQueue, hw_queue: UfsHwQueue) -> (u32, UfsRequestInner) {
    let token = queue.try_get_budget().unwrap();
    let mut request = UfsRequestInner::default();
    let cmd = UfsSCSICmd::read_write(0, false, 1, 1, 512, false);
    let table = UfsPrdt::for_unmap(Some(0x9000)).ok().unwrap();
    let tag = TaskTag::new(token).unwrap();
    assert!(queue.compose_scsi_cmd(&mut request, cmd, tag, table, hw_queue, 40).is_ok());
    let outcome = queue.submit(&mut request, hw_queue, Some(token), hw_queue.id, false, Ok(0));
    assert!(matches!(outcome, SubmissionOutcome::Submitted(_)));
    (token, request)
}

#[test]
fn doorbell_command_goes_there_and_back() {
    let mut queue = sdb_queue();
    let (token, mut request) = submitted(&mut queue, SDB);
    queue.dma.load_status(0, 0).unwrap();
    queue.dma.load_response(0, good_response()).unwrap();
    let mut batch = CompletedRequests::new();
    let collected = queue.collect_sdb(0, SdbCompletionSource::Interrupt, &mut batch);
    assert_eq!(collected, Ok(()));
    let done = queue.resolve_completion(batch.take_next().unwrap(), Ok(true)).unwrap();
    assert_eq!(done.owner, CommandOwner { queue_id: 0, blk_tag: 40 });
    let step =
        queue.complete_with(&mut request, UNIT, 40, done.task_tag, done.queue_id, done.cqe);
    let verdict = match step {
        CompletionStep::Scsi { prdt, verdict } => {
            assert!(prdt.is_some());
            verdict
        }
        _ => panic!("a command of a logical unit is judged"),
    };
    assert_eq!(
        queue.complete_scsi(&mut request, 40, verdict, &mut Some(token)),
        CompletionOutcome::Returned
    );
    assert!(!queue.put_budget(token));
    assert_eq!(lu::complete(&mut request), Ok(HandBack::End(0)));
    assert!(!queue.finish_pass(&mut batch, collected, None));
    assert!(!queue.recovery_required());
}

#[test]
fn circular_command_goes_there_and_back() {
    let mut queue = mcq_queue();
    let hw_queue = queue.hw_queues()[1];
    let (token, mut request) = submitted(&mut queue, hw_queue);
    queue.dma.load_response(0, good_response()).unwrap();
    queue.mcq[1].load_cq_entry(0, on_queue(cqe(0), 1)).unwrap();
    let mut batch = CompletedRequests::new();
    assert_eq!(queue.next_interrupt_queue(0, &batch), Some(0));
    assert_eq!(queue.collect_mcq(0, 0, &mut batch), Ok(None));
    assert_eq!(queue.next_interrupt_queue(1, &batch), Some(1));
    assert_eq!(queue.collect_mcq(1, 32, &mut batch), Ok(Some(write(0x1050, 32))));
    assert_eq!(queue.next_interrupt_queue(2, &batch), None);
    let done = queue.resolve_completion(batch.take_next().unwrap(), Ok(true)).unwrap();
    assert_eq!(done.queue_id, 1);
    let step = queue.complete_with(&mut request, UNIT, 40, done.task_tag, 1, done.cqe);
    let verdict = match step {
        CompletionStep::Scsi { verdict, .. } => verdict,
        _ => panic!("a command of a logical unit is judged"),
    };
    let mut budget = Some(token);
    assert_eq!(
        queue.complete_scsi_polled(&mut request, 40, verdict, &mut budget, true),
        PolledAction::Batch
    );
    assert_eq!(budget, None);
    assert_eq!(queue.command_owner(TaskTag(0)), Err(Error::EIO));
    assert_eq!(queue.collect_mcq(1, 33, &mut batch), Err(Error::EINVAL));
}

/// The entry as the controller posts it for a command of one queue.
fn on_queue(entry: CqEntry, queue_id: u64) -> CqEntry {
    CqEntry { command_desc_base_addr: entry.command_desc_base_addr | queue_id, ..entry }
}

#[test]
fn stray_completions_call_for_recovery() {
    let mut queue = mcq_queue();
    let stray = CqEntry { command_desc_base_addr: UCD_BASE + 128, ..cqe(3) };
    queue.mcq[0].load_cq_entry(0, stray).unwrap();
    let mut batch = CompletedRequests::new();
    let collected = queue.collect_mcq(0, 32, &mut batch).map(|_| ());
    assert!(batch.take_next().is_none());
    assert!(!queue.finish_pass(&mut batch, collected, None));
    let cause = queue.recovery.cause().unwrap();
    assert_eq!((cause.scope, cause.tag), (RecoveryScope::Queue(0), 3));
    assert!(matches!(cause.reason, RecoveryReason::InvalidMcqCompletion));
    assert!(queue.take_recovery_due());
    assert!(!queue.take_recovery_due());
}

#[test]
fn nothing_is_submitted_during_recovery() {
    let mut queue = sdb_queue();
    let token = queue.try_get_budget();
    let mut request = UfsRequestInner::default();
    request.prepare_scsi(UfsSCSICmd::flush(0), None).unwrap();
    assert!(matches!(
        queue.submit(&mut request, SDB, token, 1, false, Ok(0)),
        SubmissionOutcome::NotSubmitted(Error::EINVAL)
    ));
    queue.publish_failed(TaskTag(0));
    assert!(queue.recovery_required());
    assert!(matches!(
        queue.submit(&mut request, SDB, token, 0, false, Ok(0)),
        SubmissionOutcome::NotSubmitted(Error::EBUSY)
    ));
    assert!(matches!(
        queue.submit(&mut request, SDB, None, 0, false, Ok(0)),
        SubmissionOutcome::NotSubmitted(Error::EIO)
    ));
}

#[test]
fn overdue_requests_call_for_recovery() {
    let mut queue = sdb_queue();
    let (_, mut request) = submitted(&mut queue, SDB);
    assert!(!queue.timeout(&mut request, 40));
    assert_eq!(queue.recovery.cause().map(|cause| cause.reason.name()), Some("request timeout"));
    assert!(!queue.timeout(&mut request, 41));
    assert_eq!(queue.recovery.cause().map(|cause| cause.tag), Some(40));
    let mut idle = UfsRequestInner::default();
    assert!(queue.timeout(&mut idle, 42));
}

#[test]
fn completions_without_a_request_call_for_recovery() {
    let mut queue = sdb_queue();
    let mut batch = CompletedRequests::new();
    batch.insert(TaskTag(1), 0, None).unwrap();
    assert!(queue.resolve_completion(batch.take_next().unwrap(), Ok(true)).is_none());
    assert_eq!(
        queue.recovery.cause().map(|cause| cause.reason.name()),
        Some("completion request is not shareable")
    );
    let mut queue = sdb_queue();
    submitted(&mut queue, SDB);
    batch.insert(TaskTag(0), 0, None).unwrap();
    assert!(queue.resolve_completion(batch.take_next().unwrap(), Ok(false)).is_none());
    assert_eq!(
        queue.recovery.cause().map(|cause| cause.reason.name()),
        Some("completion tag has no request")
    );
    let mut queue = sdb_queue();
    submitted(&mut queue, SDB);
    batch.insert(TaskTag(0), 1, None).unwrap();
    assert!(queue.resolve_completion(batch.take_next().unwrap(), Ok(true)).is_none());
    assert_eq!(
        queue.recovery.cause().map(|cause| cause.reason.name()),
        Some("completion queue mismatch")
    );
}

#[test]
fn inactive_requests_are_not_completed() {
    let mut queue = sdb_queue();
    let mut request = UfsRequestInner::default();
    let step = queue.complete_with(&mut request, UNIT, 40, TaskTag(0), 0, None);
    assert!(matches!(step, CompletionStep::Retained));
    assert_eq!(
        queue.recovery.cause().map(|cause| cause.reason.name()),
        Some("completion for inactive request")
    );
}

#[test]
fn shared_requests_are_kept() {
    let mut queue = sdb_queue();
    let mut budget = queue.try_get_budget();
    assert_eq!(queue.end_device_request(1, &mut budget, true), CompletionOutcome::Returned);
    assert_eq!(budget, None);
    let mut budget = queue.try_get_budget();
    assert_eq!(budget, Some(0));
    let kept = queue.end_device_request(1, &mut budget, false);
    assert_eq!(budget, None);
    assert!(!queue.put_budget(0));
    assert_eq!(kept, CompletionOutcome::RetainedForRecovery);
    assert!(!kept.returned());
    let verdict = ScsiVerdict { sense: None, report: false, requeue: false, status: 0 };
    let mut request = UfsRequestInner::default();
    let mut budget = queue.try_get_budget();
    assert_eq!(
        queue.complete_scsi(&mut request, 1, verdict, &mut budget),
        CompletionOutcome::RetainedForRecovery
    );
    assert_eq!(
        queue.complete_scsi_polled(&mut request, 1, verdict, &mut budget, false),
        PolledAction::Retained
    );
    assert_eq!(
        queue.complete_scsi_polled(&mut request, 1, verdict, &mut budget, true),
        PolledAction::Retained
    );
    assert_eq!(budget, Some(0));
    request.state = UfsRequestState::Completing;
    let failed = ScsiVerdict { status: 10, ..verdict };
    assert_eq!(
        queue.complete_scsi_polled(&mut request, 1, failed, &mut budget, true),
        PolledAction::End(10)
    );
    assert_eq!(budget, None);
    assert!(!queue.put_budget(0));
}

#[test]
fn device_command_goes_there_and_back() {
    let mut queue = sdb_queue();
    let token = queue.try_get_budget();
    let mut request = UfsRequestInner::default();
    request.prepare_device(UfsDevCmd::nop()).unwrap();
    assert_eq!(queue.compose_dev_request(&request, token, UNIT, SDB, 7), Err(Error::EIO));
    assert_eq!(queue.compose_dev_request(&request, token, DEVICE, SDB, 7), Ok(()));
    assert_eq!(queue.command_owner(TaskTag(0)), Ok(CommandOwner { queue_id: 0, blk_tag: 7 }));
    let outcome = queue.submit(&mut request, SDB, token, 0, false, Ok(0));
    assert!(matches!(outcome, SubmissionOutcome::Submitted(_)));
    queue.dma.load_status(0, 0).unwrap();
    let mut nop_in = Upiu::default();
    nop_in.header.transaction_code = 0x20;
    queue.dma.load_response(0, nop_in).unwrap();
    let step = queue.complete_with(&mut request, DEVICE, 7, TaskTag(0), 0, None);
    assert!(matches!(step, CompletionStep::End { prdt: None, status: 0 }));
    assert!(matches!(request.take_device_completion(), Ok(UfsCmd::Device(UfsDevCmd::Nop))));
}

#[test]
fn only_polled_queues_are_polled() {
    let queue = mcq_queue();
    let hw_queues = queue.hw_queues();
    assert_eq!(queue.check_poll(hw_queues[0]), Err(Error::EINVAL));
    assert_eq!(queue.check_poll(hw_queues[2]), Ok(()));
    assert_eq!(queue.check_poll(SDB), Ok(()));
}

#[test]
fn transfer_errors_call_for_recovery() {
    let mut queue = sdb_queue();
    assert!(irq::handle_transfer(&mut queue, 0x1, None));
    assert!(!queue.recovery_required());
    let bad = UicErrorStatus { phy: 0, data_link: 0, network: 0, transport: 0, dme: 0x8000_0001 };
    assert!(irq::handle_transfer(&mut queue, 0x4, Some(bad)));
    assert!(queue.recovery_required());
    let mut queue = sdb_queue();
    assert!(irq::handle_transfer(&mut queue, 0x1_0000, None));
    assert_eq!(
        queue.recovery.cause().map(|cause| cause.reason.name()),
        Some("transfer error interrupt")
    );
}

#[test]
fn only_the_first_recovery_is_scheduled() {
    let mut queue = mcq_queue();
    queue.require_mcq_recovery(1, 7);
    queue.require_recovery("request timeout", 8);
    let errors = UicErrorStatus { phy: 1, data_link: 0, network: 0, transport: 0, dme: 0 };
    queue.require_uic_recovery(errors);
    assert_eq!(queue.recovery.cause().map(|cause| cause.tag), Some(7));
    assert!(queue.take_recovery_due());
    queue.require_recovery("request timeout", 9);
    assert!(!queue.take_recovery_due());
}
