//! Logical units, the device, the block layer's side and the host.

use rufs::block::dma_map_iter::{DmaMapIter, DmaMapping, IterStep, P2pdmaMap};
use rufs::block::dma_map_single::DetachedStreaming;
use rufs::block::gen_disk::{DiskSetup, GenDisk};
use rufs::block::request::{IdleRequest, Request, RequestInner};
use rufs::block::request_queue::{Feature, LimitsBuilder, RequestQueue};
use rufs::block::{self, BlkError, DataDirection};
use rufs::descriptor::{Desc, DescBuffer, DescIdn, UnitDesc};
use rufs::dev::{self, TmfQueue, UfsDev};
use rufs::error::Error;
use rufs::gpio::OptionalOutput;
use rufs::host::{
    self, Advance, Cleanup, HostFlow, HostState, HostStep, LunScan, PowerStep, TagPlan, UfsHost,
    VectorRequest,
};
use rufs::interconnect::Path;
use rufs::irq::UfsInterruptPolicy;
use rufs::lu::{
    self, Command, HandBack, QueueData, QueueMapEntry, QueueRq, RequestTimeoutStatus, UfsLu,
    UfsLuGeometry, UfsLuState,
};
use rufs::pci::{self, PciVendor, UfsPciPlatform};
use rufs::phy::{Phy, PhyCall, UfsMode};
use rufs::qcom::{self, UfsQcomVariant};
use rufs::prdt::{UfsPrdt, UfsPrdtMapping};
use rufs::query::{AttrIdn, FlagIdn, UfsAttrCmd, UfsCmd, UfsDescCmd, UfsDevCmd, UfsFlagCmd, UfsQueryCmd};
use rufs::reg::{RegOp, UfsReg};
use rufs::request::{CompletionDisposition, UfsRequestInner, UfsRequestState};
use rufs::reset::OptionalExclusive;
use rufs::resource::{self, HostResources};
use rufs::scsi::UfsSCSICmd;
use rufs::transfer::{QueueType, UfsQueueMap, UfsTransferConfig};
use rufs::variant::{self, NotifyPhase, StandardVariant, UfsVariantOps};

const FINE: DiskSetup = DiskSetup { allocated: Ok(()), named: Ok(()), added: Ok(()) };

fn geometry() -> UfsLuGeometry {
    UfsLuGeometry::from_logical_block_shift(12, 100).unwrap()
}

fn unit() -> UfsLu {
    UfsLu::new(2, geometry(), 16)
}

// Geometry.

#[test]
fn geometry_is_checked() {
    let g = UfsLuGeometry::new(4096, 0, 0, 10).unwrap();
    assert_eq!((g.logical_block_size(), g.physical_block_size()), (4096, 4096));
    assert_eq!((g.sectors_per_block(), g.capacity_blocks(), g.alignment()), (8, 10, 0));
    assert!(UfsLuGeometry::new(512, 4096, 0, 10).is_ok());
    assert_eq!(UfsLuGeometry::new(4096, 512, 0, 10), Err(Error::EINVAL));
    assert_eq!(UfsLuGeometry::new(4096, 4096 + 512, 0, 10), Err(Error::EINVAL));
    assert_eq!(UfsLuGeometry::new(0, 0, 0, 10), Err(Error::EINVAL));
    assert_eq!(UfsLuGeometry::new(1000, 0, 0, 10), Err(Error::EINVAL));
    assert_eq!(UfsLuGeometry::from_logical_block_shift(8, 1), Err(Error::EINVAL));
    assert_eq!(UfsLuGeometry::from_logical_block_shift(32, 1), Err(Error::EINVAL));
    let large = UfsLuGeometry::from_logical_block_shift(31, 1).unwrap();
    assert_eq!(large.logical_block_size(), 0x8000_0000);
}

#[test]
fn blocks_sectors_and_bytes() {
    let g = geometry();
    assert_eq!(g.capacity_sectors(), Some(800));
    assert_eq!(g.logical_to_sectors(3), Some(24));
    assert_eq!(g.sectors_to_logical(24), 3);
    assert_eq!(g.logical_to_bytes(3), Some(12288));
    assert_eq!(g.bytes_to_logical(12288), 3);
    assert_eq!(g.logical_to_sectors(u64::MAX), None);
    assert_eq!(g.logical_to_bytes(u64::MAX / 8), None);
    assert_eq!(g.max_discard_sectors(), Ok(0xffff_fff8));
    assert!(lu::is_power_of_two(4096));
    assert!(!lu::is_power_of_two(0));
    assert!(!lu::is_power_of_two(12));
}

// Requests of a logical unit.

fn planned(command: Command, sector: u64, sectors: u32) -> QueueRq {
    lu::queue_rq(Some(&unit()), command, sector, sectors)
}

#[test]
fn aligned_ranges_become_commands() {
    match planned(Command::Read, 16, 8) {
        QueueRq::Scsi(cmd) => {
            assert_eq!(cmd.lun(), 2);
            assert_eq!(cmd.data_len(), 4096);
            assert_eq!(cmd.cdb(), [0x28, 0, 0, 0, 0, 2, 0, 0, 1, 0, 0, 0, 0, 0, 0, 0]);
        }
        _ => panic!("the range is read"),
    }
    match planned(Command::Write, 792, 8) {
        QueueRq::Scsi(cmd) => assert_eq!(cmd.cdb()[0..6], [0x2a, 0, 0, 0, 0, 99]),
        _ => panic!("the range is written"),
    }
    match planned(Command::Discard, 8, 16) {
        QueueRq::Scsi(cmd) => assert_eq!((cmd.unmap_lba(), cmd.unmap_blocks()), (1, 2)),
        _ => panic!("the range is unmapped"),
    }
    match planned(Command::Flush, 0, 0) {
        QueueRq::Scsi(cmd) => assert_eq!(cmd.cdb()[0], 0x35),
        _ => panic!("the cache is flushed"),
    }
}

#[test]
fn other_ranges_are_refused() {
    assert!(matches!(planned(Command::Read, 800, 8), QueueRq::End(19)));
    assert!(matches!(planned(Command::Read, 796, 8), QueueRq::End(19)));
    assert!(matches!(planned(Command::Read, 4, 8), QueueRq::End(19)));
    assert!(matches!(planned(Command::Write, 8, 4), QueueRq::End(19)));
    assert!(matches!(planned(Command::Discard, 12, 8), QueueRq::End(19)));
    assert!(matches!(planned(Command::Read, 16, 0), QueueRq::End(0)));
    assert!(matches!(
        planned(Command::Read, u64::MAX, 8),
        QueueRq::FailError(Error::EINVAL)
    ));
    let huge = UfsLu::new(0, UfsLuGeometry::from_logical_block_shift(12, u64::MAX).unwrap(), 1);
    assert!(matches!(
        lu::queue_rq(Some(&huge), Command::Read, 0, 8),
        QueueRq::FailError(Error::EOVERFLOW)
    ));
}

#[test]
fn other_operations() {
    assert!(matches!(planned(Command::DriverIn, 0, 0), QueueRq::Device));
    assert!(matches!(lu::queue_rq(None, Command::DriverOut, 0, 0), QueueRq::Device));
    assert!(matches!(planned(Command::Other(13), 0, 0), QueueRq::End(1)));
    assert!(matches!(lu::queue_rq(None, Command::Read, 0, 8), QueueRq::FailStatus(10)));
    assert!(matches!(lu::queue_rq(None, Command::Flush, 0, 8), QueueRq::FailStatus(10)));
}

#[test]
fn long_ranges_do_not_fit_a_command() {
    let unit = unit();
    assert_eq!(
        unit.build_scsi_cmd(Command::Read, 0, 0x1_0000_0000).unwrap_err(),
        Error::EINVAL
    );
    assert_eq!(unit.build_scsi_cmd(Command::Read, 0, 0x10_0000).unwrap_err(), Error::EOVERFLOW);
    assert!(unit.build_scsi_cmd(Command::Read, 0, 0xf_ffff).is_ok());
}

#[test]
fn unsubmitted_requests_go_back() {
    let mut request = UfsRequestInner::default();
    let table = UfsPrdt::for_unmap(Some(0x9000)).ok().unwrap();
    request.prepare_scsi(UfsSCSICmd::unmap(0, 1, 1), table.into_mapping()).unwrap();
    let (how, mapping) = lu::complete_unsubmitted(&mut request, Error::EBUSY);
    assert_eq!(how, HandBack::Requeue);
    assert!(matches!(mapping, Some(UfsPrdtMapping::Unmap(_))));
    assert!(matches!(request.state, UfsRequestState::Idle));
    let (how, mapping) = lu::complete_unsubmitted(&mut request, Error::EIO);
    assert_eq!(how, HandBack::End(10));
    assert!(mapping.is_none());
    let (how, _) = lu::complete_unsubmitted(&mut request, Error::Errno(-16));
    assert_eq!(how, HandBack::Requeue);
    let (how, _) = lu::complete_unsubmitted(&mut request, Error::Errno(-17));
    assert_eq!(how, HandBack::End(10));
}

#[test]
fn scheduled_requests_go_back() {
    let mut request = UfsRequestInner::default();
    assert_eq!(lu::complete(&mut request), Err(Error::EIO));
    request.state = UfsRequestState::CompletionReady(CompletionDisposition::Requeue);
    assert_eq!(lu::complete(&mut request), Ok(HandBack::Requeue));
    request.state = UfsRequestState::CompletionReady(CompletionDisposition::End(300));
    assert_eq!(lu::complete(&mut request), Ok(HandBack::End(10)));
    request.state = UfsRequestState::CompletionReady(CompletionDisposition::End(5));
    assert_eq!(lu::complete(&mut request), Ok(HandBack::End(5)));
}

#[test]
fn timeouts_and_polls() {
    assert_eq!(lu::request_timeout(None), RequestTimeoutStatus::Completed);
    assert_eq!(lu::request_timeout(Some(true)), RequestTimeoutStatus::Completed);
    assert_eq!(lu::request_timeout(Some(false)), RequestTimeoutStatus::RetryLater);
    assert_eq!(lu::poll_target(QueueData::Lu(4)), Ok(4));
    assert_eq!(lu::poll_target(QueueData::Dev), Err(Error::EIO));
}

#[test]
fn queue_maps_accumulate() {
    let map = UfsQueueMap::new(6, 3, 2, 1).unwrap();
    let entry = |kind, count, offset| QueueMapEntry { kind, count, offset };
    assert_eq!(
        lu::map_queues(&map),
        [
            entry(QueueType::Default, 3, 0),
            entry(QueueType::Read, 2, 3),
            entry(QueueType::Poll, 1, 5),
        ]
    );
}

#[test]
fn single_doorbell_is_polled_too() {
    let map = UfsTransferConfig::Sdb { tag_count: 32 }.queue_map().unwrap();
    let entry = |kind, count, offset| QueueMapEntry { kind, count, offset };
    assert_eq!(
        lu::map_queues(&map),
        [
            entry(QueueType::Default, 1, 0),
            entry(QueueType::Read, 0, 0),
            entry(QueueType::Poll, 1, 0),
        ]
    );
}

#[test]
fn disks_are_set_up_once() {
    let mut unit = unit();
    assert_eq!(unit.init_disk(Err(Error::ENOMEM), FINE), Err(Error::ENOMEM));
    let unnamed = DiskSetup { named: Err(Error::EINVAL), ..FINE };
    assert_eq!(unit.init_disk(Ok(()), unnamed), Err(Error::EINVAL));
    assert_eq!(unit.state(), UfsLuState::Reset);
    assert_eq!(unit.init_disk(Ok(()), FINE), Ok(()));
    assert!(unit.is_operational());
    assert_eq!(unit.init_disk(Ok(()), FINE), Err(Error::EBUSY));
    let disk = unit.remove_disk().unwrap();
    assert_eq!(disk.0.capacity(), 800);
    assert!(!disk.0.queue().stopped());
    let (pending, sectors) = unit.prepare_disk().ok().unwrap();
    assert_eq!((pending.depth(), sectors), (disk.0.queue().depth(), 800));
    assert_eq!(pending.limits(), disk.0.queue().limits());
    assert_eq!(*disk.0.queue().queue_data(), QueueData::Lu(2));
    let limits = disk.0.queue().limits();
    assert_eq!((limits.logical_block_size, limits.discard_granularity), (4096, 4096));
    assert_eq!((limits.max_segments, limits.max_segment_size), (256, 0x4_0000));
    assert_eq!((limits.max_hw_sectors, limits.max_discard_segments), (2048, 1));
    assert_eq!(limits.max_hw_discard_sectors, 0xffff_fff8);
    assert!(!unit.is_operational());
    assert!(unit.remove_disk().is_none());
}

#[test]
fn impossible_disks_are_refused() {
    let mut huge =
        UfsLu::new(0, UfsLuGeometry::from_logical_block_shift(12, u64::MAX).unwrap(), 1);
    assert_eq!(huge.init_disk(Ok(()), FINE), Err(Error::EOVERFLOW));
    assert_eq!(huge.prepare_disk().err(), Some(Error::EOVERFLOW));
    let mut coarse = UfsLu::new(0, UfsLuGeometry::from_logical_block_shift(13, 1).unwrap(), 1);
    assert_eq!(coarse.init_disk(Ok(()), FINE), Err(Error::EINVAL));
    let mut shallow = UfsLu::new(0, geometry(), 0);
    assert_eq!(shallow.init_disk(Ok(()), FINE), Err(Error::EINVAL));
    assert_eq!(shallow.prepare_disk().err(), Some(Error::EINVAL));
}

// The block layer's side.

#[test]
fn block_sizes_are_powers_of_two() {
    for size in [512, 1024, 2048, 4096] {
        assert_eq!(LimitsBuilder::validate_block_size(size), Ok(()));
    }
    for size in [0, 256, 513, 3072, 8192] {
        assert_eq!(LimitsBuilder::validate_block_size(size), Err(Error::EINVAL));
    }
}

#[test]
fn limits_are_built() {
    let limits = LimitsBuilder::new()
        .logical_block_size(4096)
        .unwrap()
        .rotational(true)
        .write_cache(true)
        .forced_unit_access(true)
        .max_sectors(7)
        .virt_boundary_mask(0xfff)
        .zone_size(64)
        .build(false)
        .unwrap();
    assert_eq!(limits.logical_block_size, 4096);
    assert!(limits.features().contains(Feature::Rotational));
    assert!(limits.features().contains(Feature::WriteCache));
    assert!(limits.features().contains(Feature::ForcedUnitAccess));
    assert!(!limits.features().contains(Feature::Zoned));
    assert_eq!((limits.max_sectors, limits.virt_boundary_mask), (7, 0xfff));
    assert_eq!(limits.chunk_sectors, 0);
    assert_eq!(LimitsBuilder::new().logical_block_size(100), Err(Error::EINVAL));
    assert_eq!(LimitsBuilder::new().physical_block_size(100), Err(Error::EINVAL));
}

#[test]
fn discards_are_as_coarse_as_the_physical_blocks() {
    let builder = LimitsBuilder::new().discard_granularity(0).physical_block_size(1024).unwrap();
    let limits = builder.build(false).unwrap();
    assert_eq!((limits.discard_granularity, limits.discard_granularity()), (0, 1024));
    let limits = builder.discard_granularity(2048).build(false).unwrap();
    assert_eq!(limits.discard_granularity(), 2048);
}

#[test]
fn zones_need_a_report() {
    let zoned = LimitsBuilder::new().zoned(true).zone_size(64).zone_append_max(32);
    assert_eq!(zoned.build(false), Err(Error::EINVAL));
    let limits = zoned.build(true).unwrap();
    assert_eq!((limits.chunk_sectors, limits.max_hw_zone_append_sectors), (64, 32));
    let pending = || RequestQueue::prepare(limits, 1u8, 4).ok().unwrap();
    let (disk, revalidate) = GenDisk::new(pending(), 2u8, 100, Ok(()), FINE).ok().unwrap();
    assert!(revalidate);
    assert_eq!((*disk.0.queue().queue_data(), *disk.0.disk_data()), (1, 2));
    assert_eq!(
        GenDisk::new(pending(), 2u8, 100, Err(Error::ENOMEM), FINE).err(),
        Some(Error::ENOMEM)
    );
    let full = DiskSetup { added: Err(Error::EBUSY), ..FINE };
    assert_eq!(GenDisk::new(pending(), 2u8, 100, Ok(()), full).err(), Some(Error::EBUSY));
}

#[test]
fn queues_are_allocated() {
    let limits = LimitsBuilder::new().build(false).unwrap();
    let pending = || RequestQueue::prepare(limits, 7u32, 4).ok().unwrap();
    assert_eq!(pending().depth(), 4);
    let mut queue = RequestQueue::new(pending(), Ok(())).ok().unwrap();
    assert_eq!(queue.0.depth(), 4);
    assert!(!queue.0.stopped());
    assert_eq!(*queue.0.queue_data(), 7);
    assert_eq!(*queue.0.limits(), limits);
    queue.0.stop_hw_queues();
    assert!(queue.0.stopped());
    queue.0.start_stopped_hw_queues_async();
    assert!(!queue.0.stopped());
    assert_eq!(RequestQueue::prepare(limits, 7u32, 0).err(), Some(Error::EINVAL));
    assert_eq!(RequestQueue::new(pending(), Err(Error::ENOMEM)).err(), Some(Error::ENOMEM));
}

#[test]
fn requests_are_owned_and_shared() {
    let inner = RequestInner { cmd_flags: 0x0102_0301, sector: 16, data_len: 4096 };
    let idle = IdleRequest::from_raw(inner, 5u8);
    let owned = IdleRequest::start(idle);
    assert!(owned.0.started);
    assert_eq!(owned.0.command(), 1);
    assert_eq!((owned.0.inner.sector(), owned.0.inner.sectors()), (16, 8));
    assert_eq!(owned.0.inner.bytes(), 4096);
    let mut shared = owned.into_shared();
    shared.inc_ref();
    assert!(!shared.try_from_shared());
    shared.dec_ref();
    assert!(shared.try_from_shared());
    assert!(Request::<u8>::complete(false));
    assert!(!Request::<u8>::complete(true));
    let ended = IdleRequest::start(IdleRequest::from_raw(inner, 5u8)).end(10);
    assert_eq!(ended.status, 10);
    let ended = IdleRequest::start(IdleRequest::from_raw(inner, 5u8)).end_ok();
    assert_eq!(ended.status, 0);
    assert_eq!(block::end_status(300), 10);
    assert_eq!(block::end_status(9), 9);
}

fn segment(address: u64, length: u32) -> IterStep {
    IterStep { ok: true, status: 0, address, length, map_type: P2pdmaMap::NotPeer }
}

#[test]
fn mapped_segments_are_released() {
    let start = segment(0x1000, 512);
    let mut iter = DmaMapIter::<2>::new(DataDirection::FromDevice, true, start).ok().unwrap();
    assert_eq!((iter.address(), iter.length()), (0x1000, 512));
    assert!(iter.has_room().is_ok());
    assert!(iter.next(segment(0x3000, 1024)).is_ok());
    assert_eq!(iter.mapped_length(), 1536);
    assert!(iter.has_room().is_err());
    assert!(iter.next(segment(0x5000, 512)).is_err());
    let mapped = iter.finish();
    let whole = mapped.whole();
    assert_eq!((whole.length, whole.map_type), (1536, P2pdmaMap::NotPeer));
    assert_eq!(whole.direction, DataDirection::FromDevice);
    let plan = mapped.release(false).unwrap();
    assert_eq!(plan.vectors.len(), 2);
    assert_eq!((plan.vectors[1].address, plan.vectors[1].length), (0x3000, 1024));
    assert_eq!(plan.direction, DataDirection::FromDevice);
    assert!(!plan.mmio);
}

#[test]
fn segments_add_up() {
    let mut mapping = DmaMapping::<2>::new(DataDirection::ToDevice);
    assert_eq!(mapping.mapped_length(), 0);
    mapping.add_vector(0x10, 4);
    mapping.add_vector(0x20, 8);
    assert_eq!(mapping.mapped_length(), 12);
    assert_eq!((mapping.whole().length, mapping.whole().map_type), (12, P2pdmaMap::Unknown));
    let plan = mapping.release(false).unwrap();
    assert_eq!((plan.vectors[0].address, plan.vectors[1].address), (0x10, 0x20));
}

#[test]
fn mapping_failures_have_a_status() {
    let failed = IterStep { ok: false, status: 9, ..segment(0, 0) };
    let error = DmaMapIter::<2>::new(DataDirection::ToDevice, true, failed).err().unwrap();
    assert_eq!(error, BlkError { status: 9 });
    let error =
        DmaMapIter::<2>::new(DataDirection::ToDevice, false, segment(0, 4)).err().unwrap();
    assert_eq!(error, BlkError { status: 9 });
    assert_eq!(DmaMapIter::<2>::may_start(false), Err(BlkError { status: 9 }));
    assert_eq!(DmaMapIter::<0>::may_start(true), Err(BlkError { status: 9 }));
    assert_eq!(DmaMapIter::<2>::may_start(true), Ok(()));
    let iter = DmaMapIter::<2>::new(DataDirection::ToDevice, true, segment(0, 4)).ok().unwrap();
    assert!(iter.finish().release(true).is_none());
}

#[test]
fn single_mappings_come_back() {
    let streaming =
        DetachedStreaming::new(vec![1u8, 2], 2, DataDirection::ToDevice, Ok(0x77)).ok().unwrap();
    assert_eq!(streaming.size(), 2);
    let in_flight = streaming.submit();
    assert_eq!((in_flight.dma_handle(), in_flight.size()), (0x77, 2));
    assert_eq!(in_flight.complete().into_inner(), vec![1, 2]);
    assert_eq!(
        DetachedStreaming::new(0u8, 1, DataDirection::ToDevice, Err(Error::ENOMEM)).err(),
        Some(Error::ENOMEM)
    );
}

// The device.

fn desc_answer(idn: DescIdn, code: u8, data: [u8; 255]) -> UfsCmd {
    let desc = Desc::from_buffer(code, DescBuffer { data });
    UfsCmd::Device(UfsDevCmd::Query(UfsQueryCmd::ReadDesc(UfsDescCmd {
        desc,
        ..UfsDescCmd::build(idn, 0, 0)
    })))
}

#[test]
fn device_parameters_are_read() {
    let mut device = UfsDev::new(1, Ok(())).ok().unwrap();
    let mut data = [0u8; 255];
    data[12] = 1;
    assert_eq!(device.get_geometry_info(&desc_answer(DescIdn::Geometry, 7, data)), Ok(()));
    assert_eq!(device.info.max_lu, 32);
    data[12] = 0;
    assert_eq!(device.get_geometry_info(&desc_answer(DescIdn::Geometry, 7, data)), Ok(()));
    assert_eq!(device.info.max_lu, 8);
    let mut data = [0u8; 255];
    data[6] = 3;
    data[7] = 4;
    data[16..18].copy_from_slice(&[0x04, 0x00]);
    data[24..26].copy_from_slice(&[0x01, 0xce]);
    assert_eq!(device.get_device_info(&desc_answer(DescIdn::Device, 0, data)), Ok(()));
    assert_eq!(device.num_lu(), 3);
    assert_eq!((device.info.num_wlu, device.info.luns_avail), (4, 7));
    assert_eq!((device.info.spec_version, device.info.manufacturer_id), (0x0400, 0x01ce));
    assert_eq!(
        device.get_device_info(&desc_answer(DescIdn::Unit, 2, data)),
        Err(Error::EINVAL)
    );
    assert_eq!(device.get_geometry_info(&UfsDevCmd::nop()), Err(Error::EINVAL));
    assert_eq!(UfsDev::new(1, Err(Error::ENOMEM)).err(), Some(Error::ENOMEM));
    assert_eq!(UfsDev::prepare_queue(0).err(), Some(Error::EINVAL));
    assert_eq!(UfsDev::prepare_queue(1).ok().unwrap().depth(), 1);
}

#[test]
fn answers_are_read() {
    let attr = |value| {
        UfsCmd::Device(UfsDevCmd::Query(UfsQueryCmd::WriteAttr(UfsAttrCmd::build(
            AttrIdn::PowerMode,
            0,
            0,
            value,
        ))))
    };
    assert_eq!(dev::write_attr(&attr(5), 5), Ok(()));
    assert_eq!(dev::write_attr(&attr(5), 6), Err(Error::EIO));
    assert_eq!(dev::read_attr(&attr(5)), Ok(5));
    assert_eq!(dev::read_flag(&attr(5)), Err(Error::EINVAL));
    assert!(dev::read_desc(&attr(5)).is_err());
    let flag = UfsFlagCmd { value: 1, ..UfsFlagCmd::build(FlagIdn::FDeviceInit, 0, 0) };
    let flag = UfsCmd::Device(UfsDevCmd::Query(UfsQueryCmd::ReadFlag(flag)));
    assert_eq!(dev::read_flag(&flag), Ok(1));
    assert!(dev::read_unit_desc(&desc_answer(DescIdn::Unit, 2, [0; 255])).is_ok());
    assert_eq!(
        dev::read_unit_desc(&desc_answer(DescIdn::Device, 0, [0; 255])).unwrap_err(),
        Error::EINVAL
    );
}

#[test]
fn device_initialization_is_awaited() {
    assert!(dev::init_done(0));
    assert!(!dev::init_done(1));
    assert_eq!(dev::complete_dev_init(Ok(0)), Ok(()));
    assert_eq!(dev::complete_dev_init(Err(Error::ETIMEDOUT)), Err(Error::EBUSY));
    assert_eq!(dev::complete_dev_init(Err(Error::Errno(-110))), Err(Error::EBUSY));
    assert_eq!(dev::complete_dev_init(Err(Error::EIO)), Err(Error::EIO));
    assert!(Error::Errno(-5).same_as(Error::EIO));
    assert!(!Error::EIO.same_as(Error::EINVAL));
}

#[test]
fn device_commands_are_submitted() {
    let mut request = UfsRequestInner::default();
    assert_eq!(
        dev::begin_submit(&mut request, UfsCmd::SCSI(UfsSCSICmd::flush(0))),
        Err(Error::EINVAL)
    );
    assert_eq!(dev::begin_submit(&mut request, dev::verify_cmd()), Ok(()));
    assert_eq!(
        dev::finish_submit(&mut request, Err(Error::ETIMEDOUT)).unwrap_err(),
        Error::ETIMEDOUT
    );
    assert_eq!(dev::finish_submit(&mut request, Ok(())).unwrap_err(), Error::EIO);
    request.state = UfsRequestState::DeviceComplete(UfsDevCmd::Nop);
    assert!(matches!(
        dev::finish_submit(&mut request, Ok(())),
        Ok(UfsCmd::Device(UfsDevCmd::Nop))
    ));
}

#[test]
fn task_management_queue_is_set_up() {
    assert!(TmfQueue::new(8, Ok(()), Ok(())).is_ok());
    assert_eq!(TmfQueue::new(0, Ok(()), Ok(())).err(), Some(Error::EINVAL));
    assert_eq!(TmfQueue::new(0x1_0000_0000, Ok(()), Ok(())).err(), Some(Error::EINVAL));
    assert_eq!(TmfQueue::new(8, Err(Error::ENOMEM), Ok(())).err(), Some(Error::ENOMEM));
    assert_eq!(TmfQueue::new(8, Ok(()), Err(Error::EIO)).err(), Some(Error::EIO));
    assert_eq!(TmfQueue::prepare(0, Ok(())).err(), Some(Error::EINVAL));
    assert_eq!(TmfQueue::prepare(8, Err(Error::ENOMEM)).err(), Some(Error::ENOMEM));
    assert_eq!(TmfQueue::prepare(8, Ok(())).ok().unwrap().depth(), 8);
    let mut device = UfsDev::new(1, Ok(())).ok().unwrap();
    assert_eq!(device.tmf_tags(8), Ok(8));
    assert_eq!(device.tmf_tags(0x1_0000_0000), Err(Error::EINVAL));
    assert_eq!(device.alloc_tmf_queue(8, Ok(()), Ok(())), Ok(()));
    assert!(!device.tmf_queue.as_ref().unwrap().queue.0.stopped());
    assert_eq!(device.tmf_tags(8), Err(Error::EBUSY));
}

// The host.

fn run(flow: HostFlow, ctrl_enabled: bool, mcq: bool) -> Vec<HostStep> {
    let mut steps = vec![HostStep::MapRegisters];
    loop {
        let step = steps[steps.len() - 1];
        if step == HostStep::Done {
            return steps;
        }
        match host::advance(flow, step, Ok(()), ctrl_enabled, mcq) {
            Advance::Next(next) => steps.push(next),
            Advance::Failed { .. } => panic!("no step fails"),
        }
    }
}

#[test]
fn pci_device_is_brought_up_in_order() {
    let steps = run(HostFlow::Pci, true, true);
    assert_eq!(steps.len(), 24);
    let at = |step: HostStep| steps.iter().position(|s| *s == step).unwrap();
    assert!(at(HostStep::StopController) < at(HostStep::EnableController));
    assert!(at(HostStep::EnableController) < at(HostStep::StartLink));
    assert!(at(HostStep::StartLink) < at(HostStep::MakeOperational));
    assert!(at(HostStep::MakeOperational) < at(HostStep::EnableMcq));
    assert!(at(HostStep::EnableMcq) < at(HostStep::VerifyDevice));
    assert!(at(HostStep::ReadParams) < at(HostStep::AllocLuns));
    let steps = run(HostFlow::Pci, false, false);
    assert_eq!(steps.len(), 22);
    assert!(!steps.contains(&HostStep::StopController));
    assert!(!steps.contains(&HostStep::EnableMcq));
}

#[test]
fn frontend_device_is_brought_up_in_order() {
    let steps = run(HostFlow::Resources, true, true);
    assert_eq!(steps.len(), 25);
    assert_eq!(
        steps[6..11],
        [
            HostStep::StopController,
            HostStep::NotifyEnablePre,
            HostStep::EnableController,
            HostStep::NotifyEnablePost,
            HostStep::RequestIrq,
        ]
    );
    assert_eq!(run(HostFlow::Resources, false, true).len(), 24);
}

#[test]
fn failures_are_cleaned_up() {
    let failed = |flow, step| host::advance(flow, step, Err(Error::EIO), false, true);
    let error = Error::EIO;
    assert_eq!(
        failed(HostFlow::Pci, HostStep::MapRegisters),
        Advance::Failed { error, cleanup: Cleanup::Nothing }
    );
    assert_eq!(
        failed(HostFlow::Pci, HostStep::StartLink),
        Advance::Failed { error, cleanup: Cleanup::RemoveHost }
    );
    assert_eq!(
        failed(HostFlow::Resources, HostStep::StartLink),
        Advance::Failed { error, cleanup: Cleanup::StopController }
    );
    assert_eq!(
        failed(HostFlow::Resources, HostStep::AttachQueue),
        Advance::Failed { error, cleanup: Cleanup::RemoveHost }
    );
    assert_eq!(
        failed(HostFlow::Pci, HostStep::SetPowerMode),
        Advance::Failed { error, cleanup: Cleanup::RemoveHost }
    );
    assert_eq!(
        failed(HostFlow::Resources, HostStep::SetPowerMode),
        Advance::Next(HostStep::AllocLuns)
    );
    assert_eq!(
        failed(HostFlow::Pci, HostStep::EnableMcq),
        Advance::Next(HostStep::AllocDevRequest)
    );
    assert_eq!(
        failed(HostFlow::Pci, HostStep::PlanIrqVectors),
        Advance::Next(HostStep::AllocIrqVectors)
    );
}

#[test]
fn interrupt_vectors_are_planned() {
    assert_eq!(host::requested_irq_vectors(Ok(5)), 5);
    assert_eq!(host::requested_irq_vectors(Err(Error::EINVAL)), 1);
    assert_eq!(host::requested_irq_vectors(Ok(0x1_0000_0000)), 1);
    let single = VectorRequest { min: 1, max: 1, msi_only: false };
    assert_eq!(
        host::vector_requests(5),
        vec![VectorRequest { min: 5, max: 5, msi_only: true }, single]
    );
    assert_eq!(host::vector_requests(1), vec![single]);
    assert_eq!(host::vector_requests(0), vec![single]);
    assert_eq!(host::allocated_irq_vectors(2, 6), Ok(5));
    assert_eq!(host::allocated_irq_vectors(6, 2), Err(Error::EINVAL));
}

#[test]
fn interrupt_policy_follows_the_transfers() {
    let sdb = UfsTransferConfig::Sdb { tag_count: 32 };
    assert_eq!(host::interrupt_policy(&sdb), UfsInterruptPolicy::EagerAck);
    let mcq = UfsTransferConfig::new(&UfsReg { cap: 0x4000_001f, mcq_cap: 3 }, 2).unwrap();
    assert_eq!(host::interrupt_policy(&mcq), UfsInterruptPolicy::ThreadedAck);
}

fn write(offset: usize, value: u32) -> RegOp {
    RegOp::Write { offset, value }
}

const DISABLED: RegOp =
    RegOp::Poll { offset: 0x34, mask: 1, value: 0, interval_us: 10, timeout_us: 1000 };

#[test]
fn controller_is_stopped() {
    assert_eq!(
        host::stop_hba_controller(),
        vec![
            RegOp::Guard { offset: 0x34, bits: 1 },
            write(0x24, 0),
            RegOp::WriteBack { offset: 0x20 },
            write(0x60, 0),
            write(0x80, 0),
            write(0x34, 0),
            DISABLED,
        ]
    );
    assert_eq!(host::enable_controller(), RegOp::SetBits { offset: 0x34, bits: 1 });
    assert_eq!(
        host::await_controller(),
        RegOp::Poll { offset: 0x34, mask: 1, value: 1, interval_us: 1000, timeout_us: 50_000 }
    );
}

#[test]
fn tags_are_spread_over_the_queues() {
    let map = UfsQueueMap::new(3, 2, 0, 1).unwrap();
    assert_eq!(
        host::plan_tags(32, &map),
        Ok(TagPlan { nr_hw_queues: 3, hw_queue_depth: 10, num_maps: 3, total_block_tags: 31 })
    );
    assert_eq!(host::plan_tags(0, &map), Err(Error::EINVAL));
    assert_eq!(host::plan_tags(1, &map), Err(Error::EINVAL));
    assert_eq!(host::plan_tags(3, &map), Err(Error::EINVAL));
    assert_eq!(host::plan_tags(0x3_0000_0001 * 3, &map), Err(Error::EOVERFLOW));
    assert_eq!(
        host::plan_shared_tags(32, &map),
        Ok(TagPlan { nr_hw_queues: 3, hw_queue_depth: 32, num_maps: 3, total_block_tags: 32 })
    );
    assert_eq!(host::plan_shared_tags(0, &map), Err(Error::EINVAL));
    assert_eq!(host::plan_shared_tags(0x1_0000_0000, &map), Err(Error::EOVERFLOW));
}

fn unit_desc(enabled: u8, shift: u8, depth: u8) -> UnitDesc {
    let mut data = [0u8; 255];
    data[3] = enabled;
    data[6] = depth;
    data[10] = shift;
    data[18] = 100;
    UnitDesc::from_buffer(DescBuffer { data })
}

#[test]
fn logical_units_are_scanned() {
    let mut scan = LunScan::new(3);
    assert_eq!(scan.current(), Ok(Some(0)));
    assert!(matches!(scan.visit(&unit_desc(0, 12, 0), 31), Ok(None)));
    let lu = scan.visit(&unit_desc(1, 12, 0), 31).ok().unwrap().unwrap();
    assert_eq!((lu.lun(), lu.queue_depth), (1, 31));
    assert_eq!(lu.geometry().capacity_blocks(), 100);
    assert_eq!(scan.visit(&unit_desc(1, 8, 0), 31).err(), Some(Error::EINVAL));
    assert_eq!(scan.current(), Ok(Some(2)));
    let lu = scan.visit(&unit_desc(2, 9, 8), 31).ok().unwrap().unwrap();
    assert_eq!((lu.lun(), lu.queue_depth), (2, 8));
    assert_eq!(scan.current(), Ok(None));
    let mut scan = LunScan::new(1);
    let lu = scan.visit(&unit_desc(1, 9, 200), 31).ok().unwrap().unwrap();
    assert_eq!(lu.queue_depth, 31);
    assert_eq!(LunScan { lun: 256, num_lu: 300 }.current(), Err(Error::EOVERFLOW));
}

#[test]
fn power_mode_is_changed_step_by_step() {
    let mut step = PowerStep::FindMode;
    let mut steps = 0;
    while step != PowerStep::Done {
        assert_eq!(step.configure_power_mode(Err(Error::EIO)), Err(Error::EIO));
        step = step.configure_power_mode(Ok(())).unwrap();
        steps += 1;
    }
    assert_eq!(steps, 5);
}

#[test]
fn hosts_are_removed() {
    let mut host = UfsHost::new(HostFlow::Resources);
    assert_eq!(host.state(), HostState::Reset);
    host.promote_to_operational();
    assert_eq!(host.state(), HostState::Operational);
    host.enter_eh_nonfatal();
    assert_eq!(host.state(), HostState::EhNonFatal);
    host.enter_eh_fatal();
    assert_eq!(host.state(), HostState::EhFatal);
    host.enter_error();
    assert_eq!(host.state(), HostState::Error);
    host.set_state(HostState::Operational);
    let mut lu = unit();
    lu.init_disk(Ok(()), FINE).unwrap();
    host.add_lun(lu);
    host.add_lun(unit());
    let removal = host.remove();
    assert_eq!(removal.disks.len(), 2);
    assert!(removal.disks[0].is_some());
    assert!(removal.disks[1].is_none());
    assert_eq!(removal.ops, host::stop_hba_controller());
    assert!(host.luns.is_empty());
    assert_eq!(host.state(), HostState::Reset);
    let mut host = UfsHost::new(HostFlow::Pci);
    assert_eq!(host.remove().ops, host::stop_hba_controller()[1..]);
    host.promote_to_operational();
    assert_eq!(host.hba_stop().len(), 6);
    assert_eq!(host.state(), HostState::Reset);
}

// Frontends.

#[test]
fn pci_devices_have_a_platform() {
    assert_eq!(pci::platform_of(PciVendor::Redhat, 0x0013), Some(UfsPciPlatform::Qemu));
    assert_eq!(pci::platform_of(PciVendor::Samsung, 0xc00c), Some(UfsPciPlatform::Samsung));
    assert_eq!(pci::platform_of(PciVendor::Intel, 0x4b43), Some(UfsPciPlatform::IntelEhl));
    assert_eq!(pci::platform_of(PciVendor::Intel, 0xd335), Some(UfsPciPlatform::IntelMtl));
    assert_eq!(pci::platform_of(PciVendor::Intel, 0x0013), None);
    assert_eq!(pci::device_table().len(), 14);
    assert_eq!(UfsPciPlatform::IntelAdl.name(), "intel-adl");
    assert_eq!(UfsPciPlatform::Qemu.name(), "qemu");
}

#[test]
fn qualcomm_controllers_are_matched_only() {
    let table = qcom::compatible_table();
    assert_eq!(table.len(), 4);
    assert_eq!(table[0].compatible, "qcom,ufshc");
    assert_eq!(table[2].variant, UfsQcomVariant::Sm8550);
    assert_eq!(qcom::probe(Some(UfsQcomVariant::Sm8550)), Err(Error::ENODEV));
    assert_eq!(qcom::probe(None), Err(Error::ENODEV));
}

#[test]
fn resources_are_handed_over() {
    assert_eq!(resource::from_platform(Some(3u8)), Ok(3));
    assert_eq!(resource::from_platform::<u8>(None), Err(Error::ENODEV));
    let with = HostResources::new(1u8, Some(2u8), StandardVariant);
    assert_eq!((*with.hci_access(), *with.mcq_access().unwrap()), (1, 2));
    let without = HostResources::new(1u8, None::<u8>, StandardVariant);
    assert_eq!(without.mcq_access(), Err(Error::ENODEV));
    assert_eq!(*without.variant(), StandardVariant);
}

#[test]
fn standard_variant_changes_nothing() {
    let reg = UfsReg { cap: 0, mcq_cap: 0 };
    let ops: &dyn UfsVariantOps<u32> = &StandardVariant;
    assert_eq!(ops.initialize(&reg), Ok(()));
    assert_eq!(ops.hce_enable_notify(&reg, NotifyPhase::Pre), Ok(()));
    assert_eq!(ops.link_startup_notify(&reg, NotifyPhase::Post), Ok(()));
    assert_eq!(ops.constrain_power_mode(4), Ok(4));
    assert_eq!(ops.power_mode_notify(&reg, &4, NotifyPhase::Post), Ok(()));
    ops.shutdown(&reg);
    assert_eq!(variant::select_power_mode(&StandardVariant, Ok(4u32)), Ok(4));
    assert_eq!(
        variant::select_power_mode::<u32, _>(&StandardVariant, Err(Error::EIO)),
        Err(Error::EIO)
    );
}

#[test]
fn phy_is_shut_down_as_it_was_brought_up() {
    assert_eq!(Phy::get(Err(Error::ENODEV)), Err(Error::ENODEV));
    let mut phy = Phy::get(Ok(())).unwrap();
    assert_eq!(phy.shutdown(), vec![]);
    assert_eq!(phy.init(-5), Err(Error::EIO));
    assert_eq!(phy.init(0), Ok(()));
    assert_eq!(phy.power_on(-110), Err(Error::ETIMEDOUT));
    assert_eq!(phy.calibrate(0), Ok(()));
    assert_eq!(phy.calibrate(-22), Err(Error::EINVAL));
    assert!(Phy::rate_b(UfsMode::HighSpeedB));
    assert!(!Phy::rate_b(UfsMode::HighSpeedA));
    assert_eq!(phy.set_ufs_mode(0), Ok(()));
    assert_eq!(phy.set_ufs_mode(-5), Err(Error::EIO));
    assert_eq!(phy.shutdown(), vec![PhyCall::Exit]);
    assert_eq!(phy.shutdown(), vec![]);
    assert_eq!(phy.init(0), Ok(()));
    assert_eq!(phy.power_on(0), Ok(()));
    assert_eq!(phy.shutdown(), vec![PhyCall::PowerOff, PhyCall::Exit]);
}

#[test]
fn bandwidth_is_voted() {
    assert_eq!(Path::get(Err(Error::ENODEV)), Err(Error::ENODEV));
    let mut path = Path::get(Ok(())).unwrap();
    assert_eq!(path.set_bw(10, 20, 0), Ok(()));
    assert_eq!(path, Path { average: 10, peak: 20 });
    assert_eq!(path.set_bw(30, 40, -22), Err(Error::EINVAL));
    assert_eq!(path, Path { average: 10, peak: 20 });
    assert_eq!(path.release(), (0, 0));
}

#[test]
fn optional_lines_may_be_missing() {
    assert_eq!(OptionalOutput::get(Err(Error::EBUSY)), Err(Error::EBUSY));
    let output = OptionalOutput::get(Ok(true)).unwrap();
    assert!(output.is_present());
    assert_eq!((output.value_to_set(true), output.value_to_set(false)), (Some(1), Some(0)));
    assert_eq!(output.set_value(0), Ok(()));
    assert_eq!(output.set_value(-5), Err(Error::EIO));
    let missing = OptionalOutput::get(Ok(false)).unwrap();
    assert_eq!(missing.value_to_set(true), None);
    assert_eq!(missing.set_value(-5), Ok(()));
    assert_eq!(OptionalExclusive::get(Err(Error::EBUSY)), Err(Error::EBUSY));
    let reset = OptionalExclusive::get(Ok(true)).unwrap();
    assert!(reset.is_present());
    assert_eq!(reset.assert_line(-5), Err(Error::EIO));
    assert_eq!(reset.deassert(0), Ok(()));
    let missing = OptionalExclusive::get(Ok(false)).unwrap();
    assert_eq!((missing.assert_line(-5), missing.deassert(-5)), (Ok(()), Ok(())));
}
