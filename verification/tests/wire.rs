//! What goes over the wire: numbers, descriptors, commands and units.

use rufs::block::DataDirection;
use rufs::descriptor::{Desc, DescBuffer, DescIdn, GeometryDesc, UnitDesc};
use rufs::endian;
use rufs::error::{self, Error};
use rufs::hci::{
    self, CqEntry, PrdEntry, ReqDescHeader, Ucd, UtpCmdType, UtpDataDirection, UtpOcs, Utrd,
};
use rufs::query::{
    AttrIdn, FlagIdn, UfsAttrCmd, UfsCmd, UfsDescCmd, UfsDevCmd, UfsFlagCmd, UfsQueryCmd,
    UfsRPMBCmd,
};
use rufs::scsi::{
    self, ScsiSense, UfsSCSICmd, UfsScsiCompletion, UfsScsiDataDirection, UfsScsiResult,
};
use rufs::upiu::{Upiu, UpiuHeader, UpiuResponse, UpiuTransaction};

const ERRORS: [(Error, i32); 9] = [
    (Error::EINVAL, -22),
    (Error::EIO, -5),
    (Error::EBUSY, -16),
    (Error::ENOMEM, -12),
    (Error::ERANGE, -34),
    (Error::EOVERFLOW, -75),
    (Error::ENODEV, -19),
    (Error::ENOTSUPP, -524),
    (Error::ETIMEDOUT, -110),
];

#[test]
fn errors_have_their_numbers() {
    for (e, number) in ERRORS {
        assert_eq!(e.to_errno(), number);
        assert_eq!(Error::from_errno(number), e);
    }
    assert_eq!(Error::Errno(-11).to_errno(), -11);
    assert_eq!(Error::from_errno(-11), Error::Errno(-11));
}

#[test]
fn return_codes_are_results() {
    assert_eq!(error::to_result(0), Ok(()));
    assert_eq!(error::to_result(7), Ok(()));
    assert_eq!(error::to_result(-5), Err(Error::EIO));
    assert_eq!(error::to_result(-11), Err(Error::Errno(-11)));
}

#[test]
fn numbers_are_encoded_in_both_orders() {
    assert_eq!(endian::be16(0x1234), [0x12, 0x34]);
    assert_eq!(endian::be32(0x1234_5678), [0x12, 0x34, 0x56, 0x78]);
    assert_eq!(endian::be64(0x0102_0304_0506_0708), [1, 2, 3, 4, 5, 6, 7, 8]);
    assert_eq!(endian::le16(0x1234), [0x34, 0x12]);
    assert_eq!(endian::le32(0x1234_5678), [0x78, 0x56, 0x34, 0x12]);
    assert_eq!(endian::le64(0x0102_0304_0506_0708), [8, 7, 6, 5, 4, 3, 2, 1]);
}

#[test]
fn numbers_are_decoded_in_both_orders() {
    let b: [u8; 10] = [0xff, 1, 2, 3, 4, 5, 6, 7, 8, 0xff];
    assert_eq!(endian::get_be16(&b, 1), 0x0102);
    assert_eq!(endian::get_be32(&b, 1), 0x0102_0304);
    assert_eq!(endian::get_be64(&b, 1), 0x0102_0304_0506_0708);
    assert_eq!(endian::get_le16(&b, 1), 0x0201);
    assert_eq!(endian::get_le32(&b, 1), 0x0403_0201);
    assert_eq!(endian::get_le64(&b, 1), 0x0807_0605_0403_0201);
}

#[test]
fn spliced_bytes_are_read_back() {
    let mut b: [u8; 6] = endian::zeroed();
    endian::put_bytes(&mut b, 2, &[7u8, 8, 9]);
    assert_eq!(b, [0, 0, 7, 8, 9, 0]);
    let taken: [u8; 3] = endian::take_bytes(&b, 2);
    assert_eq!(taken, [7, 8, 9]);
    let untouched: [u8; 2] = endian::take_bytes(&b, 0);
    assert_eq!(untouched, [0, 0]);
}

#[test]
fn descriptor_numbers_round_trip() {
    let codes: [(DescIdn, u8); 10] = [
        (DescIdn::Device, 0x0),
        (DescIdn::Config, 0x1),
        (DescIdn::Unit, 0x2),
        (DescIdn::RFU0, 0x3),
        (DescIdn::Interconn, 0x4),
        (DescIdn::String, 0x5),
        (DescIdn::RFU1, 0x6),
        (DescIdn::Geometry, 0x7),
        (DescIdn::Power, 0x8),
        (DescIdn::Health, 0x9),
    ];
    for (idn, code) in codes {
        assert_eq!(idn.code(), code);
        assert_eq!(DescIdn::from(code), idn);
    }
    assert_eq!(DescIdn::from(0x77), DescIdn::Reserved);
}

#[test]
fn attribute_and_flag_numbers_round_trip() {
    for n in 0u8..=255 {
        let attr = AttrIdn::from(n);
        assert!(attr == AttrIdn::Reserved || attr.code() == n);
        let flag = FlagIdn::from(n);
        assert!(flag == FlagIdn::Reserved || flag.code() == n);
    }
    assert_eq!(AttrIdn::from(0x02), AttrIdn::PowerMode);
    assert_eq!(AttrIdn::BootLuEn.code(), 0);
    assert_eq!(FlagIdn::from(1), FlagIdn::FDeviceInit);
}

fn unit_buffer() -> DescBuffer {
    let mut data = [0u8; 255];
    data[0] = 0x2d;
    data[1] = 0x02;
    data[2] = 3;
    data[3] = 1;
    data[6] = 16;
    data[10] = 12;
    data[11..19].copy_from_slice(&0x0102_0304u64.to_be_bytes());
    data[19..23].copy_from_slice(&0x2000u32.to_be_bytes());
    DescBuffer { data }
}

#[test]
fn unit_descriptor_is_decoded() {
    let unit = UnitDesc::from_buffer(unit_buffer());
    assert_eq!(unit.unit_index, 3);
    assert!(unit.enabled());
    assert_eq!(unit.lu_queue_depth(), 16);
    assert_eq!(unit.logical_block_shift(), 12);
    assert_eq!(unit.logical_block_count(), 0x0102_0304);
    assert_eq!(unit.erase_block_size, 0x2000);
}

#[test]
fn geometry_descriptor_is_decoded() {
    let mut data = [0u8; 255];
    data[1] = 0x07;
    data[4..12].copy_from_slice(&0x1_0000_0000u64.to_be_bytes());
    data[12] = 1;
    data[13..17].copy_from_slice(&0x2000u32.to_be_bytes());
    let geometry = GeometryDesc::from_buffer(DescBuffer { data });
    assert_eq!(geometry.total_raw_device_capacity, 0x1_0000_0000);
    assert_eq!(geometry.max_number_lu, 1);
    assert_eq!(geometry.segment_size, 0x2000);
}

#[test]
fn descriptors_are_told_apart() {
    let desc = Desc::from_buffer(0x02, unit_buffer());
    assert!(desc.get_unit().is_ok());
    assert_eq!(desc.get_device().unwrap_err(), Error::EINVAL);
    assert_eq!(desc.get_geometry().unwrap_err(), Error::EINVAL);
    assert!(Desc::from_buffer(0x00, unit_buffer()).get_device().is_ok());
    assert!(Desc::from_buffer(0x07, unit_buffer()).get_geometry().is_ok());
    assert!(matches!(Desc::from_buffer(0x08, unit_buffer()), Desc::Power(_)));
    assert!(matches!(Desc::from_buffer(0x55, unit_buffer()), Desc::Reserved));
    assert_eq!(Desc::Reserved.get_unit().unwrap_err(), Error::EINVAL);
}

#[test]
fn queries_have_their_timeouts() {
    assert_eq!(UfsDevCmd::Nop.timeout(), 50);
    assert_eq!(UfsDevCmd::Query(UfsQueryCmd::Nop).timeout(), 1500);
    assert_eq!(UfsDevCmd::RPMB(UfsRPMBCmd {}).timeout(), 3000);
}

#[test]
fn query_answers_are_taken_apart() {
    let attr = UfsQueryCmd::ReadAttr(UfsAttrCmd::build(AttrIdn::PowerMode, 1, 2, 77));
    assert_eq!(attr.get_attr_value(), Ok(77));
    assert_eq!(attr.get_flag_value(), Err(Error::EINVAL));
    assert_eq!(attr.get_read_desc().unwrap_err(), Error::EINVAL);
    let flag = UfsQueryCmd::ReadFlag(UfsFlagCmd {
        value: 1,
        ..UfsFlagCmd::build(FlagIdn::FDeviceInit, 0, 0)
    });
    assert_eq!(flag.get_flag_value(), Ok(1));
    assert_eq!(flag.get_attr_value(), Err(Error::EINVAL));
    let desc = UfsQueryCmd::ReadDesc(UfsDescCmd::build(DescIdn::Unit, 4, 0));
    assert_eq!(desc.get_read_desc().unwrap().index, 4);
    assert!(UfsDevCmd::Nop.get_query().is_err());
    let scsi = UfsCmd::SCSI(UfsSCSICmd::flush(0));
    assert_eq!(scsi.get_device().unwrap_err(), Error::EINVAL);
}

#[test]
fn small_ranges_use_the_short_command() {
    let cmd = UfsSCSICmd::read_write(5, false, 0x0102_0304, 0x0506, 4096, false);
    assert_eq!(cmd.lun(), 5);
    assert_eq!(cmd.direction(), UfsScsiDataDirection::Read);
    assert_eq!(cmd.data_len(), 4096);
    assert_eq!(cmd.cdb(), [0x28, 0, 1, 2, 3, 4, 0, 5, 6, 0, 0, 0, 0, 0, 0, 0]);
    assert!(!cmd.is_unmap());
    let cmd = UfsSCSICmd::read_write(5, true, 1, 1, 512, true);
    assert_eq!(cmd.cdb(), [0x2a, 8, 0, 0, 0, 1, 0, 0, 1, 0, 0, 0, 0, 0, 0, 0]);
    assert_eq!(cmd.direction(), UfsScsiDataDirection::Write);
}

#[test]
fn large_ranges_use_the_long_command() {
    let cmd = UfsSCSICmd::read_write(0, true, 0x1_0000_0000, 1, 512, false);
    assert_eq!(cmd.cdb(), [0x8a, 0, 0, 0, 0, 1, 0, 0, 0, 0, 0, 0, 0, 1, 0, 0]);
    let cmd = UfsSCSICmd::read_write(0, false, 2, 0x1_0000, 512, false);
    assert_eq!(cmd.cdb(), [0x88, 0, 0, 0, 0, 0, 0, 0, 0, 2, 0, 1, 0, 0, 0, 0]);
    let last_short = UfsSCSICmd::read_write(0, false, 0xffff_ffff, 0xffff, 512, false);
    assert_eq!(last_short.cdb()[0], 0x28);
}

#[test]
fn flush_and_unmap_commands() {
    let flush = UfsSCSICmd::flush(2);
    assert_eq!(flush.cdb()[0], 0x35);
    assert_eq!(flush.direction(), UfsScsiDataDirection::NoData);
    assert_eq!(flush.data_len(), 0);
    let unmap = UfsSCSICmd::unmap(2, 0x10, 0x20);
    assert!(unmap.is_unmap());
    assert_eq!(unmap.cdb(), [0x42, 0, 0, 0, 0, 0, 0, 0, 24, 0, 0, 0, 0, 0, 0, 0]);
    assert_eq!(unmap.data_len(), 24);
    assert_eq!(unmap.unmap_lba(), 0x10);
    assert_eq!(unmap.unmap_blocks(), 0x20);
    let list = unmap.unmap_param_list();
    assert_eq!(list[0..4], [0, 22, 0, 16]);
    assert_eq!(list[8..16], [0, 0, 0, 0, 0, 0, 0, 0x10]);
    assert_eq!(list[16..20], [0, 0, 0, 0x20]);
    assert_eq!(list[20..24], [0, 0, 0, 0]);
}

fn fixed_sense(key: u8, asc: u8, ascq: u8) -> [u8; 18] {
    let mut data = [0u8; 18];
    data[0] = 0xf0;
    data[2] = key;
    data[7] = 10;
    data[12] = asc;
    data[13] = ascq;
    data
}

#[test]
fn sense_data_is_parsed() {
    let data = fixed_sense(0x36, 0x29, 0);
    assert_eq!(
        scsi::parse_scsi_sense(&data, 18),
        Some(ScsiSense {
            response_code: 0x70,
            sense_key: 6,
            asc: 0x29,
            ascq: 0,
            additional_len: 10,
        })
    );
    assert_eq!(scsi::parse_scsi_sense(&data, 13), None);
    assert_eq!(scsi::parse_scsi_sense(&data, 0), None);
    let data = [0x72u8, 0x15, 0x24, 0x01];
    assert_eq!(
        scsi::parse_scsi_sense(&data, 4),
        Some(ScsiSense {
            response_code: 0x72,
            sense_key: 5,
            asc: 0x24,
            ascq: 1,
            additional_len: 0,
        })
    );
    assert_eq!(scsi::parse_scsi_sense(&data, 3), None);
    assert_eq!(scsi::parse_scsi_sense(&[0x7fu8, 0, 0, 0], 4), None);
}

#[test]
fn unit_attention_is_retried() {
    let reset = scsi::parse_scsi_sense(&fixed_sense(6, 0x29, 0), 18);
    assert!(scsi::retryable_check_condition(&reset));
    assert!(scsi::boot_unit_attention(&reset));
    let other = scsi::parse_scsi_sense(&fixed_sense(6, 0x29, 1), 18);
    assert!(scsi::retryable_check_condition(&other));
    assert!(!scsi::boot_unit_attention(&other));
    let medium = scsi::parse_scsi_sense(&fixed_sense(3, 0x29, 0), 18);
    assert!(!scsi::retryable_check_condition(&medium));
    assert!(!scsi::retryable_check_condition(&None));
    assert!(scsi::should_requeue_scsi(UfsScsiCompletion::CheckCondition, &reset));
    assert!(!scsi::should_requeue_scsi(UfsScsiCompletion::CheckCondition, &medium));
    assert!(scsi::should_requeue_scsi(UfsScsiCompletion::Busy, &None));
    assert!(scsi::should_requeue_scsi(UfsScsiCompletion::TaskSetFull, &None));
    assert!(scsi::should_requeue_scsi(UfsScsiCompletion::Requeue, &None));
    assert!(!scsi::should_requeue_scsi(UfsScsiCompletion::Good, &reset));
    assert!(!scsi::should_requeue_scsi(UfsScsiCompletion::Error, &reset));
}

#[test]
fn sense_keys_have_names() {
    assert_eq!(scsi::sense_key_name(0), "NO_SENSE");
    assert_eq!(scsi::sense_key_name(6), "UNIT_ATTENTION");
    assert_eq!(scsi::sense_key_name(0xb), "ABORTED_COMMAND");
    assert_eq!(scsi::sense_key_name(0xa), "UNKNOWN");
    assert_eq!(scsi::sense_key_name(0xe), "MISCOMPARE");
}

#[test]
fn results_are_judged() {
    let good = UfsScsiResult { completion: UfsScsiCompletion::Good, ..UfsScsiResult::error(0) };
    let verdict = scsi::judge_scsi(&good);
    assert!(!verdict.requeue);
    assert_eq!(verdict.status, 0);
    let requeue = scsi::judge_scsi(&UfsScsiResult::requeue(6));
    assert!(requeue.requeue);
    assert_eq!(requeue.status, 9);
    let conflict = UfsScsiResult {
        completion: UfsScsiCompletion::ReservationConflict,
        ..UfsScsiResult::error(0)
    };
    assert_eq!(scsi::judge_scsi(&conflict).status, 6);
    assert_eq!(scsi::judge_scsi(&UfsScsiResult::error(1)).status, 10);
    let attention = UfsScsiResult {
        completion: UfsScsiCompletion::CheckCondition,
        sense_data_len: 18,
        sense_data: fixed_sense(6, 0x29, 0),
        ..UfsScsiResult::error(0)
    };
    let verdict = scsi::judge_scsi(&attention);
    assert!(verdict.requeue);
    assert!(!verdict.report);
    assert_eq!(verdict.sense.map(|sense| sense.asc), Some(0x29));
}

#[test]
fn transaction_and_response_codes_round_trip() {
    for n in 0u8..=255 {
        let t = UpiuTransaction::from(n);
        assert!(t == UpiuTransaction::Reject || t.code() == n);
        let r = UpiuResponse::from(n);
        assert!(r == UpiuResponse::Failure || r.code() == n);
    }
    assert_eq!(UpiuTransaction::from(0x21), UpiuTransaction::Response);
    assert_eq!(UpiuResponse::from(0xf9), UpiuResponse::InvalidLen);
    assert_eq!(UpiuTransaction::Reject.code(), 0x3f);
    assert_eq!(UpiuResponse::Failure.code(), 0xff);
}

#[test]
fn command_units_have_their_layout() {
    let cmd = UfsSCSICmd::read_write(5, true, 0x11, 2, 0x2000, false);
    let bytes = Upiu::command(cmd, 9).to_bytes();
    assert_eq!(bytes[0..12], [0x01, 0x20, 5, 9, 0, 0, 0, 0, 0, 0, 0, 0]);
    assert_eq!(bytes[12..16], [0, 0, 0x20, 0]);
    assert_eq!(bytes[16..32], cmd.cdb());
    assert!(bytes[32..].iter().all(|b| *b == 0));
    let read = Upiu::command(UfsSCSICmd::read_write(5, false, 0, 1, 512, false), 1).to_bytes();
    assert_eq!(read[1], 0x40);
    let flush = Upiu::command(UfsSCSICmd::flush(5), 1).to_bytes();
    assert_eq!(flush[1], 0);
}

#[test]
fn query_units_have_their_layout() {
    let cmd = UfsDescCmd::build(DescIdn::Unit, 3, 4);
    let bytes = Upiu::read_desc(cmd, 2).to_bytes();
    assert_eq!(bytes[0..12], [0x16, 0, 0, 2, 0, 0x01, 0, 0, 0, 0, 0, 0]);
    assert_eq!(bytes[12..20], [1, 2, 3, 4, 0, 0, 0, 255]);
    let cmd = UfsAttrCmd::build(AttrIdn::PowerMode, 1, 0, 0x0102_0304_0506_0708);
    let bytes = Upiu::write_attr(cmd, 2).to_bytes();
    assert_eq!(bytes[5], 0x81);
    assert_eq!(bytes[12..24], [4, 2, 1, 0, 1, 2, 3, 4, 5, 6, 7, 8]);
    let bytes = Upiu::read_attr(cmd, 2).to_bytes();
    assert_eq!(bytes[5], 0x01);
    assert_eq!(bytes[12..24], [3, 2, 1, 0, 0, 0, 0, 0, 0, 0, 0, 0]);
    let flag = UfsFlagCmd::build(FlagIdn::FDeviceInit, 0, 0);
    assert_eq!(Upiu::read_flag(flag, 0).to_bytes()[12..14], [5, 1]);
    assert_eq!(Upiu::set_flag(flag, 0).to_bytes()[12..14], [6, 1]);
    assert_eq!(Upiu::clear_flag(flag, 0).to_bytes()[12..14], [7, 1]);
    assert_eq!(Upiu::toggle_flag(flag, 0).to_bytes()[12..14], [8, 1]);
    assert_eq!(Upiu::set_flag(flag, 0).to_bytes()[5], 0x81);
    let nop = Upiu::nop_out(7).to_bytes();
    assert_eq!(nop[0..4], [0, 0, 0, 7]);
}

#[test]
fn units_round_trip() {
    let unit = Upiu::command(UfsSCSICmd::read_write(5, true, 0x11, 2, 0x2000, false), 9);
    let bytes = unit.to_bytes();
    assert_eq!(Upiu::from_bytes(&bytes).to_bytes(), bytes);
    assert_eq!(Upiu::from_bytes(&bytes).header, unit.header);
    let header = UpiuHeader::query_write_data(1, 0x0102);
    assert_eq!(header.to_bytes()[10..12], [1, 2]);
}

fn response(transaction_code: u8, code: u8, status: u8) -> Upiu {
    let mut unit = Upiu::default();
    unit.header.transaction_code = transaction_code;
    unit.header.response = code;
    unit.header.status = status;
    unit
}

#[test]
fn scsi_responses_are_decoded() {
    let mut unit = response(0x21, 0, 0x02);
    unit.body.data[0..4].copy_from_slice(&5u32.to_be_bytes());
    unit.body.data[20..22].copy_from_slice(&200u16.to_be_bytes());
    unit.body.data[22] = 0x70;
    let result = unit.scsi_result(0);
    assert_eq!(result.completion, UfsScsiCompletion::CheckCondition);
    assert_eq!(result.residual_transfer_count, 5);
    assert_eq!(result.sense_data_len, 18);
    assert_eq!(result.sense_data[0], 0x70);
    let statuses = [
        (0x00, UfsScsiCompletion::Good),
        (0x08, UfsScsiCompletion::Busy),
        (0x18, UfsScsiCompletion::ReservationConflict),
        (0x28, UfsScsiCompletion::TaskSetFull),
        (0x40, UfsScsiCompletion::TaskAborted),
        (0x55, UfsScsiCompletion::Error),
    ];
    for (status, completion) in statuses {
        assert_eq!(response(0x21, 0, status).scsi_result(0).completion, completion);
    }
    assert_eq!(response(0x20, 0, 0).scsi_result(0).completion, UfsScsiCompletion::Error);
}

#[test]
fn device_responses_are_fetched() {
    assert!(response(0x20, 0, 0).fetch_dev(UfsDevCmd::Nop).is_ok());
    assert_eq!(response(0x21, 0, 0).fetch_dev(UfsDevCmd::Nop).unwrap_err(), Error::EIO);
    let cmd = UfsAttrCmd::build(AttrIdn::PowerMode, 1, 2, 0xaabb);
    let query = UfsDevCmd::Query(UfsQueryCmd::WriteAttr(cmd));
    let mut echo = response(0x36, 0, 0);
    echo.body = Upiu::write_attr(cmd, 0).body;
    match echo.fetch_dev(query) {
        Ok(UfsDevCmd::Query(UfsQueryCmd::WriteAttr(answer))) => assert_eq!(answer, cmd),
        _ => panic!("the attribute is echoed"),
    }
    echo.header.response = 0xff;
    assert_eq!(echo.fetch_dev(query).unwrap_err(), Error::EIO);
    assert_eq!(response(0x20, 0, 0).fetch_dev(query).unwrap_err(), Error::EIO);
    let rpmb = UfsDevCmd::RPMB(UfsRPMBCmd {});
    assert!(response(0x21, 0, 0).fetch_dev(rpmb).is_ok());
    assert_eq!(response(0x36, 0, 0).fetch_dev(rpmb).unwrap_err(), Error::EIO);
}

#[test]
fn read_descriptors_are_fetched() {
    let mut unit = response(0x36, 0, 0);
    unit.body.data[0..4].copy_from_slice(&[1, 2, 3, 0]);
    unit.body.data[6..8].copy_from_slice(&45u16.to_be_bytes());
    unit.body.data[20..275].copy_from_slice(&unit_buffer().data);
    let query = UfsDevCmd::Query(UfsQueryCmd::ReadDesc(UfsDescCmd::build(DescIdn::Unit, 3, 0)));
    let desc = match unit.fetch_dev(query) {
        Ok(UfsDevCmd::Query(query)) => query.get_read_desc().unwrap(),
        _ => panic!("a descriptor is fetched"),
    };
    assert_eq!(desc.idn, DescIdn::Unit);
    assert_eq!(desc.index, 3);
    assert_eq!(desc.length, 45);
    assert_eq!(desc.desc.get_unit().unwrap().logical_block_count(), 0x0102_0304);
}

#[test]
fn read_flags_are_fetched() {
    let mut unit = response(0x36, 0, 0);
    unit.body.data[0..4].copy_from_slice(&[5, 1, 0, 0]);
    unit.body.data[11] = 1;
    let flag = UfsFlagCmd::build(FlagIdn::FDeviceInit, 0, 0);
    let answer = match unit.fetch_dev(UfsDevCmd::Query(UfsQueryCmd::ReadFlag(flag))) {
        Ok(UfsDevCmd::Query(query)) => query.get_flag_value(),
        _ => panic!("a flag is fetched"),
    };
    assert_eq!(answer, Ok(1));
}

#[test]
fn status_codes_are_results() {
    for n in 0u8..=255 {
        let ocs = UtpOcs::from(n);
        assert!(ocs == UtpOcs::InvalidCommandStatus || ocs.code() == n);
    }
    assert_eq!(hci::ocs_result(UtpOcs::Success), Ok(()));
    assert_eq!(hci::ocs_result(UtpOcs::InvalidPrdtAttr), Err(Error::EINVAL));
    assert_eq!(hci::ocs_result(UtpOcs::GeneralCryptoError), Err(Error::EINVAL));
    assert_eq!(hci::ocs_result(UtpOcs::Aborted), Err(Error::EIO));
    assert_eq!(hci::ocs_result(UtpOcs::InvalidCommandStatus), Err(Error::EIO));
}

#[test]
fn directions_are_converted() {
    assert_eq!(UtpDataDirection::from(DataDirection::ToDevice).code(), 1);
    assert_eq!(UtpDataDirection::from(DataDirection::FromDevice).code(), 2);
    assert_eq!(UtpDataDirection::from(DataDirection::Bidirectional).code(), 0);
    assert_eq!(UtpDataDirection::from(UfsScsiDataDirection::Read).code(), 2);
    assert_eq!(UtpDataDirection::from(UfsScsiDataDirection::Write).code(), 1);
    assert_eq!(UtpDataDirection::from(UfsScsiDataDirection::NoData).code(), 0);
}

#[test]
fn descriptor_headers_hold_their_fields() {
    let mut header = ReqDescHeader::default();
    header.ctrl = 0xff;
    header.set_cmd_type(UtpCmdType::UfsStorage);
    assert_eq!(header.ctrl, 0x1f);
    header.set_direction(UtpDataDirection::DeviceToHost);
    assert_eq!(header.ctrl, 0x1d);
    header.set_interrupt(false);
    assert_eq!(header.ctrl, 0x1c);
    header.set_interrupt(true);
    assert_eq!(header.ctrl, 0x1d);
    let write = ReqDescHeader::scsi(UfsSCSICmd::read_write(0, true, 0, 1, 512, false));
    assert_eq!((write.ctrl, write.ocs), (0x13, 0x0f));
    let device = ReqDescHeader::device(UfsDevCmd::Nop);
    assert_eq!((device.ctrl, device.ocs), (0x11, 0x0f));
}

#[test]
fn transfer_descriptors_round_trip() {
    let utrd = Utrd::default()
        .set_command_descriptor(0x0102_0304_0506_0708)
        .set_prd_table_length(3)
        .unwrap()
        .build(UfsCmd::SCSI(UfsSCSICmd::flush(0)));
    let bytes = utrd.to_bytes();
    assert_eq!(bytes[3], 0x11);
    assert_eq!(bytes[8], 0x0f);
    assert_eq!(bytes[16..24], [8, 7, 6, 5, 4, 3, 2, 1]);
    assert_eq!(bytes[24..32], [128, 0, 128, 0, 3, 0, 0, 1]);
    assert_eq!(Utrd::from_bytes(&bytes), utrd);
    assert_eq!(utrd.ocs(), 0x0f);
    assert_eq!(utrd.check_response(), Err(Error::EIO));
    let done = Utrd { header: ReqDescHeader { ocs: 0xf0, ..utrd.header }, ..utrd };
    assert_eq!(done.check_response(), Ok(()));
}

#[test]
fn table_lengths_are_bounded() {
    assert!(Utrd::default().set_prd_table_length(65535).is_ok());
    assert!(Utrd::default().set_prd_table_length(65536).is_err());
}

#[test]
fn physical_regions_hold_address_and_size() {
    let entry = PrdEntry::new(0x1_0000_1000, 4096).unwrap();
    assert_eq!(entry, PrdEntry { addr: 0x1_0000_1000, reserved: 0, size: 4095 });
    assert_eq!(
        entry.to_bytes(),
        [0, 0x10, 0, 0, 1, 0, 0, 0, 0, 0, 0, 0, 0xff, 0x0f, 0, 0]
    );
    assert_eq!(PrdEntry::new(0, 0), Err(Error::EINVAL));
    assert!(PrdEntry::new(0, 0x4_0000).is_ok());
    assert_eq!(PrdEntry::new(0, 0x4_0001), Err(Error::EINVAL));
}

#[test]
fn command_descriptors_keep_their_table() {
    let mut ucd = Ucd::default();
    ucd.prdt[0] = PrdEntry { addr: 1, reserved: 0, size: 2 };
    ucd.rsp_upiu.header.status = 8;
    let built = ucd.build(UfsCmd::SCSI(UfsSCSICmd::flush(1)), 4);
    assert_eq!(built.prdt[0], ucd.prdt[0]);
    assert_eq!(built.rsp_upiu.header.status, 0);
    assert_eq!(built.cmd_upiu.header.task_tag, 4);
    let nop = ucd.build(UfsCmd::Device(UfsDevCmd::Nop), 4);
    assert_eq!(nop.cmd_upiu.header.transaction_code, 0);
    assert_eq!(ucd.fetch_dev(UfsDevCmd::Nop).unwrap_err(), Error::EIO);
}

#[test]
fn completion_entries_are_decoded() {
    let mut bytes = [0u8; 32];
    bytes[0..8].copy_from_slice(&0x1_0000_1485u64.to_le_bytes());
    bytes[16] = 0x0f;
    bytes[17] = 3;
    bytes[20] = 9;
    bytes[21] = 2;
    bytes[22] = 0x5a;
    let mut cqe = CqEntry::from_bytes(&bytes);
    assert_eq!(cqe.command_desc_base_addr(), 0x1_0000_1485);
    assert_eq!(cqe.overall_status(), 0x0f);
    assert_eq!(cqe.extended_error_code(), 3);
    assert_eq!(cqe.task_tag(), 9);
    assert_eq!(cqe.lun(), 2);
    assert_eq!(cqe.iid(), 0x0a);
    assert_eq!(cqe.ext_iid(), 0x05);
    assert_eq!(cqe.ucd_base_addr(), 0x1_0000_1480);
    assert!(cqe.matches_ucd_base_addr(0x1_0000_1480));
    assert!(!cqe.matches_ucd_base_addr(0x1_0000_1400));
    assert!(!cqe.is_empty());
    cqe.clear();
    assert!(cqe.is_empty());
    assert_eq!(cqe.task_tag(), 9);
}
