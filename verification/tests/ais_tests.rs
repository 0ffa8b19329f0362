use shared::ais_message::{AisMessage, CommunicationState};
use shared::bitpacker::BitPacker;
use shared::boat_info::{BoatInfo, NavigationData, StaticData, VoyageData};
use shared::common::errors::{AisMessageError, BitPackerError, CommunicationStateError};
use shared::common::types::CSType;

fn sample_info() -> BoatInfo {
    let s = StaticData::new(
        Some(227_006_760),
        Some(9_074_729),
        Some("FQEI".to_string()),
        Some("ALBATROS".to_string()),
        Some(60),
        Some(1),
        Some(0),
        Some(1),
        Some(30),
        Some(10),
        Some(5),
        Some(6),
    );
    let v = VoyageData::new(Some("BREST".to_string()), Some(3), Some(21), Some(14), Some(45), Some(42), Some(0), Some(1));
    let n = NavigationData::new(Some(0), Some(12), Some(1), Some(2_000_000), Some(3_000_000), Some(900), Some(120), Some(-5), Some(88));
    BoatInfo::new(Some(s), Some(v), Some(n))
}

fn x25(bytes: &[u8]) -> u16 {
    crc::Crc::<u16>::new(&crc::CRC_16_IBM_SDLC).checksum(bytes)
}

fn flip_bit(p: &BitPacker, i: usize) -> BitPacker {
    let bit = p.extract_int(Some(i), Some(i)).unwrap();
    let upper = p.slice(Some(i + 1), None).unwrap();
    let lower = p.slice(Some(0), Some(i - 1)).unwrap();
    upper.add(BitPacker::from_int(1 - bit, Some(1))).add(lower)
}

#[test]
fn init_picks_the_scheme_from_the_type() {
    let cs = CommunicationState::init(1, 2, Some(3), None, None, Some(12), None, None, None);
    assert_eq!(cs.communication_state_type(), CSType::SOTDMA);
    assert_eq!(cs.sync_state(), 2);
    assert!(*cs.utc_hour().unwrap() < 24);
    assert!(*cs.utc_minute().unwrap() < 60);
    let cs3 = CommunicationState::init(3, 0, None, None, None, None, Some(5), Some(1), Some(false));
    assert_eq!(cs3.communication_state_type(), CSType::ITDMA);
    let cs26 = CommunicationState::init(26, 0, None, None, None, None, None, None, None);
    assert_eq!(cs26.communication_state_type(), CSType::SOTDMA);
}

#[test]
fn getters_report_missing_fields() {
    let cs = CommunicationState::init(1, 0, Some(3), None, None, Some(12), None, None, None);
    assert_eq!(cs.slot_timeout(), Ok(&3));
    assert_eq!(cs.received_stations(), Ok(&12));
    assert_eq!(cs.slot_offset(), Err(CommunicationStateError::NoSotdmaSlotOffset));
    assert_eq!(cs.slot_number(), Err(CommunicationStateError::NoItdmaSlotNumber));
    assert_eq!(cs.slot_increment(), Err(CommunicationStateError::NoItdmaSlotIncrement));
    assert_eq!(cs.number_of_slots(), Err(CommunicationStateError::NoItdmaNumberOfSlots));
    assert_eq!(cs.keep_flag(), Err(CommunicationStateError::NoItdmaKeepFlag));
}

#[test]
fn sotdma_state_round_trip() {
    let cs = CommunicationState::init(1, 2, Some(3), None, None, Some(12), None, None, None);
    let bits = cs.build_at(0, 0).unwrap();
    assert_eq!(*bits.bits_len(), 19);
    let back = CommunicationState::parse(bits, 1).unwrap();
    assert_eq!(back.communication_state_type(), CSType::SOTDMA);
    assert_eq!(back.sync_state(), 2);
    assert_eq!(back.slot_timeout(), Ok(&3));
    assert_eq!(back.received_stations(), Ok(&12));
    assert_eq!(back.utc_hour(), Err(CommunicationStateError::NoUtcHour));
}

#[test]
fn sotdma_offset_and_slot_number_round_trip() {
    let cs = CommunicationState::init(1, 0, Some(0), Some(1234), None, None, None, None, None);
    let back = CommunicationState::parse(cs.build_at(0, 0).unwrap(), 1).unwrap();
    assert_eq!(back.slot_offset(), Ok(&1234));
    let cs = CommunicationState::init(2, 1, Some(4), None, Some(99), None, None, None, None);
    let back = CommunicationState::parse(cs.build_at(0, 0).unwrap(), 2).unwrap();
    assert_eq!(back.slot_timeout(), Ok(&4));
    assert_eq!(back.slot_number(), Ok(&99));
}

#[test]
fn utc_time_stamp_is_read_in_another_order_than_it_is_written() {
    let cs = CommunicationState::init(2, 0, Some(1), None, None, None, None, None, None);
    let bits = cs.build_at(10, 30).unwrap();
    assert_eq!(bits.extract_int(Some(5), None), Ok(30 + 10 * 64));
    let back = CommunicationState::parse(bits, 2).unwrap();
    assert_eq!(back.utc_hour(), Ok(&158));
    assert_eq!(back.utc_minute(), Ok(&2));
}

#[test]
fn itdma_state_round_trip() {
    let cs = CommunicationState::init(3, 1, None, None, None, None, Some(100), Some(2), Some(true));
    let bits = cs.build_at(5, 5).unwrap();
    assert_eq!(*bits.bits_len(), 19);
    let back = CommunicationState::parse(bits, 3).unwrap();
    assert_eq!(back.communication_state_type(), CSType::ITDMA);
    assert_eq!(back.sync_state(), 1);
    assert_eq!(back.slot_increment(), Ok(&100));
    assert_eq!(back.number_of_slots(), Ok(&2));
    assert_eq!(back.keep_flag(), Ok(&true));
}

#[test]
fn state_build_errors() {
    let cs = CommunicationState::init(1, 0, Some(3), None, None, None, None, None, None);
    assert_eq!(cs.build_at(0, 0).err(), Some(CommunicationStateError::NoSotdmaReceivedStations));
    let cs = CommunicationState::init(1, 0, None, None, None, None, None, None, None);
    assert_eq!(cs.build_at(0, 0).err(), Some(CommunicationStateError::NoSotdmaTimeout));
    let cs = CommunicationState::init(3, 0, None, None, None, None, Some(1), Some(1), None);
    assert_eq!(cs.build().err(), Some(CommunicationStateError::NoItdmaKeepFlag));
}

#[test]
fn state_parse_errors() {
    assert_eq!(
        CommunicationState::parse(BitPacker::from_int(0, Some(1)), 1).err(),
        Some(CommunicationStateError::BitPacker(BitPackerError::IndexOutOfBounds))
    );
    assert_eq!(
        CommunicationState::parse(BitPacker::from_int(0, Some(5)), 2).err(),
        Some(CommunicationStateError::BitPacker(BitPackerError::IndexOutOfBounds))
    );
    assert_eq!(
        CommunicationState::parse(BitPacker::from_int(0, Some(18)), 3).err(),
        Some(CommunicationStateError::BitPacker(BitPackerError::IndexOutOfBounds))
    );
    assert_eq!(
        CommunicationState::parse(BitPacker::from_int(0, Some(19)), 4).err(),
        Some(CommunicationStateError::UnknownMessageType)
    );
}

#[test]
fn position_report_round_trip() {
    let cs = CommunicationState::init(1, 2, Some(3), None, None, Some(12), None, None, None);
    let msg = AisMessage::from_info_at(sample_info(), 1, Some(cs), 0, 0).unwrap();
    let frame = msg.build_at(0, 0).unwrap();
    assert_eq!(*frame.bits_len(), 255);
    assert_eq!(frame.extract_int(Some(0), Some(7)), Ok(255));
    assert_eq!(frame.extract_int(Some(40), Some(45)), Ok(1));
    let (t, data, back_cs, crc, info) = AisMessage::parse(frame.clone()).unwrap();
    assert_eq!(t, 1);
    assert_eq!(*data.bits_len(), 141);
    assert_eq!(data.to_bin_str(), msg.data().to_bin_str());
    let back_cs = back_cs.unwrap();
    assert_eq!(back_cs.slot_timeout(), Ok(&3));
    assert_eq!(back_cs.received_stations(), Ok(&12));
    let payload = frame.slice(Some(40), Some(207)).unwrap();
    assert_eq!(crc, x25(payload.bits()));
    assert_eq!(msg.crc().extract_int(None, None), Ok(crc as u64));
    let s = info.get_static_data().unwrap();
    assert_eq!(s.mmsi, 227_006_760);
    assert_eq!(s.position_accuracy, 1);
    assert_eq!(s.call_sign, "@@@@@@@");
    let n = info.get_navigation_data().unwrap();
    assert_eq!(n.latitude, 3_000_000);
    assert_eq!(n.longitude, 2_000_000);
    assert_eq!((n.navigational_status, n.time_stamp, n.special_maneuvre_indicator), (0, 12, 1));
    assert_eq!((n.course_over_ground, n.speed_over_ground, n.rate_of_turn, n.true_heading), (900, 120, -5, 88));
    assert_eq!(info.get_voyage_data().unwrap().raim_flag, 1);
}

#[test]
fn static_report_round_trip() {
    let msg = AisMessage::from_info_at(sample_info(), 5, None, 0, 0).unwrap();
    let frame = msg.build_at(0, 0).unwrap();
    assert_eq!(*frame.bits_len(), 511);
    let m = AisMessage::from_bits(frame.clone()).unwrap();
    assert_eq!(*m.message_type(), 5);
    assert_eq!(m.communication_state().err(), Some(AisMessageError::NoCommunicationState));
    let payload = frame.slice(Some(40), Some(463)).unwrap();
    assert_eq!(m.crc().extract_int(None, None), Ok(x25(payload.bits()) as u64));
    let info = m.boat_info();
    let s = info.get_static_data().unwrap();
    assert_eq!(s.mmsi, 227_006_760);
    assert_eq!(s.imo_number, 9_074_729);
    assert_eq!(s.call_sign, "FQEI");
    assert_eq!(s.name, "ALBATROS");
    assert_eq!((s.type_of_ship_and_cargo_type, s.a, s.b, s.c, s.d), (60, 30, 10, 5, 6));
    assert_eq!(s.type_of_epf_device, 1);
    assert_eq!(s.position_accuracy, 0);
    let v = info.get_voyage_data().unwrap();
    assert_eq!(v.destination, "BREST");
    assert_eq!((v.eta_month, v.eta_day, v.eta_hour, v.eta_minute), (3, 21, 14, 45));
    assert_eq!(v.maximum_present_static_draught, 42);
    assert_eq!(v.dte, 0);
    assert_eq!(v.raim_flag, 0);
    assert_eq!(info.get_navigation_data().unwrap().true_heading, 511);
}

#[test]
fn itdma_report_round_trip() {
    let cs = CommunicationState::init(3, 0, None, None, None, None, Some(75), Some(1), Some(true));
    let msg = AisMessage::from_info(sample_info(), 3, Some(cs)).unwrap();
    let frame = msg.build().unwrap();
    let m = AisMessage::from_bits(frame).unwrap();
    assert_eq!(*m.message_type(), 3);
    let back = m.communication_state().unwrap();
    assert_eq!(back.slot_increment(), Ok(&75));
    assert_eq!(back.keep_flag(), Ok(&true));
}

#[test]
fn corrupted_frame_fails_the_crc() {
    let cs = CommunicationState::init(1, 2, Some(3), None, None, Some(12), None, None, None);
    let msg = AisMessage::from_info_at(sample_info(), 1, Some(cs), 0, 0).unwrap();
    let frame = msg.build_at(0, 0).unwrap();
    let bad = flip_bit(&frame, 100);
    assert_eq!(AisMessage::parse(bad).err(), Some(AisMessageError::CrcMismatch));
    let bad_crc = flip_bit(&frame, 210);
    assert_eq!(AisMessage::from_bits(bad_crc).err(), Some(AisMessageError::CrcMismatch));
}

#[test]
fn frame_errors() {
    assert_eq!(
        AisMessage::parse(BitPacker::from_int(0, Some(45))).err(),
        Some(AisMessageError::BitPacker(BitPackerError::IndexOutOfBounds))
    );
    let cs = CommunicationState::init(1, 2, Some(3), None, None, Some(12), None, None, None);
    let frame = AisMessage::from_info_at(sample_info(), 1, Some(cs), 0, 0).unwrap().build_at(0, 0).unwrap();
    let short = frame.slice(Some(0), Some(219)).unwrap();
    assert_eq!(
        AisMessage::parse(short).err(),
        Some(AisMessageError::BitPacker(BitPackerError::IndexOutOfBounds))
    );
    let other = AisMessage::from_info_at(sample_info(), 4, None, 0, 0).unwrap().build_at(0, 0).unwrap();
    assert_eq!(*other.bits_len(), 95);
    assert_eq!(AisMessage::parse(other).err(), Some(AisMessageError::MessageTypeNotImplemented));
}

#[test]
fn building_needs_a_complete_state() {
    let cs = CommunicationState::init(1, 0, None, None, None, None, None, None, None);
    assert_eq!(
        AisMessage::from_info_at(sample_info(), 1, Some(cs), 0, 0).err(),
        Some(AisMessageError::CommunicationState(CommunicationStateError::NoSotdmaTimeout))
    );
}

#[test]
fn frame_flags() {
    let msg = AisMessage::from_info_at(sample_info(), 5, None, 0, 0).unwrap();
    assert_eq!(msg.ramp_up_bits().extract_int(None, None), Ok(255));
    assert_eq!(msg.sync_sequence().extract_int(None, None), Ok(5_592_405));
    assert_eq!(msg.start_flag().extract_int(None, None), Ok(126));
    assert_eq!(msg.end_flag().extract_int(None, None), Ok(126));
    assert_eq!(*msg.buffer().bits_len(), 23);
    assert_eq!(*msg.crc().bits_len(), 16);
    assert_eq!(*msg.data().bits_len(), 416);
}

#[test]
fn crc_check_value() {
    assert_eq!(x25(b"123456789"), 0x906E);
}

#[test]
fn init_at_takes_the_hour_and_minute_given() {
    let cs = CommunicationState::init_at(3, 1, None, None, Some(77), None, Some(40), Some(2), Some(true), 13, 45);
    assert_eq!(cs.communication_state_type(), CSType::ITDMA);
    assert_eq!(cs.sync_state(), 1);
    assert_eq!(cs.utc_hour(), Ok(&13));
    assert_eq!(cs.utc_minute(), Ok(&45));
    assert_eq!(cs.slot_number(), Ok(&77));
    assert_eq!(cs.slot_increment(), Ok(&40));
    assert_eq!(cs.number_of_slots(), Ok(&2));
    assert_eq!(cs.keep_flag(), Ok(&true));
    assert_eq!(cs.slot_timeout(), Err(CommunicationStateError::NoSotdmaTimeout));
}
