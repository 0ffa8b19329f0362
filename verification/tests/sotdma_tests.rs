use shared::ais_message::{AisMessage, CommunicationState};
use shared::ais_reception::HarbourmasterAisState;
use shared::boat_info::{BoatInfo, NavigationData, StaticData};
use shared::boats_registry::BoatsInfoRegistry;
use shared::common::constants::HARBOURMASTER_MMSI;
use shared::common::errors::{AisError, AisMessageError};
use shared::common::types::Channel;
use shared::sotdma::{itdma_args, BoatAisState, ContinuousPlan};

const ME: u32 = 227_000_001;

fn boat_state() -> BoatAisState {
    BoatAisState::init(ME)
}

#[test]
fn sotdma_initial_schedule() {
    let s = boat_state();
    assert_eq!(s.sotdma_ri, 10);
    assert_eq!(s.sotdma_ni, 375);
    assert_eq!(s.sotdma_si, 75);
    assert_eq!((s.sotdma_tmo_min, s.sotdma_tmo_max), (3, 7));
    assert_eq!(s.sotdma_t_counter, 1);
    assert_eq!((s.sotdma_nss, s.sotdma_ns, s.sotdma_nts), (u16::MAX, u16::MAX, u16::MAX));
    assert_eq!(s.last_msg5_timestamp, -1);
    assert!(s.can_enter_network());
    assert_eq!(s.slots_map().slot_owner(0), Ok(None));
}

#[test]
fn sotdma_counter_wraps_both_ways() {
    let mut s = boat_state();
    s.increase_t_counter();
    assert_eq!(s.sotdma_t_counter, 2);
    s.decrease_t_counter();
    s.decrease_t_counter();
    s.decrease_t_counter();
    assert_eq!(s.sotdma_t_counter, u64::MAX);
    s.increase_t_counter();
    assert_eq!(s.sotdma_t_counter, 0);
}

#[test]
fn sotdma_upcoming_nominal_slot() {
    let mut s = boat_state();
    s.sotdma_nss = 100;
    assert_eq!(s.upcoming_ns(), 475);
    s.sotdma_t_counter = 6;
    assert_eq!(s.upcoming_ns(), 100);
    s.sotdma_t_counter = 5;
    assert_eq!(s.upcoming_ns(), 1975);
}

#[test]
fn sotdma_upcoming_transmission_slot_is_one_of_ours() {
    let mut s = boat_state();
    s.sotdma_nss = 100;
    assert!(matches!(s.upcoming_nts(), Err(AisError::NoOwnedSlot)));
    s.slots_map.book_slot(2250 + 480, ME, Some(4), None).unwrap();
    s.slots_map.book_slot(470, 12345, Some(4), None).unwrap();
    assert!(matches!(s.upcoming_nts(), Ok(2730)));
    s.slots_map.book_slot(700, ME, Some(4), None).unwrap();
    assert!(matches!(s.upcoming_nts(), Ok(2730)));
}

#[test]
fn sotdma_books_a_new_transmission_slot() {
    let mut s = boat_state();
    assert!(s.nts_scan_fits(1000, true));
    let nts = s.book_new_nts(1000, true).unwrap();
    assert!((3250..=3325).contains(&nts));
    assert_eq!(s.slots_map().slot_owner(nts), Ok(Some(ME)));
    let t = s.slots_map().slot_timeout(nts).unwrap().unwrap();
    assert!((3..=7).contains(&t));
    s.sotdma_nts = nts;
    let other = s.book_new_nts(1000, false).unwrap();
    assert!((963..=1038).contains(&other));
}

#[test]
fn sotdma_refuses_a_crowded_window() {
    let mut s = boat_state();
    s.sotdma_nts = 10;
    for si in 963..=1038u16 {
        if si != 1000 && si != 1001 && si != 1002 {
            s.slots_map.book_slot(si, 42, Some(3), None).unwrap();
        }
    }
    assert!(matches!(s.book_new_nts(1000, true), Err(AisError::NoValidSlotSelection)));
    assert_eq!(s.slots_map().slot_owner(1000), Ok(None));
}

#[test]
fn sotdma_scan_past_the_map_is_detected() {
    let s = boat_state();
    assert!(!s.nts_scan_fits(10, true));
    assert!(s.nts_scan_fits(10, false));
    assert!(s.nts_scan_fits(37, true));
}

#[test]
fn sotdma_net_entry_books_the_first_slot() {
    let mut s = boat_state();
    s.net_entry(1200).unwrap();
    assert_eq!((s.sotdma_nss, s.sotdma_ns), (1200, 1200));
    assert!((3450..=3525).contains(&s.sotdma_nts));
    assert_eq!(s.slots_map().slot_owner(s.sotdma_nts), Ok(Some(ME)));
}

#[test]
fn sotdma_first_frame_report() {
    let mut s = boat_state();
    s.net_entry(1200).unwrap();
    let ref_nts = s.sotdma_nts;
    let step = s.plan_first_frame_slot(ref_nts).unwrap();
    assert_eq!(step.nts, ref_nts);
    assert_eq!(step.next_ns, 1575);
    assert!((1538..=1613).contains(&step.next_nts));
    let expected = (step.next_nts + 2250 - ref_nts % 2250) % 2250;
    assert_eq!(step.virtual_offset, expected);
    assert!(!s.finish_first_frame_slot(&step, ref_nts));
    assert_eq!(s.sotdma_t_counter, 2);
    assert_eq!(s.sotdma_ns, 1575);
    assert_eq!(s.sotdma_nts, step.next_nts);
}

#[test]
fn sotdma_continuous_static_report_then_plain_report() {
    let mut s = boat_state();
    s.sotdma_nss = 100;
    s.sotdma_ns = 100;
    s.sotdma_nts = 100;
    s.slots_map.book_slot(100, ME, Some(5), None).unwrap();
    s.slots_map.book_slot(480, ME, Some(5), None).unwrap();
    let step = s.plan_continuous_at(1_000).unwrap();
    assert_eq!(step.nts, 100);
    assert_eq!(step.next_ns, 475);
    assert_eq!(step.next_nts, 480);
    match step.plan {
        ContinuousPlan::StaticReport { msg5_slot, offset } => {
            assert!((2250 + 438..=2250 + 513).contains(&msg5_slot));
            assert_eq!(s.slots_map().slot_owner(msg5_slot), Ok(None));
            assert_eq!(offset, (msg5_slot - 2250) - 100);
        }
        other => panic!("unexpected plan {:?}", other),
    }
    s.finish_continuous(&step, 1_000);
    assert_eq!(s.last_msg5_timestamp, 1_000);
    assert_eq!(s.sotdma_t_counter, 2);
    assert_eq!((s.sotdma_ns, s.sotdma_nts), (475, 480));
    assert_eq!(s.slots_map().slot_timeout(100), Ok(Some(4)));

    s.slots_map.book_slot(855, ME, Some(5), None).unwrap();
    let step = s.plan_continuous_at(1_100).unwrap();
    assert_eq!(step.plan, ContinuousPlan::Report);
    assert_eq!(step.next_nts, 855);
}

#[test]
fn sotdma_continuous_replaces_an_expired_slot() {
    let mut s = boat_state();
    s.sotdma_nss = 100;
    s.sotdma_ns = 100;
    s.sotdma_nts = 100;
    s.last_msg5_timestamp = 900;
    s.slots_map.book_slot(100, ME, Some(0), None).unwrap();
    s.slots_map.book_slot(480, ME, Some(5), None).unwrap();
    let step = s.plan_continuous_at(1_000).unwrap();
    match step.plan {
        ContinuousPlan::ReplaceNts { new_nts, offset } => {
            assert!((63..=138).contains(&new_nts));
            assert_eq!(s.slots_map().slot_owner(new_nts), Ok(Some(ME)));
            assert_eq!(offset, (new_nts + 2250 - 100) % 2250);
        }
        other => panic!("unexpected plan {:?}", other),
    }
    assert_eq!(step.next_nts, 480);
}

#[test]
fn sotdma_continuous_without_a_slot_ahead() {
    let mut s = boat_state();
    s.sotdma_nss = 100;
    s.sotdma_ns = 100;
    s.sotdma_nts = 100;
    s.slots_map.book_slot(100, ME, Some(5), None).unwrap();
    let step = s.plan_continuous_at(1_000).unwrap();
    match step.plan {
        ContinuousPlan::MissingNts { new_nts, offset } => {
            assert!((2250 + 438..=2250 + 513).contains(&new_nts));
            assert_eq!(step.next_nts, new_nts);
            assert_eq!(offset, (new_nts - 2250) - 100);
            assert_eq!(s.slots_map().slot_owner(new_nts), Ok(Some(ME)));
        }
        other => panic!("unexpected plan {:?}", other),
    }
}

#[test]
fn sotdma_recovers_on_a_slot_of_ours() {
    let mut s = boat_state();
    s.sotdma_nss = 100;
    assert!(matches!(s.recover_after_error(), Err(AisError::NoOwnedSlot)));
    assert_eq!(s.sotdma_t_counter, 2);
    assert_eq!(s.sotdma_ns, 850);
    s.slots_map.book_slot(1230, ME, Some(5), None).unwrap();
    assert!(matches!(s.recover_after_error(), Ok(())));
    assert_eq!(s.sotdma_ns, 1225);
    assert_eq!(s.sotdma_nts, 1230);
}

#[test]
fn sotdma_communication_state_and_channel() {
    let mut s = boat_state();
    s.recv_stations = 4;
    s.slots_map.book_slot(300, ME, Some(6), None).unwrap();
    assert!(s.communication_state_for(5, None, None, None, 300).is_none());
    let cs = s.communication_state_for(1, None, Some(12), None, 300).unwrap();
    assert_eq!(cs.slot_timeout, Some(6));
    assert_eq!(cs.slot_offset, Some(12));
    assert_eq!(cs.slot_number, Some(300));
    assert_eq!(cs.received_stations, Some(4));
    s.sotdma_nts = 300;
    assert_eq!(s.tx_channel(), Channel::C87B);
    s.sotdma_nts = 2600;
    assert_eq!(s.tx_channel(), Channel::C88B);
}

#[test]
fn itdma_arguments_by_message_type() {
    assert!(matches!(itdma_args(3, 10, 1, true), Ok((Some(true), Some(10), Some(1)))));
    assert!(matches!(itdma_args(5, 10, 1, true), Ok((None, None, None))));
    assert!(matches!(
        itdma_args(1, 10, 1, true),
        Err(AisError::AisMessage(AisMessageError::MessageTypeNotImplemented))
    ));
}

fn boat(mmsi: u32) -> BoatInfo {
    let s = StaticData::new(Some(mmsi), None, None, None, None, None, None, None, None, None, None, None);
    let n = NavigationData::new(None, None, None, Some(12), None, None, None, None, None);
    BoatInfo::new(Some(s), None, Some(n))
}

#[test]
fn harbourmaster_hears_a_boat() {
    let mut hm = HarbourmasterAisState::init(BoatsInfoRegistry::new());
    assert_eq!(hm.slots_map().slot_owner(0), Ok(None));
    let cs = CommunicationState::init(1, 0, Some(3), None, None, Some(1), None, None, None);
    let frame = AisMessage::from_info_at(boat(55), 1, Some(cs), 0, 0).unwrap().build_at(0, 0).unwrap();
    let msg = hm.handle_transmission(frame, Channel::C87B).unwrap();
    assert_eq!(*msg.message_type(), 1);
    assert!(hm.boats_registry.is_registered(&55));
    let own = AisMessage::from_info_at(boat(HARBOURMASTER_MMSI), 1, Some(cs), 0, 0).unwrap().build_at(0, 0).unwrap();
    assert!(matches!(hm.handle_transmission(own, Channel::C88B), Err(AisError::SelfEmittedMessage)));
}

#[test]
fn boat_ignores_its_own_frames() {
    let mut s = boat_state();
    let mut reg = BoatsInfoRegistry::new();
    let cs = CommunicationState::init(1, 0, Some(3), None, None, Some(1), None, None, None);
    let own = AisMessage::from_info_at(boat(ME), 1, Some(cs), 0, 0).unwrap().build_at(0, 0).unwrap();
    assert!(matches!(s.handle_transmission(&mut reg, own, Channel::C87B), Err(AisError::SelfEmittedMessage)));
    assert_eq!(reg.length(), 0);
}
