use shared::ais_message::{AisMessage, CommunicationState};
use shared::ais_reception::handle_transmission;
use shared::boat_info::{BoatInfo, NavigationData, StaticData};
use shared::boats_registry::BoatsInfoRegistry;
use shared::common::constants::HARBOURMASTER_MMSI;
use shared::common::errors::{AisError, AisMessageError, BitPackerError, BoatsRegistryError};
use shared::slots_map::SlotsMap;
use shared::bitpacker::BitPacker;

fn boat(mmsi: u32, lat: u32) -> BoatInfo {
    let s = StaticData::new(Some(mmsi), None, None, None, None, None, None, None, None, None, None, None);
    let n = NavigationData::new(None, None, None, Some(lat), None, None, None, None, None);
    BoatInfo::new(Some(s), None, Some(n))
}

#[test]
fn register_get_update_unregister() {
    let mut reg = BoatsInfoRegistry::new();
    assert_eq!(reg.length(), 0);
    reg.register(boat(1, 10)).unwrap();
    reg.register(boat(2, 20)).unwrap();
    assert_eq!(reg.register(boat(1, 30)).err(), Some(BoatsRegistryError::MmsiAlreadyRegistered));
    assert!(reg.is_registered(&1));
    assert!(!reg.is_registered(&3));
    assert_eq!(reg.length(), 2);
    assert_eq!(reg.get(1).unwrap().get_navigation_data().unwrap().latitude, 10);
    assert_eq!(reg.get(3).err().map(|e| e), Some(BoatsRegistryError::UnkownMmsi));
    let old = reg.update(boat(1, 40)).unwrap();
    assert_eq!(old.get_navigation_data().unwrap().latitude, 10);
    assert_eq!(reg.get(1).unwrap().get_navigation_data().unwrap().latitude, 40);
    assert_eq!(reg.update(boat(9, 0)).err(), Some(BoatsRegistryError::MmsiAlreadyRegistered));
    let gone = reg.unregister(2).unwrap();
    assert_eq!(gone.get_navigation_data().unwrap().latitude, 20);
    assert_eq!(reg.unregister(2).err(), Some(BoatsRegistryError::UnkownMmsi));
    assert_eq!(reg.length(), 1);
}

#[test]
fn export_lists_every_boat_once() {
    let mut reg = BoatsInfoRegistry::new();
    for m in 1..=5u32 {
        reg.register(boat(m, m * 100)).unwrap();
    }
    let all = reg.export();
    assert_eq!(all.len(), 5);
    let mut keys: Vec<u32> = all.iter().map(|(k, _)| *k).collect();
    keys.sort();
    assert_eq!(keys, vec![1, 2, 3, 4, 5]);
    for (k, b) in all.iter() {
        assert_eq!(b.get_navigation_data().unwrap().latitude, k * 100);
    }
}

fn report(mmsi: u32, cs: CommunicationState, t: u8) -> BitPacker {
    AisMessage::from_info_at(boat(mmsi, 7), t, Some(cs), 0, 0).unwrap().build_at(0, 0).unwrap()
}

#[test]
fn reception_books_the_slot_of_a_sotdma_report() {
    let mut map = SlotsMap::new(HARBOURMASTER_MMSI);
    let mut reg = BoatsInfoRegistry::new();
    let cs = CommunicationState::init(1, 0, Some(3), None, None, Some(1), None, None, None);
    let msg = handle_transmission(&mut map, &mut reg, HARBOURMASTER_MMSI, report(55, cs, 1), 100).unwrap();
    assert_eq!(*msg.message_type(), 1);
    assert!(reg.is_registered(&55));
    assert_eq!(map.slot_owner(100), Ok(Some(55)));
    assert_eq!(map.slot_timeout(100), Ok(Some(3)));
}

#[test]
fn reception_moves_a_reservation_on_a_zero_timeout() {
    let mut map = SlotsMap::new(HARBOURMASTER_MMSI);
    let mut reg = BoatsInfoRegistry::new();
    reg.register(boat(55, 1)).unwrap();
    let cs = CommunicationState::init(1, 0, Some(0), Some(5), None, None, None, None, None);
    handle_transmission(&mut map, &mut reg, HARBOURMASTER_MMSI, report(55, cs, 1), 100).unwrap();
    assert_eq!(map.slot_owner(100), Ok(None));
    assert_eq!(map.slot_owner(105), Ok(Some(55)));
    assert_eq!(map.slot_timeout(105), Ok(Some(0)));
    assert_eq!(reg.get(55).unwrap().get_navigation_data().unwrap().latitude, 0);
    assert_eq!(reg.length(), 1);
}

#[test]
fn reception_of_an_itdma_report() {
    let mut map = SlotsMap::new(HARBOURMASTER_MMSI);
    let mut reg = BoatsInfoRegistry::new();
    let cs = CommunicationState::init(3, 0, None, None, None, None, Some(10), Some(1), Some(true));
    handle_transmission(&mut map, &mut reg, HARBOURMASTER_MMSI, report(77, cs, 3), 2300).unwrap();
    assert_eq!(map.slot_owner(2300), Ok(Some(77)));
    assert_eq!(map.slot_owner(2310), Ok(Some(77)));
    let cs = CommunicationState::init(3, 0, None, None, None, None, Some(0), Some(1), Some(false));
    handle_transmission(&mut map, &mut reg, HARBOURMASTER_MMSI, report(77, cs, 3), 2300).unwrap();
    assert_eq!(map.slot_owner(2300), Ok(None));
}

#[test]
fn reception_leaves_a_slot_owned_by_another_boat() {
    let mut map = SlotsMap::new(HARBOURMASTER_MMSI);
    let mut reg = BoatsInfoRegistry::new();
    map.book_slot(100, 9, Some(4), None).unwrap();
    let cs = CommunicationState::init(1, 0, Some(3), None, None, Some(1), None, None, None);
    handle_transmission(&mut map, &mut reg, HARBOURMASTER_MMSI, report(55, cs, 1), 100).unwrap();
    assert_eq!(map.slot_owner(100), Ok(Some(9)));
    assert_eq!(map.slot_timeout(100), Ok(Some(4)));
    assert!(reg.is_registered(&55));
}

#[test]
fn reception_refuses_own_and_broken_frames() {
    let mut map = SlotsMap::new(55);
    let mut reg = BoatsInfoRegistry::new();
    let cs = CommunicationState::init(1, 0, Some(3), None, None, Some(1), None, None, None);
    match handle_transmission(&mut map, &mut reg, 55, report(55, cs, 1), 100) {
        Err(AisError::SelfEmittedMessage) => {}
        other => panic!("unexpected {:?}", other.map(|_| ())),
    }
    assert_eq!(reg.length(), 0);
    assert_eq!(map.slot_owner(100), Ok(None));
    match handle_transmission(&mut map, &mut reg, 55, BitPacker::from_int(0, Some(20)), 100) {
        Err(AisError::AisMessage(AisMessageError::BitPacker(BitPackerError::IndexOutOfBounds))) => {}
        other => panic!("unexpected {:?}", other.map(|_| ())),
    }
}
