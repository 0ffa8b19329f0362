use shared::common::types::Channel;
use shared::slot::Slot;
use shared::slots_map::SlotsMap;

#[test]
fn slot_lifecycle() {
    let mut s = Slot::new(10);
    assert_eq!(*s.number(), 10);
    assert_eq!(*s.channel(), Channel::C87B);
    assert!(s.is_free());
    assert_eq!(*s.frames_since_last_use(), -2);
    s.book(7, Some(1), true);
    assert_eq!(*s.owner(), Some(7));
    assert_eq!(*s.timeout(), Some(1));
    assert!(*s.is_assigned());
    assert_eq!(*s.frames_since_last_use(), 0);
    s.book(8, Some(5), false);
    assert_eq!(*s.owner(), Some(7));
    s.tick();
    assert_eq!(*s.timeout(), Some(0));
    assert_eq!(*s.frames_since_last_use(), -1);
    s.tick();
    assert!(s.is_free());
    assert_eq!(*s.timeout(), None);
    assert_eq!(*s.frames_since_last_use(), -2);
}

#[test]
fn slot_release_and_flag() {
    let mut s = Slot::new(2300);
    assert_eq!(*s.channel(), Channel::C88B);
    s.book(1, None, false);
    s.flag_as_used();
    assert_eq!(*s.frames_since_last_use(), -1);
    s.release();
    assert!(s.is_free());
    assert!(!*s.is_assigned());
    s.set_owner(Some(3));
    s.set_timeout(Some(2));
    s.set_is_assigned(true);
    s.set_frames_since_last_use(1);
    assert_eq!(*s.owner(), Some(3));
    assert_eq!(*s.timeout(), Some(2));
    assert_eq!(*s.frames_since_last_use(), 1);
}

#[test]
fn slot_channels() {
    assert_eq!(Slot::idx_to_channel(0), Ok(Channel::C87B));
    assert_eq!(Slot::idx_to_channel(2249), Ok(Channel::C87B));
    assert_eq!(Slot::idx_to_channel(2250), Ok(Channel::C88B));
    assert_eq!(Slot::idx_to_channel(4500), Ok(Channel::C88B));
    assert_eq!(Slot::idx_to_channel(4501), Err("Numéro de slot invalide"));
}

#[test]
fn map_starts_free() {
    let map = SlotsMap::new(42);
    assert_eq!(map.slot_owner(0), Ok(None));
    assert_eq!(map.slot_timeout(4499), Ok(None));
    assert_eq!(map.slot_channel(2249), Ok(Channel::C87B));
    assert_eq!(map.slot_channel(2250), Ok(Channel::C88B));
    assert_eq!(map.is_slot_free(100), Ok(true));
    assert_eq!(map.is_slot_expired(100), Ok(false));
    assert_eq!(map.get_available_ssi(None).unwrap().len(), 4500);
    assert_eq!(map.get_available_ssi(Some(Channel::C88B)).unwrap().len(), 2250);
    assert_eq!(map.get_available_ssi(Some(Channel::GPS)).unwrap().len(), 0);
}

#[test]
fn map_book_use_release() {
    let mut map = SlotsMap::new(42);
    map.book_slot(10, 7, Some(2), None).unwrap();
    assert_eq!(map.slot_owner(10), Ok(Some(7)));
    assert_eq!(map.slot_timeout(10), Ok(Some(2)));
    assert_eq!(map.is_slot_free(10), Ok(false));
    map.book_slot(10, 8, Some(5), Some(true)).unwrap();
    assert_eq!(map.slot_owner(10), Ok(Some(7)));
    map.use_slot(10).unwrap();
    assert_eq!(map.slot_timeout(10), Ok(Some(1)));
    map.set_slot_timeout(10, Some(0)).unwrap();
    map.use_slot(10).unwrap();
    assert_eq!(map.slot_owner(10), Ok(None));
    map.book_slot(11, 7, None, None).unwrap();
    map.release_slot(11).unwrap();
    assert_eq!(map.is_slot_free(11), Ok(true));
    map.flag_slot_as_used(12).unwrap();
    assert_eq!(map.is_slot_expired(12), Ok(false));
}

#[test]
fn map_available_slots() {
    let mut map = SlotsMap::new(42);
    map.book_slot(10, 7, None, None).unwrap();
    map.book_slot(3000, 7, None, None).unwrap();
    assert_eq!(map.get_available_ssi(Some(Channel::C87B)).unwrap().len(), 2249);
    assert_eq!(map.get_available_ssi(Some(Channel::Any)).unwrap().len(), 4498);
    assert_eq!(&*map.filter_available_ssi(&[9, 10, 11, 3000]).unwrap(), &[9u16, 11][..]);
}

#[test]
fn cleanup_counts_frames_and_frees_stale_slots() {
    let mut map = SlotsMap::new(42);
    map.book_slot(5, 7, None, None).unwrap();
    map.book_slot(6, 7, None, None).unwrap();
    map.cleanup_slots();
    map.cleanup_slots();
    map.cleanup_slots();
    assert_eq!(map.slot_owner(5), Ok(Some(7)));
    assert_eq!(map.is_slot_expired(5), Ok(true));
    map.flag_slot_as_used(6).unwrap();
    map.cleanup_slots();
    assert_eq!(map.slot_owner(5), Ok(None));
    assert_eq!(map.slot_owner(6), Ok(Some(7)));
    assert_eq!(map.is_slot_free(100), Ok(true));
}

#[test]
fn slot_arithmetic() {
    assert_eq!(SlotsMap::offseted_si(2249, 2), 1);
    assert_eq!(SlotsMap::offseted_si(4499, 1), 2250);
    assert_eq!(SlotsMap::offseted_si(100, 50), 150);
    assert_eq!(SlotsMap::si_offset(Some(2249), 1), Some(2));
    assert_eq!(SlotsMap::si_offset(Some(10), 2260), Some(0));
    assert_eq!(SlotsMap::si_offset(Some(100), SlotsMap::offseted_si(100, 2300)), Some(50));
    assert_eq!(SlotsMap::absolute_si_distance(Some(10), 2255), Some(5));
    assert_eq!(SlotsMap::absolute_si_distance(Some(2255), 10), Some(5));
    assert!(SlotsMap::si_offset(None, 10).unwrap() < 2250);
}

#[test]
fn slot_ranges() {
    let map = SlotsMap::new(42);
    assert_eq!(&*map.ssi_range(5, 7, Channel::C87B), &[5u16, 6, 7][..]);
    assert_eq!(&*map.ssi_range(5, 7, Channel::C88B), &[2255u16, 2256, 2257][..]);
    assert_eq!(&*map.ssi_range(2248, 1, Channel::C87B), &[2248u16, 2249, 0, 1][..]);
    assert_eq!(&*map.ssi_range(2248, 1, Channel::C88B), &[4498u16, 4499, 2250, 2251][..]);
    assert_eq!(&*map.ssi_range(0, 2, Channel::C88B), &[2250u16, 2251, 2252][..]);
    assert_eq!(&*map.ssi_range(1, 2, Channel::Any), &[1u16, 2, 2251, 2252][..]);
    assert_eq!(
        &*map.ssi_range(2249, 0, Channel::Any),
        &[2249u16, 0, 4499, 2250][..]
    );
    assert_eq!(map.ssi_range(1, 2, Channel::GPS).len(), 0);
    assert_eq!(map.ssi_range(0, 5, Channel::GPS).len(), 0);
    assert_eq!(map.ssi_range(0, 5, Channel::SATCOM).len(), 0);
}

#[test]
fn slot_ranges_cover_the_minute_once() {
    let map = SlotsMap::new(1);
    for (s, e) in [(0u16, 2249u16), (2249, 2248), (1000, 10), (7, 7)] {
        let a = map.ssi_range(s, e, Channel::C87B);
        assert_eq!(a.len(), ((e as usize + 2250 - s as usize) % 2250) + 1);
        for (i, x) in a.iter().enumerate() {
            assert_eq!(*x as usize, (s as usize + i) % 2250);
        }
        let b = map.ssi_range(s, e, Channel::C88B);
        let shifted: Vec<u16> = a.iter().map(|x| x + 2250).collect();
        assert_eq!(&*b, &shifted[..]);
        let both = map.ssi_range(s, e, Channel::Any);
        assert_eq!(&*both, &[&*a, &*b].concat()[..]);
    }
}

#[test]
fn scans() {
    let mut map = SlotsMap::new(42);
    map.book_slot(10, 42, None, None).unwrap();
    map.book_slot(12, 7, None, None).unwrap();
    assert_eq!(&*map.scan_for_self_owned_ssi(Some(5), Some(8), Channel::C87B).unwrap(), &[10u16][..]);
    assert_eq!(map.scan_for_self_owned_ssi(None, None, Channel::Any).unwrap().len(), 1);
    assert_eq!(
        &*map.scan_for_free_ssi(Some(3), Some(8), None, Channel::C87B).unwrap(),
        &[8u16, 9, 11][..]
    );
    assert_eq!(
        &*map.scan_for_free_ssi(Some(3), Some(8), None, Channel::Any).unwrap(),
        &[2258u16, 2259, 2260, 2261][..]
    );
    assert_eq!(map.scan_for_free_ssi(Some(3), Some(8), Some(5), Channel::Any).unwrap().len(), 0);
    assert_eq!(map.scan_for_free_ssi(Some(3), Some(8), None, Channel::SATCOM).unwrap().len(), 0);
    let now = map.scan_for_free_ssi(Some(10), None, None, Channel::C87B).unwrap();
    assert!(now.len() <= 11 && now.iter().all(|&s| s < 2250));
}

#[test]
fn current_slots() {
    let a = SlotsMap::current_si(Channel::C87B).unwrap();
    let b = SlotsMap::current_si(Channel::C88B).unwrap();
    assert!(a < 2250);
    assert!((2250..4500).contains(&b));
    let map = SlotsMap::new(1);
    assert!(map.is_slot_current(5000).is_ok());
    assert_eq!(map.is_slot_current(4600), Ok(false));
}
