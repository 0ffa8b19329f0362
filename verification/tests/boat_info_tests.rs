use shared::boat_info::{BoatInfo, NavigationData, StaticData, VoyageData};
use shared::common::types::AisField;

fn sample_info() -> BoatInfo {
    let s = StaticData::new(
        Some(227_006_760),
        Some(9_074_729),
        Some("FQEI".to_string()),
        Some("ALBATROS".to_string()),
        Some(60),
        Some(1),
        Some(0),
        Some(1),
        Some(30),
        Some(10),
        Some(5),
        Some(6),
    );
    let v = VoyageData::new(Some("BREST".to_string()), Some(3), Some(21), Some(14), Some(45), Some(42), Some(0), Some(1));
    let n = NavigationData::new(Some(0), Some(12), Some(1), Some(2_000_000), Some(3_000_000), Some(900), Some(120), Some(-5), Some(88));
    BoatInfo::new(Some(s), Some(v), Some(n))
}

#[test]
fn static_defaults() {
    let s = StaticData::new(None, None, None, None, None, None, None, None, None, None, None, None);
    assert_eq!(s.mmsi, 0);
    assert_eq!(s.call_sign, "@@@@@@@");
    assert_eq!(s.name, "@@@@@@@@@@@@@@@@@@@@");
    assert_eq!(s.spare, 0);
}

#[test]
fn voyage_defaults() {
    let v = VoyageData::new(None, None, None, None, None, None, None, None);
    assert_eq!(v.destination, "@@@@@@@@@@@@@@@@@@@@");
    assert_eq!((v.eta_month, v.eta_day, v.eta_hour, v.eta_minute), (0, 0, 24, 60));
    assert_eq!(v.dte, 1);
    assert_eq!(v.raim_flag, 0);
}

#[test]
fn navigation_defaults() {
    let n = NavigationData::new(None, None, None, None, None, None, None, None, None);
    assert_eq!(n.navigational_status, 15);
    assert_eq!(n.time_stamp, 63);
    assert_eq!(n.course_over_ground, 3601);
    assert_eq!(n.speed_over_ground, 1023);
    assert_eq!(n.rate_of_turn, -128);
    assert_eq!(n.true_heading, 511);
    let info = BoatInfo::new(None, None, None);
    assert_eq!(info.get_navigation_data().unwrap(), n);
    assert_eq!(info.get_static_data().unwrap().name, "@@@@@@@@@@@@@@@@@@@@");
}

#[test]
fn updates() {
    let mut info = sample_info();
    info.update_positon(Some(11), None).unwrap();
    let n = info.get_navigation_data().unwrap();
    assert_eq!((n.latitude, n.longitude), (11, 0));
    assert_eq!(n.true_heading, 88);
    info.update_status(None, Some(5), None).unwrap();
    let n = info.get_navigation_data().unwrap();
    assert_eq!((n.navigational_status, n.time_stamp, n.special_maneuvre_indicator), (15, 5, 0));
    info.update_movement(Some(1), None, Some(3), None).unwrap();
    let n = info.get_navigation_data().unwrap();
    assert_eq!((n.course_over_ground, n.speed_over_ground, n.rate_of_turn, n.true_heading), (1, 1023, 3, 511));
    info.update_voyage_data(None, Some(4), None, None, Some(5)).unwrap();
    let v = info.get_voyage_data().unwrap();
    assert_eq!(v.destination, "@@@@@@@@@@@@@@@@@@@@");
    assert_eq!((v.eta_month, v.eta_day, v.eta_hour, v.eta_minute), (4, 0, 24, 5));
    assert_eq!(v.maximum_present_static_draught, 42);
    assert_eq!(info.get_static_data().unwrap().mmsi, 227_006_760);
}

#[test]
fn writeable_parts() {
    let mut info = sample_info();
    info.get_writeable_navigation_data().unwrap().latitude = 77;
    info.get_writeable_voyage_data().unwrap().dte = 0;
    assert_eq!(info.get_navigation_data().unwrap().latitude, 77);
    assert_eq!(info.get_voyage_data().unwrap().dte, 0);
    let copy = info.clone();
    assert_eq!(copy.get_navigation_data().unwrap().latitude, 77);
}

#[test]
fn numeric_fields_to_bits() {
    let info = sample_info();
    let mmsi = info.to_bits("mmsi", 1).unwrap();
    assert_eq!(*mmsi.bits_len(), 30);
    assert_eq!(mmsi.extract_int(None, None), Ok(227_006_760));
    let rot = info.to_bits("rate_of_turn", 1).unwrap();
    assert_eq!(*rot.bits_len(), 8);
    assert_eq!(rot.extract_int(None, None), Ok(251));
    let lon = info.to_bits("longitude", 1).unwrap();
    assert_eq!(*lon.bits_len(), 28);
    assert_eq!(lon.extract_int(None, None), Ok(3_000_000));
    assert_eq!(*info.to_bits("latitude", 1).unwrap().bits_len(), 27);
    assert_eq!(*info.to_bits("spare", 1).unwrap().bits_len(), 3);
    assert_eq!(*info.to_bits("spare", 5).unwrap().bits_len(), 1);
    assert_eq!(info.to_bits("eta_hour", 5).unwrap().extract_int(None, None), Ok(14));
    assert_eq!(info.to_bits("b", 5).unwrap().extract_int(None, None), Ok(10));
}

#[test]
fn text_fields_to_bits() {
    let info = sample_info();
    let cs = info.to_bits("call_sign", 5).unwrap();
    assert_eq!(*cs.bits_len(), 42);
    assert_eq!(cs.extract_str(None, None), Ok("FQEI".to_string()));
    let dest = info.to_bits("destination", 5).unwrap();
    assert_eq!(*dest.bits_len(), 120);
    assert_eq!(dest.extract_str(None, None), Ok("BREST".to_string()));
}

#[test]
fn unknown_field_gives_no_bits() {
    let info = sample_info();
    assert_eq!(*info.to_bits("heading", 1).unwrap().bits_len(), 0);
    assert_eq!(AisField::from_name("true_heading"), Some(AisField::TrueHeading));
    assert_eq!(AisField::from_name("heading"), None);
}

#[test]
fn field_to_bits_matches_to_bits() {
    let info = sample_info();
    let a = info.field_to_bits(AisField::CourseOverGround, 1);
    let b = info.to_bits("course_over_ground", 1).unwrap();
    assert_eq!(a.to_bin_str(), b.to_bin_str());
    assert_eq!(a.extract_int(None, None), Ok(900));
}

#[test]
fn a_number_wider_than_its_field_reads_back_cut_to_the_width() {
    let s = StaticData::new(Some((1 << 30) + 5), None, None, None, None, None, None, None, None, None, None, None);
    let info = BoatInfo::new(Some(s), None, None);
    let mmsi = info.to_bits("mmsi", 1).unwrap();
    assert_eq!(*mmsi.bits_len(), 30);
    assert_eq!(mmsi.extract_int(None, None), Ok(5));
}
