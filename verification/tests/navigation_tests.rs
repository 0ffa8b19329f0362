use shared::bitpacker::BitPacker;
use shared::navigation::read_gps_fix;
use shared::boat_info::NavigationData;
use shared::navigation::{
    advance_voyage, distance_from_current_segment_end, heading_error, is_on_heading, record_position,
    route_action, turn_command, turn_target, RouteAction,
};
use shared::voyage::{Voyage, VoyageSegment};
use shared::voyage_order::{VoyageOrder, VoyageOrderBody, VoyageOrderHeader};

#[test]
fn heading_error_takes_the_short_way() {
    assert_eq!(heading_error(90, 0), 90);
    assert_eq!(heading_error(0, 90), -90);
    assert_eq!(heading_error(10, 350), 20);
    assert_eq!(heading_error(350, 10), -20);
    assert_eq!(heading_error(180, 0), -180);
    assert_eq!(heading_error(0, 0), 0);
}

#[test]
fn turn_commands_only_on_a_change_of_side() {
    assert_eq!(turn_command(0, 30), Some((-100, 100)));
    assert_eq!(turn_command(0, -30), Some((100, -100)));
    assert_eq!(turn_command(30, 20), None);
    assert_eq!(turn_command(30, -5), Some((100, -100)));
    assert_eq!(turn_command(-30, 5), Some((-100, 100)));
    assert_eq!(turn_command(-30, -5), None);
}

#[test]
fn turning_wraps_the_compass() {
    assert_eq!(turn_target(350, 20), 10);
    assert_eq!(turn_target(10, -20), 350);
    assert_eq!(turn_target(0, 0), 0);
    assert_eq!(turn_target(100, -460), 0);
}

#[test]
fn on_heading_within_tolerance() {
    assert!(is_on_heading(355, 5, 10));
    assert!(!is_on_heading(340, 5, 10));
    assert!(is_on_heading(90, 95, 5));
    assert!(!is_on_heading(90, 96, 5));
}

#[test]
fn route_actions() {
    assert_eq!(route_action(Some(3), 5), RouteAction::SegmentReached);
    assert_eq!(route_action(Some(5), 5), RouteAction::SegmentReached);
    assert_eq!(route_action(Some(6), 5), RouteAction::CheckCourse);
    assert_eq!(route_action(None, 5), RouteAction::Stop);
}

fn order_to(destination: (u16, u16)) -> VoyageOrder {
    let body = VoyageOrderBody::from_data("BREST", destination, 1, 2, 3, 4, 0, 0);
    VoyageOrder::from_components(&VoyageOrderHeader::from_data(1, 1), &body)
}

fn segment(end: (u16, u16)) -> VoyageSegment {
    VoyageSegment { navigational_status: 0, start_point: (0, 0), end_point: end, distance: 0, heading: 0 }
}

#[test]
fn a_voyage_of_one_segment_ends_at_its_end() {
    let mut v = Some(Voyage::from(order_to((10, 20)), (0, 0), segment((10, 20))));
    assert!(advance_voyage(&mut v));
    assert!(v.is_none());
    let mut none: Option<Voyage> = None;
    assert!(!advance_voyage(&mut none));
}

#[test]
fn distance_to_the_segment_end() {
    let nav = NavigationData::new(None, None, None, Some(0), Some(0), None, None, None, None);
    let v = Some(Voyage::from(order_to((0, 0)), (0, 0), segment((0, 0))));
    assert_eq!(distance_from_current_segment_end(&v, &nav), Some(0));
    let v = Some(Voyage::from(order_to((10, 0)), (0, 0), segment((10, 0))));
    assert_eq!(distance_from_current_segment_end(&v, &nav), Some(3));
    assert_eq!(distance_from_current_segment_end(&None, &nav), None);
}

#[test]
fn position_history_keeps_five() {
    let mut h: Vec<(u16, u16)> = Vec::new();
    for i in 0..7u16 {
        record_position(&mut h, (i, i));
    }
    assert_eq!(h, vec![(2, 2), (3, 3), (4, 4), (5, 5), (6, 6)]);
}

#[test]
fn gps_fix_fields() {
    let fix = BitPacker::from_slice(&[0, 0, 0, 3, 0, 0, 0, 2, 0, 0, 1, 4], None);
    assert_eq!(read_gps_fix(&fix), Some((260, 2, 3)));
    let short = BitPacker::from_slice(&[0; 8], None);
    assert_eq!(read_gps_fix(&short), None);
}

#[test]
fn turning_by_the_heading_error_faces_the_target() {
    for (target, current) in [(0u16, 0u16), (90, 0), (10, 350), (350, 10), (359, 180), (500, 20), (180, 0)] {
        let e = heading_error(target, current);
        assert_eq!(turn_target(current, e as i16), target % 360);
    }
}
