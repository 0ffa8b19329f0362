use shared::boats_registry::BoatsInfoRegistry;
use shared::common::errors::BoatsRegistryError;
use shared::fms::record_offer_ack;
use shared::boat_info::{BoatInfo, StaticData, VoyageData};
use shared::common::constants::HARBOURMASTER_MMSI;
use shared::common::types::{SatComMessageType, VoyageStatus};
use shared::common::utils::{LocalDateTime, dt_to_slots_idx, get_current_dt, get_timestamp};
use shared::fms::{FmsAction, OrderChange, OrderRecord, decide, dispatch_offers, respond};
use shared::satcom_message::SatComMessage;
use shared::voyage::{Voyage, VoyageSegment};
use shared::voyage_order::{VoyageOrder, VoyageOrderBody, VoyageOrderHeader};

fn msg(source: u32, target: u32, version: u8, t: SatComMessageType) -> SatComMessage {
    SatComMessage::new(source, target, VoyageOrderHeader::from_data(8, version), t, None)
}

fn record(status: VoyageStatus, current: u8, executant: Option<i32>) -> OrderRecord {
    OrderRecord { status: status.into(), current_version_number: current, executant, revision_version_number: None }
}

#[test]
fn fms_ignores_what_is_not_its_business() {
    let m = msg(12, 99, 1, SatComMessageType::Acknowledgement);
    assert_eq!(decide(&m, Some(record(VoyageStatus::Unassigned, 1, None))), FmsAction::Ignore);
    let m = msg(12, HARBOURMASTER_MMSI, 1, SatComMessageType::Acknowledgement);
    assert_eq!(decide(&m, None), FmsAction::Ignore);
    let m = msg(12, HARBOURMASTER_MMSI, 1, SatComMessageType::Offer);
    assert_eq!(decide(&m, Some(record(VoyageStatus::Unassigned, 1, None))), FmsAction::Ignore);
}

#[test]
fn fms_drops_a_message_for_another_boat_whatever_the_order_holds() {
    let m = msg(12, 99, 255, SatComMessageType::RevisionRefusal);
    let a = decide(&m, Some(record(VoyageStatus::UnderRevision, 255, Some(12))));
    assert_eq!(a, FmsAction::Ignore);
    assert_eq!(a.new_status(), None);
    assert_eq!(a.reply(), None);
    assert_eq!(a.order_change(&m), OrderChange::Nothing);
}

#[test]
fn fms_offer_and_initial_revision() {
    let ack = msg(12, HARBOURMASTER_MMSI, 1, SatComMessageType::Acknowledgement);
    let a = decide(&ack, Some(record(VoyageStatus::Unassigned, 1, None)));
    assert_eq!(a, FmsAction::OfferAck);
    assert_eq!(a.new_status(), Some(VoyageStatus::UnderRevision));
    assert_eq!(a.reply(), None);
    let acc = msg(12, HARBOURMASTER_MMSI, 1, SatComMessageType::RevisionAcceptation);
    let a = decide(&acc, Some(record(VoyageStatus::UnderRevision, 1, None)));
    assert_eq!(a, FmsAction::InitialRevAcceptation);
    assert_eq!(a.reply(), Some(SatComMessageType::Acknowledgement));
    let refusal = msg(12, HARBOURMASTER_MMSI, 1, SatComMessageType::RevisionRefusal);
    let a = decide(&refusal, Some(record(VoyageStatus::UnderRevision, 1, None)));
    assert_eq!(a, FmsAction::InitialRevRefusal);
    assert_eq!(a.new_status(), Some(VoyageStatus::Unassigned));
}

#[test]
fn fms_execution_and_end() {
    let ready = msg(12, HARBOURMASTER_MMSI, 3, SatComMessageType::NoticeOfReadiness);
    let a = decide(&ready, Some(record(VoyageStatus::InExecution, 3, Some(12))));
    assert_eq!(a, FmsAction::NoticeOfReadiness);
    assert_eq!(a.new_status(), Some(VoyageStatus::Completed));
    assert_eq!(a.reply(), Some(SatComMessageType::EndOfVoyage));
    assert_eq!(decide(&ready, Some(record(VoyageStatus::InExecution, 3, Some(13)))), FmsAction::Ignore);
    let exec = msg(12, HARBOURMASTER_MMSI, 3, SatComMessageType::ExecutingLastAgreedRevision);
    assert_eq!(
        decide(&exec, Some(record(VoyageStatus::RevisionRefused, 3, Some(12)))),
        FmsAction::LastAgreedRevExecution
    );
    let abort = msg(12, HARBOURMASTER_MMSI, 3, SatComMessageType::Aborting);
    let a = decide(&abort, Some(record(VoyageStatus::Completed, 3, Some(12))));
    assert_eq!(a, FmsAction::Aborting);
    assert_eq!(a.new_status(), Some(VoyageStatus::Finished));
    let req = msg(12, HARBOURMASTER_MMSI, 3, SatComMessageType::RevisionRequest);
    assert_eq!(decide(&req, Some(record(VoyageStatus::InExecution, 3, Some(12)))), FmsAction::RevRequest);
}

#[test]
fn fms_revisions() {
    let ack = msg(12, HARBOURMASTER_MMSI, 4, SatComMessageType::Acknowledgement);
    assert_eq!(decide(&ack, Some(record(VoyageStatus::RevisionSubmitted, 3, Some(12)))), FmsAction::RevReqAck);
    let mut r = record(VoyageStatus::RevisionSubmitted, 3, Some(12));
    r.revision_version_number = Some(6);
    assert_eq!(decide(&ack, Some(r)), FmsAction::Ignore);
    let ack6 = msg(12, HARBOURMASTER_MMSI, 6, SatComMessageType::Acknowledgement);
    assert_eq!(decide(&ack6, Some(r)), FmsAction::RevReqAck);
    let acc = msg(12, HARBOURMASTER_MMSI, 3, SatComMessageType::RevisionAcceptation);
    assert_eq!(decide(&acc, Some(record(VoyageStatus::UnderRevision, 3, Some(12)))), FmsAction::RevAcceptation);
    let refusal = msg(12, HARBOURMASTER_MMSI, 4, SatComMessageType::RevisionRefusal);
    let a = decide(&refusal, Some(record(VoyageStatus::UnderRevision, 3, Some(12))));
    assert_eq!(a, FmsAction::RevRefusal);
    assert_eq!(a.new_status(), Some(VoyageStatus::RevisionRefused));
}

#[test]
fn fms_reply() {
    let m = msg(12, HARBOURMASTER_MMSI, 2, SatComMessageType::NoticeOfReadiness);
    let r = respond(&m, SatComMessageType::EndOfVoyage);
    assert_eq!(*r.source(), HARBOURMASTER_MMSI);
    assert_eq!(*r.target(), 12);
    assert_eq!(*r.order_header().id(), 8);
    assert_eq!(*r.order_header().version(), 2);
    assert_eq!(*r.message_type(), SatComMessageType::EndOfVoyage);
    assert!(r.order_body_review().is_none());
}

fn order(id: u16) -> VoyageOrder {
    let body = VoyageOrderBody::from_data("BREST", (10, 20), 1, 2, 3, 4, 0, 0);
    VoyageOrder::from_components(&VoyageOrderHeader::from_data(id, 1), &body)
}

fn boat(mmsi: u32, dest: Option<&str>) -> BoatInfo {
    let s = StaticData::new(Some(mmsi), None, None, None, None, None, None, None, None, None, None, None);
    let v = VoyageData::new(dest.map(|d| d.to_string()), None, None, None, None, None, None, None);
    BoatInfo::new(Some(s), Some(v), None)
}

#[test]
fn dispatcher_offers_orders_to_free_boats() {
    let orders = vec![order(1), order(2), order(3)];
    let boats = vec![(5, boat(5, Some("CALAIS"))), (6, boat(6, None)), (7, boat(7, None))];
    let offers = dispatch_offers(&orders, &boats);
    assert_eq!(offers.len(), 2);
    assert_eq!(*offers[0].target(), 6);
    assert_eq!(*offers[0].order_header().id(), 1);
    assert_eq!(*offers[1].target(), 7);
    assert_eq!(*offers[1].order_header().id(), 2);
    assert_eq!(*offers[0].message_type(), SatComMessageType::Offer);
    assert_eq!(*offers[0].source(), HARBOURMASTER_MMSI);
    assert_eq!(offers[1].order_body_review().unwrap().destination(), "BREST");
    assert_eq!(dispatch_offers(&[], &boats).len(), 0);
}

fn segment(start: (u16, u16), end: (u16, u16)) -> VoyageSegment {
    VoyageSegment { navigational_status: 0, start_point: start, end_point: end, distance: 0, heading: 0 }
}

#[test]
fn distance_from_end_as_computed_on_board() {
    assert_eq!(segment((0, 0), (0, 0)).distance_from_end((3, 4)), 1);
    assert_eq!(segment((0, 0), (10, 0)).distance_from_end((0, 0)), 3);
    assert_eq!(segment((0, 0), (0, 0)).distance_from_end((0, 5)), 0);
    assert_eq!(segment((0, 0), (300, 0)).distance_from_end((0, 0)), 17);
}

#[test]
fn voyage_segments() {
    let first = segment((1, 2), (10, 20));
    let mut v = Voyage::from(order(4), (1, 2), first);
    assert_eq!(*v.status(), VoyageStatus::UnderRevision);
    assert_eq!(v.segments()[0].start_point, (1, 2));
    assert_eq!(v.segments()[0].end_point, *order(4).body().destination_position());
    assert_eq!(*v.current_segment(), 0);
    assert_eq!(v.segments().len(), 1);
    assert_eq!(v.get_current_segment().end_point, (10, 20));
    assert!(v.next_segment().is_none());
    assert_eq!(*v.current_segment(), 0);
    v.set_status(VoyageStatus::InExecution);
    assert_eq!(*v.status(), VoyageStatus::InExecution);
    v.set_order(order(9));
    assert_eq!(*v.order().header().id(), 9);
}

#[test]
fn slots_of_a_time() {
    let dt = LocalDateTime { hour: 1, minute: 2, second: 30, nanosecond: 0, timestamp: 1_000 };
    assert_eq!(dt_to_slots_idx(Some(dt)), Some([1125, 3375]));
    let end = LocalDateTime { hour: 1, minute: 2, second: 59, nanosecond: 999_999_999, timestamp: 1_000 };
    assert_eq!(dt_to_slots_idx(Some(end)), Some([2249, 4499]));
    let leap = LocalDateTime { hour: 23, minute: 59, second: 59, nanosecond: 1_500_000_000, timestamp: 0 };
    assert_eq!(dt_to_slots_idx(Some(leap)), Some([2249, 4499]));
    let now = dt_to_slots_idx(None).unwrap();
    assert!(now[0] < 2250 && now[1] == now[0] + 2250);
    assert_eq!(get_timestamp(Some(dt)), Some(1_000));
    assert!(get_timestamp(None).unwrap() > 1_600_000_000);
}

#[test]
fn offer_ack_records_the_voyage_on_the_boat() {
    let mut reg = BoatsInfoRegistry::new();
    reg.register(boat(5, None)).unwrap();
    record_offer_ack(&mut reg, 5, "BREST".to_string(), 1, 2, 3, 4).unwrap();
    let vd = reg.get(5).unwrap().get_voyage_data().unwrap();
    assert_eq!(vd.destination, "BREST");
    assert_eq!((vd.eta_month, vd.eta_day, vd.eta_hour, vd.eta_minute), (1, 2, 3, 4));
    assert_eq!(record_offer_ack(&mut reg, 6, "X".to_string(), 1, 2, 3, 4), Err(BoatsRegistryError::UnkownMmsi));
}

#[test]
fn fms_order_changes() {
    let acc = msg(12, HARBOURMASTER_MMSI, 3, SatComMessageType::RevisionAcceptation);
    assert_eq!(FmsAction::RevAcceptation.order_change(&acc), OrderChange::SetCurrentVersion { id: 8, version: 3 });
    assert_eq!(FmsAction::InitialRevAcceptation.order_change(&acc), OrderChange::Assign { id: 8, executant: 12 });
    assert_eq!(FmsAction::RevRefusal.order_change(&acc), OrderChange::DeleteVersion { id: 8, version: 3 });
    assert_eq!(FmsAction::Aborting.order_change(&acc), OrderChange::Nothing);
}

#[test]
fn the_clock_reads_a_time_of_day() {
    let dt = get_current_dt().unwrap();
    assert!(dt.hour < 24 && dt.minute < 60 && dt.second < 60);
    assert!(dt.nanosecond < 2_000_000_000);
    assert!(dt.timestamp > 1_600_000_000);
}
