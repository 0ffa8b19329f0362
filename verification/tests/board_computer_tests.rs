use shared::board_computer::{BoardAction, BoardComputer};
use shared::boat_info::{BoatInfo, StaticData, VoyageData};
use shared::common::constants::HARBOURMASTER_MMSI;
use shared::common::errors::BoardComputerError;
use shared::common::types::{SatComMessageType, VoyageStatus};
use shared::satcom_message::SatComMessage;
use shared::voyage::{Voyage, VoyageSegment};
use shared::voyage_order::{VoyageOrder, VoyageOrderBody, VoyageOrderHeader};

const BOAT: u32 = 123_456_789;

fn body(dest: &str) -> VoyageOrderBody {
    VoyageOrderBody::from_data(dest, (100, 200), 5, 6, 7, 8, 0, 0)
}

fn order(id: u16, version: u8) -> VoyageOrder {
    VoyageOrder::from_components(&VoyageOrderHeader::from_data(id, version), &body("BREST"))
}

fn msg(t: SatComMessageType, id: u16, version: u8, with_body: bool) -> SatComMessage {
    let b = if with_body { Some(body("LORIENT")) } else { None };
    SatComMessage::new(HARBOURMASTER_MMSI, BOAT, VoyageOrderHeader::from_data(id, version), t, b)
}

fn boat() -> BoatInfo {
    let s = StaticData::new(Some(BOAT), None, None, None, None, None, None, None, None, None, None, None);
    let v = VoyageData::new(Some("NANTES".to_string()), Some(1), Some(1), Some(1), Some(1), None, None, None);
    BoatInfo::new(Some(s), Some(v), None)
}

fn segment() -> VoyageSegment {
    VoyageSegment { navigational_status: 0, start_point: (0, 0), end_point: (100, 200), distance: 0, heading: 0 }
}

fn sailing(status: VoyageStatus) -> BoardComputer {
    let mut v = Voyage::from(order(7, 2), (0, 0), segment());
    v.set_status(status);
    BoardComputer::init(Some(v))
}

#[test]
fn board_ignores_messages_for_others() {
    let s = sailing(VoyageStatus::Completed);
    let mut m = msg(SatComMessageType::EndOfVoyage, 7, 2, false);
    assert_eq!(s.decide(&m, BOAT), BoardAction::EndOfVoyage);
    assert_eq!(s.decide(&m, BOAT + 1), BoardAction::Ignore);
    m.source = 42;
    assert_eq!(s.decide(&m, BOAT), BoardAction::Ignore);
    let other = msg(SatComMessageType::EndOfVoyage, 8, 2, false);
    assert_eq!(s.decide(&other, BOAT), BoardAction::Ignore);
}

#[test]
fn board_takes_up_an_offer_when_free() {
    let mut s = BoardComputer::init(None);
    let mut b = boat();
    let m = msg(SatComMessageType::Offer, 7, 1, true);
    let (replies, res) = s.handle(&m, BOAT, &mut b, segment());
    assert_eq!(res, Ok(()));
    assert_eq!(replies.len(), 2);
    assert_eq!(*replies[0].message_type(), SatComMessageType::Acknowledgement);
    assert_eq!(*replies[1].message_type(), SatComMessageType::RevisionAcceptation);
    assert_eq!(*replies[1].source(), BOAT);
    assert_eq!(*replies[1].target(), HARBOURMASTER_MMSI);
    assert_eq!(*replies[1].order_header().id(), 7);
    assert!(s.matches_status(Some(VoyageStatus::RevisionAccepted)));
    assert_eq!(*s.order().unwrap().header().id(), 7);
    let vd = b.get_voyage_data().unwrap();
    assert_eq!(vd.destination, "LORIENT");
    assert_eq!(vd.eta_month, 5);
    assert_eq!(vd.eta_minute, 8);
}

#[test]
fn board_refuses_an_offer_when_busy() {
    let mut s = sailing(VoyageStatus::InExecution);
    let mut b = boat();
    let m = msg(SatComMessageType::Offer, 9, 1, true);
    let (replies, res) = s.handle(&m, BOAT, &mut b, segment());
    assert_eq!(res, Ok(()));
    assert_eq!(replies.len(), 2);
    assert_eq!(*replies[1].message_type(), SatComMessageType::RevisionRefusal);
    assert_eq!(*s.order().unwrap().header().id(), 7);
    assert_eq!(b.get_voyage_data().unwrap().destination, "NANTES");
}

#[test]
fn board_offer_without_order_fails_after_acknowledging() {
    let mut s = BoardComputer::init(None);
    let mut b = boat();
    let m = msg(SatComMessageType::Offer, 9, 1, false);
    let (replies, res) = s.handle(&m, BOAT, &mut b, segment());
    assert_eq!(res, Err(BoardComputerError::NoVoyageOrder));
    assert_eq!(replies.len(), 1);
    assert_eq!(*replies[0].message_type(), SatComMessageType::Acknowledgement);
    assert!(!s.has_voyage());
}

#[test]
fn board_goes_into_execution_then_ends() {
    let mut s = sailing(VoyageStatus::RevisionAccepted);
    let mut b = boat();
    let ack = msg(SatComMessageType::Acknowledgement, 7, 2, false);
    assert_eq!(s.decide(&ack, BOAT), BoardAction::InitialRevAcceptationAck);
    let (replies, res) = s.handle(&ack, BOAT, &mut b, segment());
    assert_eq!(res, Ok(()));
    assert_eq!(replies.len(), 1);
    assert_eq!(*replies[0].message_type(), SatComMessageType::ExecutingLastAgreedRevision);
    assert!(s.matches_status(Some(VoyageStatus::InExecution)));
    s.update_voyage_status(VoyageStatus::Completed).unwrap();
    let end = msg(SatComMessageType::EndOfVoyage, 7, 2, false);
    let (replies, res) = s.handle(&end, BOAT, &mut b, segment());
    assert_eq!(res, Ok(()));
    assert_eq!(*replies[0].message_type(), SatComMessageType::Acknowledgement);
    assert!(s.matches_status(Some(VoyageStatus::Finished)));
}

#[test]
fn board_revision_request_is_taken_up() {
    let mut s = sailing(VoyageStatus::InExecution);
    let mut b = boat();
    let req = msg(SatComMessageType::RevisionRequest, 7, 3, true);
    assert_eq!(s.decide(&req, BOAT), BoardAction::RevRequest);
    let (replies, res) = s.handle(&req, BOAT, &mut b, segment());
    assert_eq!(res, Ok(()));
    assert_eq!(replies.len(), 2);
    assert_eq!(*replies[0].message_type(), SatComMessageType::Acknowledgement);
    assert_eq!(*replies[1].message_type(), SatComMessageType::RevisionAcceptation);
    assert!(s.matches_status(Some(VoyageStatus::RevisionAccepted)));
    assert_eq!(*s.order().unwrap().header().version(), 3);
    assert_eq!(s.order_revision().err(), Some(BoardComputerError::NoVoyageOrderRevision));
    assert_eq!(b.get_voyage_data().unwrap().destination, "LORIENT");
    let wrong = msg(SatComMessageType::RevisionRequest, 8, 3, true);
    assert_eq!(s.decide(&wrong, BOAT), BoardAction::Ignore);
}

#[test]
fn board_submitted_revision_is_answered() {
    let mut s = sailing(VoyageStatus::RevisionSubmitted);
    let mut b = boat();
    s.set_revision(order(7, 2));
    let ack = msg(SatComMessageType::Acknowledgement, 7, 2, false);
    assert_eq!(s.decide(&ack, BOAT), BoardAction::RevReqAck);
    let acc = msg(SatComMessageType::RevisionAcceptation, 7, 2, false);
    assert_eq!(s.decide(&acc, BOAT), BoardAction::RevAcceptation);
    let (replies, res) = s.handle(&acc, BOAT, &mut b, segment());
    assert_eq!(res, Ok(()));
    assert_eq!(*replies[0].message_type(), SatComMessageType::RevisionAcceptation);
    assert!(s.matches_status(Some(VoyageStatus::RevisionAccepted)));

    let mut s = sailing(VoyageStatus::RevisionSubmitted);
    s.set_revision(order(7, 2));
    let (replies, res) = s.handle(&ack, BOAT, &mut b, segment());
    assert_eq!(res, Ok(()));
    assert!(replies.is_empty());
    assert!(s.matches_status(Some(VoyageStatus::UnderRevision)));

    let mut s = sailing(VoyageStatus::RevisionSubmitted);
    s.set_revision(order(7, 2));
    let refusal = msg(SatComMessageType::RevisionRefusal, 7, 2, false);
    let (replies, res) = s.handle(&refusal, BOAT, &mut b, segment());
    assert_eq!(res, Ok(()));
    assert_eq!(*replies[0].message_type(), SatComMessageType::RevisionRefusal);
    assert!(s.matches_status(Some(VoyageStatus::RevisionRefused)));
}

#[test]
fn board_state_errors() {
    let mut s = BoardComputer::init(None);
    assert_eq!(s.order().err(), Some(BoardComputerError::NoVoyageOrder));
    assert_eq!(s.update_voyage_status(VoyageStatus::Finished), Err(BoardComputerError::NoVoyageOrder));
    assert_eq!(s.set_revision_version(3), Err(BoardComputerError::NoVoyageOrderRevision));
    assert!(s.matches_status(None));
    let ack = msg(SatComMessageType::Acknowledgement, 7, 2, false);
    let (replies, res) = s.handle_initial_rev_acceptation_ack(&ack, BOAT);
    assert_eq!(res, Err(BoardComputerError::NoVoyageOrder));
    assert!(replies.is_empty());
    assert_eq!(s.handle_rev_req_ack(&ack), Err(BoardComputerError::NoVoyageOrderRevision));
    let mut b = boat();
    assert_eq!(s.adopt_voyage_order_rev(&mut b, segment()), Err(BoardComputerError::NoVoyageOrderRevision));
}

#[test]
fn board_foreign_message_changes_nothing() {
    let mut s = sailing(VoyageStatus::Completed);
    let mut b = boat();
    let mut m = msg(SatComMessageType::EndOfVoyage, 7, 2, false);
    m.target = BOAT + 1;
    let (replies, res) = s.handle(&m, BOAT, &mut b, segment());
    assert_eq!(res, Ok(()));
    assert!(replies.is_empty());
    assert!(s.matches_status(Some(VoyageStatus::Completed)));
}
