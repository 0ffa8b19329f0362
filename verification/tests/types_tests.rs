use shared::bitpacker::BitPacker;
use shared::common::types::{AisPacket, Channel, SatComMessageType, ShipType, SpeedProfile, UnitType, VoyageStatus};

#[test]
fn voyage_status_codes() {
    assert_eq!(u8::from(VoyageStatus::Unassigned), 0);
    assert_eq!(u8::from(VoyageStatus::InExecution), 5);
    assert_eq!(VoyageStatus::from(5u8), VoyageStatus::InExecution);
    assert_eq!(VoyageStatus::from(8u8), VoyageStatus::Aborted);
    assert_eq!(VoyageStatus::from(200u8), VoyageStatus::Unknown);
    for s in [VoyageStatus::UnderRevision, VoyageStatus::RevisionSubmitted, VoyageStatus::Finished] {
        assert_eq!(VoyageStatus::from(u8::from(s)), s);
    }
}

#[test]
fn satcom_type_codes() {
    assert_eq!(u8::from(SatComMessageType::Offer), 0);
    assert_eq!(u8::from(SatComMessageType::EndOfVoyage), 9);
    assert_eq!(SatComMessageType::from(8u8), SatComMessageType::NoticeOfReadiness);
    assert_eq!(SatComMessageType::from(10u8), SatComMessageType::Unknown);
}

#[test]
fn ship_type_codes() {
    assert_eq!(u8::from(ShipType::CargoAll), 70);
    assert_eq!(ShipType::from(60u8), ShipType::PassengerAll);
    assert_eq!(ShipType::from(68u8), ShipType::Unknown);
    assert_eq!(u8::from(ShipType::Unknown), 255);
    assert_eq!(ShipType::from(u8::from(ShipType::TankerNoInfo)), ShipType::TankerNoInfo);
}

#[test]
fn unit_and_speed_codes() {
    assert_eq!(UnitType::from(2u8), UnitType::Boat);
    assert_eq!(UnitType::from(7u8), UnitType::Unkown);
    assert_eq!(u8::from(UnitType::Harbourmaster), 1);
    assert_eq!(SpeedProfile::from(1u8), SpeedProfile::Classic);
    assert_eq!(u8::from(SpeedProfile::Fast), 2);
    assert_eq!(SpeedProfile::from(3u8), SpeedProfile::Unknown);
}

#[test]
fn packet_holds_its_channel() {
    let p = AisPacket::from(BitPacker::from_int(3, Some(2)), Channel::C88B);
    assert_eq!(p.channel, Channel::C88B);
    assert_eq!(p.message.to_bin_str(), "11");
}
