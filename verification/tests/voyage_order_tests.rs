use shared::bitpacker::BitPacker;
use shared::common::errors::{BitPackerError, SatComMessageError, VoyageOrderError};
use shared::common::types::SatComMessageType;
use shared::satcom_message::SatComMessage;
use shared::voyage_order::{VoyageOrder, VoyageOrderBody, VoyageOrderHeader};

fn sample_body() -> VoyageOrderBody {
    VoyageOrderBody::from_data("le havre", (1200, 640), 7, 14, 9, 30, 3, 1)
}

#[test]
fn header_bits_and_round_trip() {
    let header = VoyageOrderHeader::from_data(0x1234, 0);
    let bits = header.to_bitpacker();
    assert_eq!(*bits.bits_len(), 40);
    assert_eq!(bits.extract_int(Some(0), Some(31)), Ok(0x1234));
    assert_eq!(bits.extract_int(Some(32), Some(39)), Ok(0));
    let back = VoyageOrderHeader::from_bitpacker(&bits).unwrap();
    assert_eq!(*back.id(), 0x1234);
    assert_eq!(*back.version(), 0);
}

#[test]
fn header_reads_the_version_after_the_id() {
    let bits = BitPacker::from_int(9, Some(8)).add(BitPacker::from_int(77, Some(16)));
    let header = VoyageOrderHeader::from_bitpacker(&bits).unwrap();
    assert_eq!(*header.id(), 77);
    assert_eq!(*header.version(), 9);
}

#[test]
fn header_too_short() {
    let bits = BitPacker::from_int(1, Some(16));
    assert_eq!(
        VoyageOrderHeader::from_bitpacker(&bits).err(),
        Some(VoyageOrderError::BitPacker(BitPackerError::IndexOutOfBounds))
    );
}

#[test]
fn header_setters() {
    let mut header = VoyageOrderHeader::from_data(3, 1);
    header.set_version(4);
    assert_eq!(*header.version(), 4);
    assert_eq!(*header.id(), 3);
}

#[test]
fn body_round_trip() {
    let body = sample_body();
    let bits = body.to_bitpacker();
    assert_eq!(*bits.bits_len(), 200);
    let back = VoyageOrderBody::from_bitpacker(&bits).unwrap();
    assert_eq!(back.destination(), "LE HAVRE");
    assert_eq!(*back.destination_position(), (1200, 640));
    assert_eq!(*back.eta_month(), 7);
    assert_eq!(*back.eta_day(), 14);
    assert_eq!(*back.eta_hour(), 9);
    assert_eq!(*back.eta_minute(), 30);
    assert_eq!(*back.cargo_type(), 3);
    assert_eq!(*back.speed_profile(), 1);
}

#[test]
fn body_too_short() {
    let bits = BitPacker::from_int(0, Some(192));
    assert_eq!(
        VoyageOrderBody::from_bitpacker(&bits).err(),
        Some(VoyageOrderError::BitPacker(BitPackerError::IndexOutOfBounds))
    );
}

#[test]
fn order_bits_put_the_header_below_the_body() {
    let order = VoyageOrder::from_components(&VoyageOrderHeader::from_data(5, 0), &sample_body());
    let bits = order.to_bitpacker();
    assert_eq!(*bits.bits_len(), 240);
    assert_eq!(bits.extract_int(Some(0), Some(31)), Ok(5));
    let body = VoyageOrderBody::from_bitpacker(&bits.slice(Some(40), None).unwrap()).unwrap();
    assert_eq!(body.destination(), "LE HAVRE");
}

#[test]
fn order_reads_its_header_from_the_first_24_bits() {
    let order = VoyageOrder::from_components(&VoyageOrderHeader::from_data(5, 0), &sample_body());
    let back = VoyageOrder::from_bitpacker(&order.to_bitpacker()).unwrap();
    assert_eq!(*back.header().id(), 5);
    assert_eq!(*back.header().version(), 0);
}

#[test]
fn order_too_short() {
    let bits = BitPacker::from_int(0, Some(216));
    assert_eq!(
        VoyageOrder::from_bitpacker(&bits).err(),
        Some(VoyageOrderError::BitPacker(BitPackerError::IndexOutOfBounds))
    );
}

#[test]
fn order_versions() {
    let mut order = VoyageOrder::from_components(&VoyageOrderHeader::from_data(5, 1), &sample_body());
    let rev = VoyageOrder::from_components(&VoyageOrderHeader::from_data(5, 2), &sample_body());
    let other = VoyageOrder::from_components(&VoyageOrderHeader::from_data(6, 2), &sample_body());
    assert!(rev.is_rev_of(&order));
    assert!(!order.is_rev_of(&rev));
    assert!(!other.is_rev_of(&order));
    order.set_ver(2);
    assert_eq!(*order.header().version(), 2);
}

#[test]
fn satcom_round_trip_with_a_body() {
    let msg = SatComMessage::new(
        123,
        0x3FFF_FFFF,
        VoyageOrderHeader::from_data(42, 0),
        SatComMessageType::RevisionRequest,
        Some(sample_body()),
    );
    let bits = msg.to_bitpacker();
    assert_eq!(*bits.bits_len(), 312);
    let back = SatComMessage::parse(bits).unwrap();
    assert_eq!(*back.source(), 123);
    assert_eq!(*back.target(), 0x3FFF_FFFF);
    assert_eq!(*back.order_header().id(), 42);
    assert_eq!(*back.message_type(), SatComMessageType::RevisionRequest);
    let body = back.order_body_review().unwrap();
    assert_eq!(body.destination(), "LE HAVRE");
    assert_eq!(*body.eta_minute(), 30);
    let order = back.order().unwrap();
    assert_eq!(*order.header().id(), 42);
}

#[test]
fn satcom_round_trip_without_a_body() {
    let msg = SatComMessage::new(1, 2, VoyageOrderHeader::from_data(3, 0), SatComMessageType::Aborting, None);
    let bits = msg.to_bitpacker();
    assert_eq!(*bits.bits_len(), 112);
    let back = SatComMessage::parse(bits).unwrap();
    assert_eq!(*back.message_type(), SatComMessageType::Aborting);
    assert!(back.order_body_review().is_none());
    assert!(back.order().is_none());
}

#[test]
fn satcom_unknown_type_code() {
    let msg = SatComMessage::new(1, 2, VoyageOrderHeader::from_data(3, 0), SatComMessageType::Offer, None);
    let bits = msg.to_bitpacker();
    let patched = BitPacker::from_int(200, Some(8)).add(bits.slice(Some(0), Some(103)).unwrap());
    let back = SatComMessage::parse(patched).unwrap();
    assert_eq!(*back.message_type(), SatComMessageType::Unknown);
}

#[test]
fn satcom_errors() {
    assert_eq!(
        SatComMessage::parse(BitPacker::from_int(0, Some(100))).err(),
        Some(SatComMessageError::BitPacker(BitPackerError::IndexOutOfBounds))
    );
    assert_eq!(
        SatComMessage::parse(BitPacker::from_int(0, Some(200))).err(),
        Some(SatComMessageError::VoyageOrder(VoyageOrderError::BitPacker(
            BitPackerError::IndexOutOfBounds
        )))
    );
}
