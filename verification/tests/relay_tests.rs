use shared::bitpacker::BitPacker;
use shared::common::errors::BitPackerError;
use shared::common::types::Channel;
use shared::navigation::read_gps_fix;
use shared::relay::{gps_fix_response, gps_request_client, relay_action, split_gps_response, RelayAction};

#[test]
fn relay_actions_by_channel_and_sender() {
    let hello = BitPacker::from_str("hello", None);
    assert_eq!(relay_action(&hello, Channel::GPS, false), RelayAction::Dropped);
    let m = BitPacker::from_int(7, Some(32));
    assert_eq!(relay_action(&m, Channel::GPS, true), RelayAction::GpsResponse);
    assert_eq!(relay_action(&m, Channel::GPS, false), RelayAction::GpsRequest);
    assert_eq!(relay_action(&m, Channel::C87B, true), RelayAction::Relay);
}

#[test]
fn gps_request_and_response_fields() {
    let request = BitPacker::from_int(0x0A00_0102, Some(32));
    assert_eq!(gps_request_client(&request), Ok(0x0A00_0102));
    assert_eq!(gps_request_client(&BitPacker::from_slice(&[], None)), Err(BitPackerError::IndexOutOfBounds));
    let response = BitPacker::from_slice(&[0x05, 0x0A, 0x00, 0x01, 0x02], None);
    let (client, fix) = split_gps_response(&response).unwrap();
    assert_eq!(client, 0x0A00_0102);
    assert_eq!(fix.bits(), &vec![0x05u8]);
    assert_eq!(*fix.bits_len(), 8);
    assert!(split_gps_response(&request).is_err());
}

#[test]
fn a_relayed_fix_reads_back_on_board() {
    let request = BitPacker::from_int(0x0A00_0102, Some(32));
    let response = gps_fix_response(2, 3, 1, request);
    assert_eq!(*response.bits_len(), 128);
    let (client, fix) = split_gps_response(&response).unwrap();
    assert_eq!(client, 0x0A00_0102);
    assert_eq!(read_gps_fix(&fix), Some((1, 3, 2)));
}
