use shared::antenna::{deliver, greeting_frame, is_greeting, Delivery};
use shared::bitpacker::BitPacker;
use shared::common::types::Channel;

#[test]
fn antenna_drops_greetings() {
    let hello = BitPacker::from_str("hello", None);
    assert_eq!(hello.bits(), greeting_frame().bits());
    assert!(is_greeting(&hello));
    assert!(matches!(deliver(hello, Channel::C87B), Delivery::Dropped));
}

#[test]
fn antenna_routes_by_channel() {
    let m = BitPacker::from_str("hi", None);
    assert!(!is_greeting(&m));
    match deliver(m.clone(), Channel::C88B) {
        Delivery::Ais(p) => {
            assert_eq!(p.channel, Channel::C88B);
            assert_eq!(p.message.bits(), m.bits());
        }
        _ => panic!("not for the AIS"),
    }
    assert!(matches!(deliver(m.clone(), Channel::GPS), Delivery::Gps(_)));
    assert!(matches!(deliver(m, Channel::SATCOM), Delivery::SatCom(_)));
}
