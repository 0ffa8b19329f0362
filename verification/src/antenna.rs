use vstd::prelude::*;
use crate::bitpacker::{BitPacker, packed_bytes, packed_str};
use crate::common::types::{AisPacket, Channel};

verus! {

/// The greeting an antenna sends when it starts: "hello" in six-bit
/// characters, on 30 bits.
pub open spec fn greeting() -> Seq<bool> {
    packed_str(seq!['h', 'e', 'l', 'l', 'o'], 30)
}

/// Where an antenna hands a frame it receives.
pub enum Delivery {
    /// A greeting: nothing to hand on.
    Dropped,
    /// To the AIS, with the channel it was heard on.
    Ais(AisPacket),
    /// To the GPS.
    Gps(BitPacker),
    /// To the satellite link.
    SatCom(BitPacker),
}

/// The greeting frame.
pub fn greeting_frame() -> (r: BitPacker)
    ensures
        r.canonical(),
        r@ == greeting(),
{
    proof {
        reveal_strlit("hello");
    }
    BitPacker::from_str("hello", Some(30))
}

/// Whether a frame holds the same bytes as the greeting.
pub fn is_greeting(msg: &BitPacker) -> (r: bool)
    ensures
        r == (msg.bytes() == packed_bytes(greeting())),
{
    let hello = greeting_frame();
    proof {
        hello.lemma_canonical_bytes();
    }
    let a = msg.bits();
    let b = hello.bits();
    if a.len() != b.len() {
        return false;
    }
    let mut i: usize = 0;
    while i < a.len()
        invariant
            a@ == msg.bytes(),
            b@ == packed_bytes(greeting()),
            a@.len() == b@.len(),
            i <= a@.len(),
            forall|k: int| 0 <= k < i ==> a@[k] == b@[k],
        decreases a@.len() - i,
    {
        if a[i] != b[i] {
            assert(a@[i as int] != b@[i as int]);
            return false;
        }
        i = i + 1;
    }
    assert(a@ =~= b@);
    true
}

/// Where a frame received on `channel` goes: a greeting is dropped; any
/// other frame goes to the AIS (with its channel) when heard on an AIS
/// channel, to the GPS or to the satellite link on theirs. The antennas
/// listen on one channel each, never on `Any`.
pub fn deliver(msg: BitPacker, channel: Channel) -> (r: Delivery)
    requires
        channel != Channel::Any,
    ensures
        msg.bytes() == packed_bytes(greeting()) ==> r is Dropped,
        msg.bytes() != packed_bytes(greeting()) ==> match channel {
            Channel::C87B | Channel::C88B => r == Delivery::Ais(AisPacket { channel, message: msg }),
            Channel::GPS => r == Delivery::Gps(msg),
            _ => r == Delivery::SatCom(msg),
        },
{
    if is_greeting(&msg) {
        return Delivery::Dropped;
    }
    match channel {
        Channel::C87B | Channel::C88B => Delivery::Ais(AisPacket::from(msg, channel)),
        Channel::GPS => Delivery::Gps(msg),
        _ => Delivery::SatCom(msg),
    }
}

} // verus!
