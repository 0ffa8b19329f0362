use vstd::prelude::*;
use crate::antenna::{greeting, is_greeting};
use crate::bitpacker::{BitPacker, lemma_word_field, packed_bytes, seq_field, word_bits};
use vstd::arithmetic::power2::lemma2_to64;
use crate::common::errors::{BitPackerError, BitPackerResult};
use crate::common::types::Channel;

verus! {

/// What the relay server does with a frame it hears.
#[derive(Debug, Clone, Copy, PartialEq, Eq, Structural)]
pub enum RelayAction {
    /// A greeting: the sender is only recorded.
    Dropped,
    /// A GPS request from a boat: it goes to the harbourmaster, and the
    /// boat waits for its fix.
    GpsRequest,
    /// A GPS fix from the harbourmaster: it goes to the boat it names.
    GpsResponse,
    /// Any other frame goes to every station.
    Relay,
}

/// What the relay server of `channel` does with a frame, sent by the
/// harbourmaster or not: greetings are dropped; on the GPS channel a frame
/// from the harbourmaster is a fix, any other a request; on the other
/// channels every frame is relayed.
pub fn relay_action(msg: &BitPacker, channel: Channel, from_harbourmaster: bool) -> (r: RelayAction)
    ensures
        r == (if msg.bytes() == packed_bytes(greeting()) {
            RelayAction::Dropped
        } else if channel == Channel::GPS {
            if from_harbourmaster {
                RelayAction::GpsResponse
            } else {
                RelayAction::GpsRequest
            }
        } else {
            RelayAction::Relay
        }),
{
    if is_greeting(msg) {
        RelayAction::Dropped
    } else if channel == Channel::GPS {
        if from_harbourmaster {
            RelayAction::GpsResponse
        } else {
            RelayAction::GpsRequest
        }
    } else {
        RelayAction::Relay
    }
}

/// The address (IPv4, as a number) of the boat a GPS request comes from:
/// the whole frame; an error for an empty frame. A request holds 32 bits
/// at most.
pub fn gps_request_client(msg: &BitPacker) -> (r: BitPackerResult<u32>)
    requires
        msg.wf(),
        msg.nbits() <= 32,
    ensures
        msg.nbits() == 0 ==> r == Err::<u32, BitPackerError>(BitPackerError::IndexOutOfBounds),
        msg.nbits() > 0 ==> r == Ok::<u32, BitPackerError>(msg.field_value(0, msg.nbits() - 1) as u32),
{
    match msg.extract_int(None, None) {
        Ok(v) => Ok(v as u32),
        Err(e) => Err(e),
    }
}

/// A GPS fix as the harbourmaster sends it through the relay: the address
/// of the boat in bits 0 to 31, then the fix itself; an error when the
/// frame holds no fix past the address.
pub fn split_gps_response(msg: &BitPacker) -> (r: BitPackerResult<(u32, BitPacker)>)
    requires
        msg.wf(),
    ensures
        msg.nbits() <= 32 ==> r == Err::<(u32, BitPacker), BitPackerError>(BitPackerError::IndexOutOfBounds),
        msg.nbits() > 32 ==> (r matches Ok((client, fix)) && client == msg.field_value(0, 31) as u32
            && fix.canonical() && fix@ == msg.field(32, msg.nbits() - 1)),
{
    let client = match msg.extract_int(None, Some(31)) {
        Ok(v) => v as u32,
        Err(e) => return Err(e),
    };
    match msg.slice(Some(32), None) {
        Ok(fix) => Ok((client, fix)),
        Err(e) => Err(e),
    }
}

/// The fix the harbourmaster sends in answer to a GPS request, once the
/// request is taken off: the heading, then the longitude, then the
/// latitude, 32 bits each.
pub open spec fn gps_fix_bits(latitude: u32, longitude: u32, heading: u32) -> Seq<bool> {
    word_bits(heading as u64, 32) + word_bits(longitude as u64, 32) + word_bits(latitude as u64, 32)
}

/// The harbourmaster's answer to a GPS request: the request (the boat's
/// address) at the bottom, then the fix; see [`gps_fix_bits`].
pub fn gps_fix_response(latitude: u32, longitude: u32, heading: u32, request: BitPacker) -> (r: BitPacker)
    requires
        request.wf(),
        request.nbits() + 96 <= usize::MAX,
    ensures
        r.canonical(),
        r@ == request@ + gps_fix_bits(latitude, longitude, heading),
{
    let fix = BitPacker::from_int(latitude as u64, Some(32)).add(BitPacker::from_int(longitude as u64, Some(32))).add(
        BitPacker::from_int(heading as u64, Some(32)),
    );
    let r = fix.add(request);
    assert(r@ =~= request@ + gps_fix_bits(latitude, longitude, heading));
    r
}

/// A fix as the harbourmaster sends it reads, in its three fields from the
/// bottom, as the heading, the longitude and the latitude: a boat that
/// reads the second field as its latitude and the third as its longitude
/// ([`crate::navigation::read_gps_fix`]) gets the two the other way round.
pub proof fn lemma_gps_fix_fields(latitude: u32, longitude: u32, heading: u32)
    ensures
        seq_field(gps_fix_bits(latitude, longitude, heading), 0, 31) == heading,
        seq_field(gps_fix_bits(latitude, longitude, heading), 32, 63) == longitude,
        seq_field(gps_fix_bits(latitude, longitude, heading), 64, 95) == latitude,
{
    let f = gps_fix_bits(latitude, longitude, heading);
    lemma2_to64();
    assert(f.subrange(0, 32) =~= word_bits(heading as u64, 32));
    assert(f.subrange(32, 64) =~= word_bits(longitude as u64, 32));
    assert(f.subrange(64, 96) =~= word_bits(latitude as u64, 32));
    lemma_word_field(f, 0, heading as u64, 32);
    lemma_word_field(f, 32, longitude as u64, 32);
    lemma_word_field(f, 64, latitude as u64, 32);
}

} // verus!
