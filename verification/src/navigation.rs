use vstd::prelude::*;
use crate::bitpacker::BitPacker;
use crate::boat_info::NavigationData;
use crate::voyage::{Voyage, VoyageView, end_metric, is_isqrt};

verus! {

/// How far, in degrees from -180 to 179, the boat must turn from `current`
/// to face `target`: positive to starboard, negative to port.
pub open spec fn heading_error_spec(target: u16, current: u16) -> int {
    (target - current + 540) % 360 - 180
}

/// The heading, in degrees from 0 to 359, reached by turning `angle`
/// degrees from `current`.
pub open spec fn turn_target_spec(current: u16, angle: i16) -> int {
    (current + angle) % 360
}

/// The angle between two headings, the short way round.
pub open spec fn heading_gap(a: u16, b: u16) -> int {
    let diff = if a >= b {
        a - b
    } else {
        b - a
    };
    if diff > 180 {
        360 - diff
    } else {
        diff
    }
}

/// Turning from `current` by the angle that [`heading_error_spec`] gives
/// toward `target` faces `target` (within the compass).
pub proof fn lemma_turn_reaches_target(target: u16, current: u16)
    ensures
        (current + heading_error_spec(target, current)) % 360 == target % 360,
{
    let a: int = target - current + 540;
    let e: int = a % 360 - 180;
    assert((current + e) % 360 == target % 360) by (nonlinear_arith)
        requires
            e == a % 360 - 180,
            a == target - current + 540,
    {
        assert(a % 360 == a - 360 * (a / 360));
    }
}

/// What the route check does with the distance to the end of the current
/// segment.
#[derive(Debug, Clone, Copy, PartialEq, Eq, Structural)]
pub enum RouteAction {
    /// The end of the segment is reached: stop and go on to the next one.
    SegmentReached,
    /// Still on the way: check that the boat keeps its course.
    CheckCourse,
    /// Nothing to steer by: stop.
    Stop,
}

/// How far the boat must turn from `current` to face `target`; see
/// [`heading_error_spec`].
pub fn heading_error(target: u16, current: u16) -> (r: i32)
    ensures
        r == heading_error_spec(target, current),
        -180 <= r < 180,
{
    let shifted: u32 = target as u32 + 65880 + 540 - current as u32;
    let ghost a: int = target - current + 540;
    assert(shifted == a + 183 * 360);
    assert((a + 183 * 360) % 360 == a % 360) by (nonlinear_arith);
    (shifted % 360) as i32 - 180
}

/// The motor settings (left, right) for a turn whose remaining angle is
/// `factor`, the one before being `prec_factor`: full speed in opposite
/// directions toward the target, given only when the turn starts (no angle
/// before) or changes side; none while it goes on the same way.
pub fn turn_command(prec_factor: i32, factor: i32) -> (r: Option<(i8, i8)>)
    ensures
        (prec_factor == 0 || (prec_factor < 0 && factor > 0) || (prec_factor > 0 && factor < 0))
            ==> r == Some(if factor > 0 { (-100i8, 100i8) } else { (100i8, -100i8) }),
        !(prec_factor == 0 || (prec_factor < 0 && factor > 0) || (prec_factor > 0 && factor < 0))
            ==> r is None,
{
    if prec_factor == 0 || prec_factor < 0 && factor > 0 || prec_factor > 0 && factor < 0 {
        if factor > 0 {
            Some((-100, 100))
        } else {
            Some((100, -100))
        }
    } else {
        None
    }
}

/// The heading reached by turning `angle` degrees from `current`; see
/// [`turn_target_spec`].
pub fn turn_target(current: u16, angle: i16) -> (r: u16)
    ensures
        r == turn_target_spec(current, angle),
        r < 360,
{
    let shifted: u32 = (current as i32 + angle as i32 + 33120) as u32;
    let ghost a: int = current + angle;
    assert(shifted == a + 92 * 360);
    assert((a + 92 * 360) % 360 == a % 360) by (nonlinear_arith);
    (shifted % 360) as u16
}

/// Whether the boat, heading `current`, faces `heading` within `tolerance`
/// degrees the short way round. Headings lie within a turn of each other
/// (the difference of the two is taken from 360 past half a turn).
pub fn is_on_heading(current: u16, heading: u16, tolerance: u16) -> (r: bool)
    requires
        current >= heading + 180 ==> current <= heading + 360,
        heading >= current + 180 ==> heading <= current + 360,
    ensures
        r == (heading_gap(current, heading) <= tolerance),
{
    let diff: u16 = if current >= heading {
        current - heading
    } else {
        heading - current
    };
    let shortest_diff: u16 = if diff > 180 {
        360 - diff
    } else {
        diff
    };
    shortest_diff <= tolerance
}

/// What the route check does: the end of the segment is reached within
/// `radius`, the boat is still on the way, or there is no distance to
/// steer by.
pub fn route_action(dist_to_seg_end: Option<u16>, radius: u16) -> (r: RouteAction)
    ensures
        r == match dist_to_seg_end {
            Some(d) => if d <= radius {
                RouteAction::SegmentReached
            } else {
                RouteAction::CheckCourse
            },
            None => RouteAction::Stop,
        },
{
    match dist_to_seg_end {
        Some(d) => {
            if d <= radius {
                RouteAction::SegmentReached
            } else {
                RouteAction::CheckCourse
            }
        },
        None => RouteAction::Stop,
    }
}

/// Once the end of the current segment is reached: the voyage moves on to
/// its next segment, or is over and dropped when there is none. Gives
/// whether it is over.
pub fn advance_voyage(voyage: &mut Option<Voyage>) -> (ended: bool)
    ensures
        match *old(voyage) {
            Some(v) => if v@.current_segment + 1 < v@.segments.len() {
                !ended && (*final(voyage) matches Some(w) && w@ == (VoyageView {
                    current_segment: v@.current_segment + 1,
                    ..v@
                }))
            } else {
                ended && (*final(voyage)) is None
            },
            None => !ended && (*final(voyage)) is None,
        },
{
    let ended = match voyage {
        Some(v) => v.next_segment().is_none(),
        None => false,
    };
    if ended {
        *voyage = None;
    }
    ended
}

/// The distance from the boat to the end of the voyage's current segment,
/// as the boat computes it (from its latitude and longitude, in that order,
/// each cut to 16 bits); none without a voyage.
pub fn distance_from_current_segment_end(voyage: &Option<Voyage>, nav: &NavigationData) -> (r:
    Option<u16>)
    ensures
        match *voyage {
            Some(v) => r matches Some(d) && {
                let m = end_metric(
                    v@.segments[v@.current_segment].end_point,
                    (nav.latitude as u16, nav.longitude as u16),
                );
                &&& m < 0 ==> d == 0
                &&& m >= 0 ==> is_isqrt(m as int, d as int)
            },
            None => r is None,
        },
{
    match voyage {
        Some(v) => {
            let seg = v.segment_sailed();
            Some(seg.distance_from_end((nav.latitude as u16, nav.longitude as u16)))
        },
        None => None,
    }
}

/// Keeps the last five positions of the boat: `p` joins the history, and
/// the oldest goes when there are more than five.
pub fn record_position(history: &mut Vec<(u16, u16)>, p: (u16, u16))
    ensures
        old(history)@.len() < 5 ==> final(history)@ == old(history)@.push(p),
        old(history)@.len() >= 5 ==> final(history)@ == old(history)@.push(p).drop_first(),
{
    history.push(p);
    if history.len() > 5 {
        history.remove(0);
    }
}

/// A position fix sent by the harbourmaster's GPS: the heading in bits 0
/// to 31, the latitude in bits 32 to 63 and the longitude in bits 64 to
/// 95, each cut to 32 bits; none when the frame is too short for all three.
pub fn read_gps_fix(msg: &BitPacker) -> (r: Option<(u32, u32, u32)>)
    requires
        msg.wf(),
    ensures
        msg.nbits() < 96 ==> r is None,
        msg.nbits() >= 96 ==> r == Some(
            (
                msg.field_value(0, 31) as u32,
                msg.field_value(32, 63) as u32,
                msg.field_value(64, 95) as u32,
            ),
        ),
{
    let heading = match msg.extract_int(None, Some(31)) {
        Ok(v) => v as u32,
        Err(_) => return None,
    };
    let latitude = match msg.extract_int(Some(32), Some(63)) {
        Ok(v) => v as u32,
        Err(_) => return None,
    };
    let longitude = match msg.extract_int(Some(64), Some(95)) {
        Ok(v) => v as u32,
        Err(_) => return None,
    };
    Some((heading, latitude, longitude))
}

} // verus!
