use vstd::prelude::*;
use crate::common::types::VoyageStatus;
use crate::voyage_order::{VoyageOrder, VoyageOrderView};

verus! {

/// A leg of a voyage: a straight run between two points.
#[derive(Debug, Clone, Copy)]
pub struct VoyageSegment {
    pub navigational_status: u8,
    pub start_point: (u16, u16),
    pub end_point: (u16, u16),
    pub distance: u16,
    pub heading: u16,
}

/// The number that the distance to the end of a segment is the square
/// root of, as the boat computes it: the differences of the coordinates
/// combined by exclusive or, `dx ^ (2 + dy) ^ 2`.
pub open spec fn end_metric(e: (u16, u16), p: (u16, u16)) -> i32 {
    let dx = (e.0 as i32 - p.0 as i32) as i32;
    let dy = (e.1 as i32 - p.1 as i32) as i32;
    (dx ^ ((2i32 + dy) as i32)) ^ 2i32
}

/// `r` is the integer square root of `x`.
pub open spec fn is_isqrt(x: int, r: int) -> bool {
    0 <= r && r * r <= x < (r + 1) * (r + 1)
}

/// The integer square root of `x`.
fn isqrt(x: u32) -> (r: u16)
    ensures
        is_isqrt(x as int, r as int),
{
    let mut lo: u32 = 0;
    let mut hi: u32 = 65536;
    assert(65536 * 65536 > x as int) by (nonlinear_arith);
    while hi - lo > 1
        invariant
            lo < hi <= 65536,
            lo * lo <= x,
            x < hi * hi,
        decreases hi - lo,
    {
        let mid: u32 = lo + (hi - lo) / 2;
        assert(mid * mid <= 65536 * 65536) by (nonlinear_arith)
            requires
                mid <= 65536,
        ;
        let sq: u64 = mid as u64 * mid as u64;
        if sq <= x as u64 {
            lo = mid;
        } else {
            hi = mid;
        }
    }
    assert(hi == lo + 1);
    lo as u16
}

impl VoyageSegment {
    /// The distance to the end of the segment from `p`, as the boat computes
    /// it: the square root, rounded down, of [`end_metric`], 0 when that
    /// number is negative. (Computed in floating point, the square root is
    /// correctly rounded and no square root of a 31-bit number lies close
    /// enough to an integer for the rounding to cross it, so the integer
    /// square root gives the same value.)
    pub fn distance_from_end(&self, p: (u16, u16)) -> (r: u16)
        ensures
            end_metric(self.end_point, p) < 0 ==> r == 0,
            end_metric(self.end_point, p) >= 0 ==> is_isqrt(end_metric(self.end_point, p) as int, r as int),
    {
        let dx: i32 = self.end_point.0 as i32 - p.0 as i32;
        let dy: i32 = self.end_point.1 as i32 - p.1 as i32;
        let m: i32 = (dx ^ (2 + dy)) ^ 2;
        if m < 0 {
            0
        } else {
            isqrt(m as u32)
        }
    }
}

/// A voyage under way: the order it carries out, its stage, its segments
/// and the one being sailed.
#[derive(Debug)]
pub struct Voyage {
    order: VoyageOrder,
    status: VoyageStatus,
    segments: Vec<VoyageSegment>,
    current_segment: usize,
}

/// The contents of a [`Voyage`].
pub struct VoyageView {
    pub order: VoyageOrderView,
    pub status: VoyageStatus,
    pub segments: Seq<VoyageSegment>,
    pub current_segment: int,
}

impl View for Voyage {
    type V = VoyageView;

    closed spec fn view(&self) -> VoyageView {
        VoyageView {
            order: self.order@,
            status: self.status,
            segments: self.segments@,
            current_segment: self.current_segment as int,
        }
    }
}

impl Voyage {
    /// There is a segment, and the current one is one of them.
    #[verifier::type_invariant]
    spec fn on_a_segment(self) -> bool {
        0 <= self.current_segment < self.segments@.len()
    }

    /// A voyage that carries out `voyage_order`, under revision, with one
    /// segment as the current one: `first_segment`, which runs from the
    /// boat's position `current_pos` to the order's destination (its
    /// distance and heading are measured in floating point by the caller).
    pub fn from(voyage_order: VoyageOrder, current_pos: (u16, u16), first_segment: VoyageSegment) -> (r:
        Self)
        requires
            first_segment.start_point == current_pos,
            first_segment.end_point == voyage_order@.body.destination_position,
        ensures
            r@.segments[0].start_point == current_pos,
            r@.segments[0].end_point == voyage_order@.body.destination_position,
            r@.order == voyage_order@,
            r@.status == VoyageStatus::UnderRevision,
            r@.segments == seq![first_segment],
            r@.current_segment == 0,
    {
        let mut segments: Vec<VoyageSegment> = Vec::new();
        segments.push(first_segment);
        Voyage {
            order: voyage_order,
            status: VoyageStatus::UnderRevision,
            segments: segments,
            current_segment: 0,
        }
    }

    /// Moves on to the next segment and gives it, when there is one; gives
    /// nothing and stays on the last one otherwise.
    pub fn next_segment(&mut self) -> (r: Option<&VoyageSegment>)
        ensures
            old(self)@.current_segment + 1 < old(self)@.segments.len() ==> {
                &&& final(self)@ == VoyageView {
                    current_segment: old(self)@.current_segment + 1,
                    ..old(self)@
                }
                &&& r matches Some(s) && *s == old(self)@.segments[old(self)@.current_segment + 1]
            },
            old(self)@.current_segment + 1 >= old(self)@.segments.len() ==> {
                &&& final(self)@ == old(self)@
                &&& r is None
            },
    {
        proof {
            use_type_invariant(&*self);
        }
        if self.segments.len() - 1 > self.current_segment {
            self.current_segment = self.current_segment + 1;
            Some(&self.segments[self.current_segment])
        } else {
            None
        }
    }

    /// The order carried out.
    pub fn order(&self) -> (r: &VoyageOrder)
        ensures
            r@ == self@.order,
    {
        &self.order
    }

    /// Replaces the order carried out.
    pub fn set_order(&mut self, val: VoyageOrder)
        ensures
            final(self)@ == (VoyageView { order: val@, ..old(self)@ }),
    {
        proof {
            use_type_invariant(&*self);
        }
        self.order = val;
    }

    /// The stage of the voyage.
    pub fn status(&self) -> (r: &VoyageStatus)
        ensures
            *r == self@.status,
    {
        &self.status
    }

    /// Sets the stage of the voyage.
    pub fn set_status(&mut self, val: VoyageStatus)
        ensures
            final(self)@ == (VoyageView { status: val, ..old(self)@ }),
    {
        proof {
            use_type_invariant(&*self);
        }
        self.status = val;
    }

    /// A copy of the segments.
    pub fn segments(&self) -> (r: Vec<VoyageSegment>)
        ensures
            r@ == self@.segments,
    {
        self.segments.clone()
    }

    /// The place of the segment being sailed.
    pub fn current_segment(&self) -> (r: &usize)
        ensures
            *r == self@.current_segment,
    {
        &self.current_segment
    }

    /// The segment being sailed.
    pub fn get_current_segment(&mut self) -> (r: &VoyageSegment)
        ensures
            final(self)@ == old(self)@,
            *r == old(self)@.segments[old(self)@.current_segment],
    {
        proof {
            use_type_invariant(&*self);
        }
        &self.segments[self.current_segment]
    }

    /// The segment being sailed.
    pub fn segment_sailed(&self) -> (r: VoyageSegment)
        ensures
            r == self@.segments[self@.current_segment],
    {
        proof {
            use_type_invariant(self);
        }
        self.segments[self.current_segment]
    }
}

} // verus!
