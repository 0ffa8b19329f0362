use vstd::prelude::*;
use rand::seq::IndexedRandom;
use crate::common::constants::SLOTS_PER_MINUTE;
use crate::common::errors::{SlotsMapError, SlotsMapResult};
use crate::common::types::Channel;
use crate::common::utils::dt_to_slots_idx;
use crate::slot::{Slot, channel_of, released, ticked};

verus! {

/// The slots of both channels for one minute: slots 0 to 2249 on channel
/// 87B, 2250 to 4499 on 88B, as seen by the boat `boat_mmsi`.
#[derive(Debug)]
pub struct SlotsMap {
    slots: Vec<Slot>,
    boat_mmsi: u32,
}

/// The numbers `a`, `a + 1`, ..., `b - 1` (none when `b <= a`).
pub open spec fn int_range(a: int, b: int) -> Seq<u16> {
    Seq::new(if b > a { (b - a) as nat } else { 0 }, |k: int| (a + k) as u16)
}

/// The elements of `c` that satisfy `p`, in order.
pub open spec fn select(c: Seq<u16>, p: spec_fn(u16) -> bool) -> Seq<u16>
    decreases c.len(),
{
    if c.len() == 0 {
        Seq::empty()
    } else {
        select(c.drop_last(), p) + if p(c.last()) {
            seq![c.last()]
        } else {
            Seq::<u16>::empty()
        }
    }
}

/// The slots from `start` to `end`, both given as numbers of the minute
/// (0 to 2249), on a channel, which adds its own shift: none on 87B, 2250 on
/// 88B. When `start > end` the range wraps at the end of the minute: from
/// `start` to its last slot, then from its first slot to `end`. `Any` gives
/// the 87B range then the 88B range; other channels give none.
pub open spec fn ssi_range_spec(start: u16, end: u16, chn: Channel) -> Seq<u16>
    decreases (if chn == Channel::Any { 1int } else { 0int }),
{
    if chn == Channel::Any {
        ssi_range_spec(start, end, Channel::C87B) + ssi_range_spec(start, end, Channel::C88B)
    } else if start <= end {
        match chn {
            Channel::C87B => int_range(start as int, end + 1),
            Channel::C88B => int_range(start + 2250, end + 2251),
            _ => Seq::empty(),
        }
    } else {
        match chn {
            Channel::C87B => int_range(start as int, 2250) + int_range(0, end + 1),
            Channel::C88B => int_range(start + 2250, 4500) + int_range(2250, end + 2251),
            _ => Seq::empty(),
        }
    }
}

/// `si` is slot `c` of the minute on one of the two channels.
pub open spec fn on_slot(si: u16, c: u16) -> bool {
    si == c || si == c + 2250
}

/// The slots that nobody owns.
pub open spec fn is_free_in(slots: Seq<Slot>) -> spec_fn(u16) -> bool {
    |si: u16| slots[si as int].owner is None
}

/// The free slots on a channel (any channel for `Any` or no channel).
pub open spec fn free_on_channel(slots: Seq<Slot>, chn: Option<Channel>) -> spec_fn(u16) -> bool {
    |si: u16|
        slots[si as int].owner is None && match chn {
            Some(c) => c == Channel::Any || channel_of(si) == c,
            None => true,
        }
}

/// The slots that `mmsi` owns.
pub open spec fn owned_by(slots: Seq<Slot>, mmsi: u32) -> spec_fn(u16) -> bool {
    |si: u16| slots[si as int].owner == Some(mmsi)
}

/// A map in which every slot is free, numbered by its place.
pub open spec fn fresh_slots() -> Seq<Slot> {
    Seq::new(
        4500,
        |i: int|
            Slot {
                number: i as u16,
                channel: channel_of(i as u16),
                is_assigned: false,
                owner: None,
                timeout: None,
                frames_since_last_use: -2i8,
            },
    )
}

/// Every slot number of the minute in order.
pub open spec fn all_slot_numbers() -> Seq<u16> {
    int_range(0, 4500)
}

/// A slot after the minute's clean-up: a released slot still owned is
/// released, a slot unheard for three frames is released, any other counts
/// one more frame.
pub open spec fn cleaned(s: Slot) -> Slot {
    if s.frames_since_last_use == -2 {
        if s.owner is Some {
            released(s)
        } else {
            s
        }
    } else if s.frames_since_last_use == 3 {
        released(s)
    } else {
        Slot { frames_since_last_use: (s.frames_since_last_use + 1) as i8, ..s }
    }
}

/// `si` lies `offset` slots after `s0` within the minute.
pub open spec fn offset_spec(si: u16, offset: u16) -> u16 {
    let o = ((si + offset) % 2250) as u16;
    if si < 2250 {
        o
    } else {
        (o + 2250) as u16
    }
}

/// How many slots `s1` lies after `s0` within the minute, whatever their channels.
pub open spec fn offset_between(s0: u16, s1: u16) -> int {
    (s1 % 2250 + 2250 - s0 % 2250) % 2250
}

/// Moving `k` slots on from `si` and measuring how far the result lies
/// after `si` gives back `k` within the minute; the result stays on the
/// channel of `si`.
pub proof fn lemma_offset_roundtrip(si: u16, k: u16)
    requires
        si + k <= u16::MAX,
    ensures
        offset_between(si, offset_spec(si, k)) == k % 2250,
        si < 4500 ==> channel_of(offset_spec(si, k)) == channel_of(si),
{
    let a = si as int;
    let b = k as int;
    assert(offset_between(si, offset_spec(si, k)) == ((a + b) % 2250 + 2250 - a % 2250) % 2250) by {
        let o = ((a + b) % 2250) as u16;
        assert(o < 2250);
        if si >= 2250 {
            assert((o + 2250) % 2250 == o) by (nonlinear_arith)
                requires o < 2250;
        }
    }
    assert(((a + b) % 2250 + 2250 - a % 2250) % 2250 == b % 2250) by (nonlinear_arith)
        requires a >= 0, b >= 0;
}

/// `o`, or `d` when there is none.
pub open spec fn opt_or(o: Option<u16>, d: u16) -> u16 {
    match o {
        Some(v) => v,
        None => d,
    }
}

/// The number of slots asked for: `c`, or 1 when none is given.
pub open spec fn count_or_one(c: Option<u8>) -> int {
    match c {
        Some(n) => n as int,
        None => 1,
    }
}

/// Every slot of the range lies in the map.
pub open spec fn range_in_map(start: u16, end: u16, chn: Channel) -> bool {
    forall|k: int|
        0 <= k < ssi_range_spec(start, end, chn).len() ==> #[trigger] ssi_range_spec(
            start,
            end,
            chn,
        )[k] < 4500
}

/// What a scan for free slots from `start` over `length` places gives: on
/// one channel, that channel's free slots of the range; on `Any`, the free
/// slots of a channel that has at least `max(4, count)` of them, either one
/// when both have, none when neither has; none on other channels.
pub open spec fn free_scan_result(
    slots: Seq<Slot>,
    start: u16,
    length: u16,
    count: int,
    chn: Channel,
    b: Seq<u16>,
) -> bool {
    let end = offset_spec(start, length);
    let need: int = if count > 4 { count } else { 4 };
    let free87 = select(ssi_range_spec(start, end, Channel::C87B), is_free_in(slots));
    let free88 = select(ssi_range_spec(start, end, Channel::C88B), is_free_in(slots));
    if chn == Channel::C87B {
        b == free87
    } else if chn == Channel::C88B {
        b == free88
    } else if chn == Channel::Any {
        if free87.len() >= need && free88.len() >= need {
            b == free87 || b == free88
        } else if free87.len() >= need {
            b == free87
        } else if free88.len() >= need {
            b == free88
        } else {
            b.len() == 0
        }
    } else {
        b.len() == 0
    }
}

/// What a scan for free slots gives, by channel. On one channel it is that
/// channel's free slots of the range from `start` over `length` places. On
/// `Any`, when either channel has at least `max(4, count)` free slots in the
/// range, it is the free slots of such a channel, and so not empty; when
/// neither has, it is empty. Other channels give nothing.
pub proof fn lemma_free_scan_channels(
    slots: Seq<Slot>,
    start: u16,
    length: u16,
    count: int,
    chn: Channel,
    b: Seq<u16>,
)
    requires
        free_scan_result(slots, start, length, count, chn, b),
    ensures
        ({
            let end = offset_spec(start, length);
            let free87 = select(ssi_range_spec(start, end, Channel::C87B), is_free_in(slots));
            let free88 = select(ssi_range_spec(start, end, Channel::C88B), is_free_in(slots));
            let need: int = if count > 4 { count } else { 4 };
            &&& chn == Channel::C87B ==> b == free87
            &&& chn == Channel::C88B ==> b == free88
            &&& chn == Channel::Any && (free87.len() >= need || free88.len() >= need) ==> b.len()
                >= need && ((b == free87 && free87.len() >= need) || (b == free88 && free88.len()
                >= need))
            &&& chn == Channel::Any && free87.len() < need && free88.len() < need ==> b.len() == 0
            &&& (chn == Channel::GPS || chn == Channel::SATCOM) ==> b.len() == 0
        }),
{
}

/// A scan from the current slot, which the clock gives: the result of a
/// scan from some slot of the minute.
pub open spec fn free_scan_from_current(
    slots: Seq<Slot>,
    length: u16,
    count: int,
    chn: Channel,
    b: Seq<u16>,
) -> bool {
    exists|start: u16| start < 2250 && #[trigger] free_scan_result(slots, start, length, count, chn, b)
}

/// A range whose start and end lie inside the minute stays inside the map
/// on every channel but 88B alone, whose slots start after the minute's.
proof fn lemma_range_in_map_87(start: u16, end: u16, chn: Channel)
    requires
        start < 2250,
        end < 2250,
        chn != Channel::C88B,
    ensures
        range_in_map(start, end, chn),
{
    let r87 = ssi_range_spec(start, end, Channel::C87B);
    let r88 = ssi_range_spec(start, end, Channel::C88B);
    assert forall|k: int| 0 <= k < r87.len() implies #[trigger] r87[k] < 4500 by {
        if start > end {
            let a = int_range(start as int, 2250);
            if k >= a.len() {
                assert(r87[k] == int_range(0, end + 1)[k - a.len()]);
            }
        }
    }
    assert forall|k: int| 0 <= k < r88.len() implies #[trigger] r88[k] < 4500 by {
        if start > end {
            let a = int_range(start + 2250, 4500);
            if k >= a.len() {
                assert(r88[k] == int_range(2250, end + 2251)[k - a.len()]);
            }
        }
    }
    if chn == Channel::Any {
        let ra = ssi_range_spec(start, end, Channel::Any);
        assert forall|k: int| 0 <= k < ra.len() implies #[trigger] ra[k] < 4500 by {
            if k < r87.len() {
                assert(ra[k] == r87[k]);
            } else {
                assert(ra[k] == r88[k - r87.len()]);
            }
        }
    }
}

/// For a start and an end within the minute, the 87B range counts the
/// slots from the start to the end, wrapping at the end of the minute,
/// each once; the 88B range is the same slots shifted by 2250; `Any` is the
/// 87B range followed by the 88B range; GPS and SATCOM give none.
pub proof fn lemma_ssi_range_shape(start: u16, end: u16)
    requires
        start < 2250,
        end < 2250,
    ensures
        ssi_range_spec(start, end, Channel::C87B).len() == (end + 2250 - start) % 2250 + 1,
        forall|i: int|
            0 <= i < ssi_range_spec(start, end, Channel::C87B).len() ==> #[trigger] ssi_range_spec(
                start,
                end,
                Channel::C87B,
            )[i] == (start + i) % 2250,
        ssi_range_spec(start, end, Channel::C87B).no_duplicates(),
        ssi_range_spec(start, end, Channel::C88B) == ssi_range_spec(
            start,
            end,
            Channel::C87B,
        ).map_values(|x: u16| (x + 2250) as u16),
        ssi_range_spec(start, end, Channel::Any) == ssi_range_spec(start, end, Channel::C87B)
            + ssi_range_spec(start, end, Channel::C88B),
        ssi_range_spec(start, end, Channel::GPS).len() == 0,
        ssi_range_spec(start, end, Channel::SATCOM).len() == 0,
{
    let a = ssi_range_spec(start, end, Channel::C87B);
    let b = ssi_range_spec(start, end, Channel::C88B);
    if start <= end {
        assert(a.len() == end + 1 - start);
    } else {
        assert(a.len() == (2250 - start) + end + 1);
    }
    assert forall|i: int| 0 <= i < a.len() implies #[trigger] a[i] == (start + i) % 2250 by {
        if start > end && i >= 2250 - start {
            assert(a[i] == int_range(0, end + 1)[i - (2250 - start)]);
        }
    }
    assert forall|i: int, j: int| 0 <= i < a.len() && 0 <= j < a.len() && i != j implies a[i]
        != a[j] by {
        assert(a[i] == (start + i) % 2250);
        assert(a[j] == (start + j) % 2250);
    }
    assert forall|i: int| 0 <= i < b.len() implies #[trigger] b[i] == (a[i] + 2250) as u16 by {
        assert(a[i] == (start + i) % 2250);
        if start > end && i >= 2250 - start {
            assert(b[i] == int_range(2250, end + 2251)[i - (2250 - start)]);
        }
    }
    assert(b =~= a.map_values(|x: u16| (x + 2250) as u16));
}

/// A range whose start and end are slots of the minute (below 2250) lies
/// in the map on every channel.
pub proof fn lemma_minute_range_in_map(start: u16, end: u16, chn: Channel)
    requires
        start < 2250,
        end < 2250,
    ensures
        range_in_map(start, end, chn),
{
    if chn == Channel::C88B {
        let r88 = ssi_range_spec(start, end, Channel::C88B);
        assert forall|k: int| 0 <= k < r88.len() implies #[trigger] r88[k] < 4500 by {
            if start > end {
                let a = int_range(start + 2250, 4500);
                if k >= a.len() {
                    assert(r88[k] == int_range(2250, end + 2251)[k - a.len()]);
                }
            }
        }
    } else {
        lemma_range_in_map_87(start, end, chn);
    }
}

/// What a selection holds comes from the sequence selected from and
/// satisfies the condition.
pub proof fn lemma_select_member(c: Seq<u16>, p: spec_fn(u16) -> bool, x: u16)
    requires
        select(c, p).contains(x),
    ensures
        c.contains(x),
        p(x),
    decreases c.len(),
{
    if c.len() > 0 {
        let rest = select(c.drop_last(), p);
        let sel = select(c, p);
        let i = choose|i: int| 0 <= i < sel.len() && sel[i] == x;
        if i < rest.len() {
            assert(rest[i] == x);
            lemma_select_member(c.drop_last(), p, x);
            let j = choose|j: int| 0 <= j < c.drop_last().len() && c.drop_last()[j] == x;
            assert(c[j] == x);
        } else {
            assert(p(c.last()) && x == c.last());
            assert(c[c.len() - 1] == x);
        }
    }
}

/// A range on both channels lies in the map when each channel's part does.
proof fn lemma_range_in_map_any(start: u16, end: u16)
    requires
        range_in_map(start, end, Channel::Any),
    ensures
        range_in_map(start, end, Channel::C87B),
        range_in_map(start, end, Channel::C88B),
{
    let r87 = ssi_range_spec(start, end, Channel::C87B);
    let r88 = ssi_range_spec(start, end, Channel::C88B);
    let ra = ssi_range_spec(start, end, Channel::Any);
    assert(ra == r87 + r88);
    assert forall|k: int| 0 <= k < r87.len() implies #[trigger] r87[k] < 4500 by {
        assert(ra[k] == r87[k]);
    }
    assert forall|k: int| 0 <= k < r88.len() implies #[trigger] r88[k] < 4500 by {
        assert(ra[k + r87.len()] == r88[k]);
    }
}

#[verifier::external_body]
fn vec_into_boxed(v: Vec<u16>) -> (r: Box<[u16]>)
    ensures
        r@ == v@,
{
    v.into_boxed_slice()
}

/// One of two channels, drawn at random with rand's `IndexedRandom::choose`
/// on the pair and the thread generator. What is claimed is only that it is
/// one of the two.
#[verifier::external_body]
fn random_channel(a: Channel, b: Channel) -> (r: Channel)
    ensures
        r == a || r == b,
{
    *[a, b].choose(&mut rand::rng()).unwrap()
}

/// Appends `a`, `a + 1`, ..., `b - 1`.
fn push_range(v: &mut Vec<u16>, a: u32, b: u32)
    requires
        b <= 65536,
    ensures
        final(v)@ == old(v)@ + int_range(a as int, b as int),
{
    let mut i: u32 = a;
    while i < b
        invariant
            a <= i || b <= a,
            b <= 65536,
            i >= a,
            v@ == old(v)@ + int_range(a as int, if i < b { i as int } else { b as int }),
        decreases b - i,
    {
        v.push(i as u16);
        i = i + 1;
        assert(v@ =~= old(v)@ + int_range(a as int, if i < b { i as int } else { b as int }));
    }
    assert(v@ =~= old(v)@ + int_range(a as int, b as int));
}

impl View for SlotsMap {
    type V = Seq<Slot>;

    closed spec fn view(&self) -> Seq<Slot> {
        self.slots@
    }
}

impl SlotsMap {
    /// Every slot sits at the place of its number, on the channel of that number.
    pub closed spec fn wf(&self) -> bool {
        &&& self.slots@.len() == 4500
        &&& forall|i: int|
            0 <= i < 4500 ==> (#[trigger] self.slots@[i]).number == i && self.slots@[i].channel
                == channel_of(i as u16)
    }

    /// A well-formed map has a slot for every number of the minute, at its place.
    pub proof fn lemma_wf(&self)
        requires
            self.wf(),
        ensures
            self@.len() == 4500,
            forall|i: int|
                0 <= i < 4500 ==> (#[trigger] self@[i]).number == i && self@[i].channel
                    == channel_of(i as u16),
    {
    }

    /// The boat that owns this map.
    pub closed spec fn mmsi(self) -> u32 {
        self.boat_mmsi
    }

    /// Every slot is free, numbered by its place.
    pub fn new(boat_mmsi: u32) -> (r: Self)
        ensures
            r@.len() == 4500,
            forall|i: int|
                0 <= i < 4500 ==> #[trigger] r@[i] == (Slot {
                    number: i as u16,
                    channel: channel_of(i as u16),
                    is_assigned: false,
                    owner: None,
                    timeout: None,
                    frames_since_last_use: -2i8,
                }),
            r@ == fresh_slots(),
            r.mmsi() == boat_mmsi,
            r.wf(),
    {
        let mut slots: Vec<Slot> = Vec::new();
        let mut i: u16 = 0;
        while i < 4500
            invariant
                i <= 4500,
                slots@.len() == i,
                forall|k: int|
                    0 <= k < i ==> #[trigger] slots@[k] == (Slot {
                        number: k as u16,
                        channel: channel_of(k as u16),
                        is_assigned: false,
                        owner: None,
                        timeout: None,
                        frames_since_last_use: -2i8,
                    }),
            decreases 4500 - i,
        {
            slots.push(Slot::new(i));
            i = i + 1;
        }
        assert(slots@ =~= fresh_slots());
        Self { slots: slots, boat_mmsi: boat_mmsi }
    }

    fn replace_slot(&mut self, si: u16, s: Slot)
        requires
            old(self).wf(),
            si < 4500,
            s.number == si,
            s.channel == channel_of(si),
        ensures
            final(self).wf(),
            final(self)@ == old(self)@.update(si as int, s),
            final(self).mmsi() == old(self).mmsi(),
    {
        self.slots.set(si as usize, s);
    }

    /// Counts a frame in which slot `si` was used by its owner.
    pub fn use_slot(&mut self, si: u16) -> (r: SlotsMapResult<()>)
        requires
            old(self).wf(),
            si < 4500,
            old(self)@[si as int].timeout is Some,
        ensures
            final(self).wf(),
            r is Ok,
            final(self)@ == old(self)@.update(si as int, ticked(old(self)@[si as int])),
            final(self).mmsi() == old(self).mmsi(),
    {
        let mut s = self.slots[si as usize];
        s.tick();
        self.replace_slot(si, s);
        Ok(())
    }

    /// Marks slot `si` as heard in this frame.
    pub fn flag_slot_as_used(&mut self, si: u16) -> (r: SlotsMapResult<()>)
        requires
            old(self).wf(),
            si < 4500,
        ensures
            final(self).wf(),
            r is Ok,
            final(self)@ == old(self)@.update(
                si as int,
                Slot { frames_since_last_use: -1i8, ..old(self)@[si as int] },
            ),
            final(self).mmsi() == old(self).mmsi(),
    {
        let mut s = self.slots[si as usize];
        s.flag_as_used();
        self.replace_slot(si, s);
        Ok(())
    }

    pub fn slot_owner(&self, si: u16) -> (r: SlotsMapResult<Option<u32>>)
        requires
            self.wf(),
            si < 4500,
        ensures
            r == Ok::<Option<u32>, crate::common::errors::SlotsMapError>(self@[si as int].owner),
    {
        Ok(self.slots[si as usize].owner)
    }

    pub fn slot_timeout(&self, si: u16) -> (r: SlotsMapResult<Option<u8>>)
        requires
            self.wf(),
            si < 4500,
        ensures
            r == Ok::<Option<u8>, crate::common::errors::SlotsMapError>(self@[si as int].timeout),
    {
        Ok(self.slots[si as usize].timeout)
    }

    pub fn slot_channel(&self, si: u16) -> (r: SlotsMapResult<Channel>)
        requires
            self.wf(),
            si < 4500,
        ensures
            r == Ok::<Channel, crate::common::errors::SlotsMapError>(channel_of(si)),
            self@[si as int].channel == channel_of(si),
    {
        Ok(self.slots[si as usize].channel)
    }

    pub fn is_slot_free(&self, si: u16) -> (r: SlotsMapResult<bool>)
        requires
            self.wf(),
            si < 4500,
        ensures
            r == Ok::<bool, crate::common::errors::SlotsMapError>(self@[si as int].owner is None),
    {
        Ok(self.slots[si as usize].is_free())
    }

    /// Slot `si` has gone unheard for more than two frames.
    pub fn is_slot_expired(&self, si: u16) -> (r: SlotsMapResult<bool>)
        requires
            self.wf(),
            si < 4500,
        ensures
            r == Ok::<bool, crate::common::errors::SlotsMapError>(
                self@[si as int].frames_since_last_use > 2,
            ),
    {
        Ok(self.slots[si as usize].frames_since_last_use > 2)
    }

    /// Slot `si` is the current slot of one of the channels, by the clock:
    /// for some slot of the minute `c` (the clock's), the answer is whether
    /// `si` is `c` on either channel; an error when the clock cannot be read.
    pub fn is_slot_current(&self, si: u16) -> (r: SlotsMapResult<bool>)
        ensures
            r matches Ok(b) ==> exists|c: u16| c < SLOTS_PER_MINUTE && (b <==> #[trigger] on_slot(si, c)),
            r is Err ==> r == Err::<bool, SlotsMapError>(SlotsMapError::ClockUnreadable),
    {
        let idx = match dt_to_slots_idx(None) {
            Some(idx) => idx,
            None => return Err(SlotsMapError::ClockUnreadable),
        };
        let b = idx[0] == si || idx[1] == si;
        assert(idx@[0] < SLOTS_PER_MINUTE && (b <==> on_slot(si, idx@[0])));
        Ok(b)
    }

    pub fn set_slot_timeout(&mut self, si: u16, timeout: Option<u8>) -> (r: SlotsMapResult<()>)
        requires
            old(self).wf(),
            si < 4500,
        ensures
            final(self).wf(),
            r is Ok,
            final(self)@ == old(self)@.update(si as int, Slot { timeout, ..old(self)@[si as int] }),
            final(self).mmsi() == old(self).mmsi(),
    {
        let mut s = self.slots[si as usize];
        s.set_timeout(timeout);
        self.replace_slot(si, s);
        Ok(())
    }

    /// Reserves slot `si` for `mmsi` when it is free (not assigned by default).
    pub fn book_slot(&mut self, si: u16, mmsi: u32, timeout: Option<u8>, is_assigned: Option<bool>) -> (r:
        SlotsMapResult<()>)
        requires
            old(self).wf(),
            si < 4500,
        ensures
            final(self).wf(),
            r is Ok,
            final(self).mmsi() == old(self).mmsi(),
            old(self)@[si as int].owner is None ==> final(self)@ == old(self)@.update(
                si as int,
                Slot {
                    owner: Some(mmsi),
                    timeout,
                    is_assigned: match is_assigned {
                        Some(a) => a,
                        None => false,
                    },
                    frames_since_last_use: 0i8,
                    ..old(self)@[si as int]
                },
            ),
            old(self)@[si as int].owner is Some ==> final(self)@ == old(self)@,
    {
        let assigned = match is_assigned {
            Some(a) => a,
            None => false,
        };
        let mut s = self.slots[si as usize];
        s.book(mmsi, timeout, assigned);
        self.replace_slot(si, s);
        assert(old(self)@[si as int].owner is Some ==> final(self)@ =~= old(self)@);
        Ok(())
    }

    pub fn release_slot(&mut self, si: u16) -> (r: SlotsMapResult<()>)
        requires
            old(self).wf(),
            si < 4500,
        ensures
            final(self).wf(),
            r is Ok,
            final(self)@ == old(self)@.update(si as int, released(old(self)@[si as int])),
            final(self).mmsi() == old(self).mmsi(),
    {
        let mut s = self.slots[si as usize];
        s.release();
        self.replace_slot(si, s);
        Ok(())
    }

    /// Whether every slot's count of frames since its last use can still
    /// grow by one, as the minute's clean-up needs.
    pub fn counts_below_max(&self) -> (r: bool)
        requires
            self.wf(),
        ensures
            r == (forall|i: int| 0 <= i < 4500 ==> (#[trigger] self@[i]).frames_since_last_use != 127),
    {
        let mut i: usize = 0;
        while i < 4500
            invariant
                self.wf(),
                i <= 4500,
                forall|k: int| 0 <= k < i ==> (#[trigger] self@[k]).frames_since_last_use != 127,
            decreases 4500 - i,
        {
            if self.slots[i].frames_since_last_use == 127 {
                return false;
            }
            i = i + 1;
        }
        true
    }

    /// The minute's clean-up of every slot.
    pub fn cleanup_slots(&mut self)
        requires
            old(self).wf(),
            forall|i: int| 0 <= i < 4500 ==> (#[trigger] old(self)@[i]).frames_since_last_use != 127,
        ensures
            final(self).wf(),
            final(self)@ == old(self)@.map_values(|s: Slot| cleaned(s)),
            final(self).mmsi() == old(self).mmsi(),
    {
        let ghost start = self@;
        let mut si: u16 = 0;
        while si < 4500
            invariant
                si <= 4500,
                start.len() == 4500,
                self@.len() == 4500,
                self.mmsi() == old(self).mmsi(),
                start == old(self)@,
                self.wf(),
                forall|i: int| 0 <= i < 4500 ==> (#[trigger] start[i]).frames_since_last_use != 127,
                forall|i: int| 0 <= i < si ==> #[trigger] self@[i] == cleaned(start[i]),
                forall|i: int| si <= i < 4500 ==> #[trigger] self@[i] == start[i],
            decreases 4500 - si,
        {
            let mut s = self.slots[si as usize];
            if s.frames_since_last_use == -2 {
                if !s.is_free() {
                    s.release();
                }
            } else if s.frames_since_last_use == 3 {
                s.release();
            } else {
                let f = s.frames_since_last_use + 1;
                s.set_frames_since_last_use(f);
            }
            self.replace_slot(si, s);
            si = si + 1;
        }
        assert(self@ =~= start.map_values(|s: Slot| cleaned(s)));
    }

    /// The current slot of a channel, by the clock: of 88B on channel 88B, of
    /// 87B otherwise; `None` when the clock cannot be read.
    pub fn current_si(chn: Channel) -> (r: Option<u16>)
        ensures
            r matches Some(c) ==> (chn == Channel::C88B ==> SLOTS_PER_MINUTE <= c < 2 * SLOTS_PER_MINUTE),
            r matches Some(c) ==> (chn != Channel::C88B ==> c < SLOTS_PER_MINUTE),
    {
        let idx = match dt_to_slots_idx(None) {
            Some(idx) => idx,
            None => return None,
        };
        match chn {
            Channel::C88B => Some(idx[1]),
            _ => Some(idx[0]),
        }
    }

    /// How many slots `s1` lies after `s0` (by default the current slot),
    /// within the minute; `None` only when no slot is given and the clock
    /// cannot be read.
    pub fn si_offset(s0: Option<u16>, s1: u16) -> (r: Option<u16>)
        ensures
            s0 matches Some(s) ==> r == Some(offset_between(s, s1) as u16),
            r matches Some(o) ==> o < 2250,
    {
        let s0 = match s0 {
            Some(s) => s,
            None => match SlotsMap::current_si(Channel::C87B) {
                Some(c) => c,
                None => return None,
            },
        };
        Some((s1 % SLOTS_PER_MINUTE + SLOTS_PER_MINUTE - s0 % SLOTS_PER_MINUTE) % SLOTS_PER_MINUTE)
    }

    /// The distance between the places of `s0` (by default the current slot)
    /// and `s1` within the minute, without wrapping; `None` only when no slot
    /// is given and the clock cannot be read.
    pub fn absolute_si_distance(s0: Option<u16>, s1: u16) -> (r: Option<u16>)
        ensures
            s0 matches Some(s) ==> r == Some(
                (if s % 2250 >= s1 % 2250 {
                    s % 2250 - s1 % 2250
                } else {
                    s1 % 2250 - s % 2250
                }) as u16,
            ),
            r matches Some(d) ==> d < 2250,
    {
        let s0 = match s0 {
            Some(s) => s,
            None => match SlotsMap::current_si(Channel::C87B) {
                Some(c) => c,
                None => return None,
            },
        };
        let a = s0 % SLOTS_PER_MINUTE;
        let b = s1 % SLOTS_PER_MINUTE;
        if a >= b {
            Some(a - b)
        } else {
            Some(b - a)
        }
    }

    /// The slot `offset` places after `si` within the minute, on the channel of `si`.
    pub fn offseted_si(si: u16, offset: u16) -> (r: u16)
        requires
            si + offset <= u16::MAX,
        ensures
            r == offset_spec(si, offset),
    {
        let offseted_si = (si + offset) % SLOTS_PER_MINUTE;
        if si < SLOTS_PER_MINUTE {
            offseted_si
        } else {
            offseted_si + SLOTS_PER_MINUTE
        }
    }

    /// The slots from `start_si` to `end_si` on a channel; see [`ssi_range_spec`].
    pub fn ssi_range(&self, start_si: u16, end_si: u16, chn: Channel) -> (r: Box<[u16]>)
        requires
            (chn == Channel::C88B || chn == Channel::Any) ==> end_si + 2250 <= u16::MAX,
        ensures
            r@ == ssi_range_spec(start_si, end_si, chn),
    {
        let mut v: Vec<u16> = Vec::new();
        self.push_ssi_range(&mut v, start_si, end_si, chn);
        assert(v@ =~= ssi_range_spec(start_si, end_si, chn));
        vec_into_boxed(v)
    }

    fn push_ssi_range(&self, v: &mut Vec<u16>, start_si: u16, end_si: u16, chn: Channel)
        requires
            (chn == Channel::C88B || chn == Channel::Any) ==> end_si + 2250 <= u16::MAX,
        ensures
            final(v)@ == old(v)@ + ssi_range_spec(start_si, end_si, chn),
        decreases (if chn == Channel::Any { 1int } else { 0int }),
    {
        let s = start_si as u32;
        let e = end_si as u32;
        match chn {
            Channel::C87B => {
                if start_si <= end_si {
                    push_range(v, s, e + 1);
                } else {
                    push_range(v, s, 2250);
                    push_range(v, 0, e + 1);
                }
            },
            Channel::C88B => {
                if start_si <= end_si {
                    push_range(v, s + 2250, e + 2251);
                } else {
                    push_range(v, s + 2250, 4500);
                    push_range(v, 2250, e + 2251);
                }
            },
            Channel::Any => {
                self.push_ssi_range(v, start_si, end_si, Channel::C87B);
                self.push_ssi_range(v, start_si, end_si, Channel::C88B);
            },
            _ => {},
        }
        assert(v@ =~= old(v)@ + ssi_range_spec(start_si, end_si, chn));
    }

    /// The free slots of a channel (by default of both), in order.
    pub fn get_available_ssi(&self, chn: Option<Channel>) -> (r: SlotsMapResult<Box<[u16]>>)
        requires
            self.wf(),
        ensures
            r matches Ok(b) && b@ == select(all_slot_numbers(), free_on_channel(self@, chn)),
    {
        let target_chn = match chn {
            Some(c) => c,
            None => Channel::Any,
        };
        let ghost p = free_on_channel(self@, chn);
        let mut v: Vec<u16> = Vec::new();
        let mut si: u16 = 0;
        while si < 4500
            invariant
                si <= 4500,
                self@.len() == 4500,
                self.wf(),
                target_chn == match chn {
                    Some(c) => c,
                    None => Channel::Any,
                },
                p == free_on_channel(self@, chn),
                v@ == select(all_slot_numbers().take(si as int), p),
            decreases 4500 - si,
        {
            let free = match self.is_slot_free(si) {
                Ok(f) => f,
                Err(e) => return Err(e),
            };
            let mut keep = false;
            if free {
                let matches = match target_chn {
                    Channel::Any => true,
                    _ => {
                        let c = match self.slot_channel(si) {
                            Ok(c) => c,
                            Err(e) => return Err(e),
                        };
                        c == target_chn
                    },
                };
                keep = matches;
            }
            if keep {
                v.push(si);
            }
            proof {
                assert(all_slot_numbers().take(si + 1).drop_last() =~= all_slot_numbers().take(
                    si as int,
                ));
                assert(all_slot_numbers().take(si + 1).last() == si);
                assert(keep == p(si));
            }
            si = si + 1;
        }
        assert(all_slot_numbers().take(4500) =~= all_slot_numbers());
        Ok(vec_into_boxed(v))
    }

    /// The free slots among `slots`, in order.
    pub fn filter_available_ssi(&self, slots: &[u16]) -> (r: SlotsMapResult<Box<[u16]>>)
        requires
            self.wf(),
            forall|i: int| 0 <= i < slots@.len() ==> #[trigger] slots@[i] < 4500,
        ensures
            r matches Ok(b) && b@ == select(slots@, is_free_in(self@)),
    {
        let ghost p = is_free_in(self@);
        let mut v: Vec<u16> = Vec::new();
        let mut i: usize = 0;
        while i < slots.len()
            invariant
                i <= slots@.len(),
                self.wf(),
                forall|k: int| 0 <= k < slots@.len() ==> #[trigger] slots@[k] < 4500,
                p == is_free_in(self@),
                v@ == select(slots@.take(i as int), p),
            decreases slots@.len() - i,
        {
            let s = slots[i];
            let free = match self.is_slot_free(s) {
                Ok(f) => f,
                Err(e) => return Err(e),
            };
            if free {
                v.push(s);
            }
            proof {
                assert(slots@.take(i + 1).drop_last() =~= slots@.take(i as int));
            }
            i = i + 1;
        }
        assert(slots@.take(slots@.len() as int) =~= slots@);
        Ok(vec_into_boxed(v))
    }

    /// The slots from `ref_si` (by default 0) over `len` places (by default
    /// 2249) on a channel that this map's boat owns.
    pub fn scan_for_self_owned_ssi(&self, len: Option<u16>, ref_si: Option<u16>, chn: Channel) -> (r:
        SlotsMapResult<Box<[u16]>>)
        requires
            self.wf(),
            opt_or(ref_si, 0) + opt_or(len, 2249) <= u16::MAX,
            range_in_map(
                opt_or(ref_si, 0),
                offset_spec(opt_or(ref_si, 0), opt_or(len, 2249)),
                chn,
            ),
        ensures
            r matches Ok(b) && b@ == select(
                ssi_range_spec(
                    opt_or(ref_si, 0),
                    offset_spec(opt_or(ref_si, 0), opt_or(len, 2249)),
                    chn,
                ),
                owned_by(self@, self.mmsi()),
            ),
    {
        let length: u16 = match len {
            Some(l) => l,
            None => SLOTS_PER_MINUTE - 1,
        };
        let start_si: u16 = match ref_si {
            Some(s) => s,
            None => 0,
        };
        let end_si = SlotsMap::offseted_si(start_si, length);
        let ssi_range = self.ssi_range(start_si, end_si, chn);
        assert(forall|k: int| 0 <= k < ssi_range@.len() ==> #[trigger] ssi_range@[k] < 4500);
        let ghost p = owned_by(self@, self.mmsi());
        let mut v: Vec<u16> = Vec::new();
        let mut i: usize = 0;
        while i < ssi_range.len()
            invariant
                i <= ssi_range@.len(),
                self.wf(),
                forall|k: int| 0 <= k < ssi_range@.len() ==> #[trigger] ssi_range@[k] < 4500,
                p == owned_by(self@, self.mmsi()),
                v@ == select(ssi_range@.take(i as int), p),
            decreases ssi_range@.len() - i,
        {
            let si = ssi_range[i];
            let owner = match self.slot_owner(si) {
                Ok(o) => o,
                Err(e) => return Err(e),
            };
            if owner == Some(self.boat_mmsi) {
                v.push(si);
            }
            proof {
                assert(ssi_range@.take(i + 1).drop_last() =~= ssi_range@.take(i as int));
            }
            i = i + 1;
        }
        assert(ssi_range@.take(ssi_range@.len() as int) =~= ssi_range@);
        Ok(vec_into_boxed(v))
    }

    /// The free slots from `ref_si` (by default the current slot) over `len`
    /// places (by default 1); see [`free_scan_result`] for what is returned.
    pub fn scan_for_free_ssi(
        &self,
        len: Option<u16>,
        ref_si: Option<u16>,
        slots_count: Option<u8>,
        chn: Channel,
    ) -> (r: SlotsMapResult<Box<[u16]>>)
        requires
            self.wf(),
            ref_si matches Some(s) ==> s + opt_or(len, 1) <= u16::MAX && range_in_map(
                s,
                offset_spec(s, opt_or(len, 1)),
                chn,
            ),
            ref_si is None ==> opt_or(len, 1) <= 63285 && chn != Channel::C88B,
        ensures
            ref_si matches Some(s) ==> r matches Ok(b) && free_scan_result(
                self@,
                s,
                opt_or(len, 1),
                count_or_one(slots_count),
                chn,
                b@,
            ),
            ref_si is None ==> (r matches Ok(b) && free_scan_from_current(
                self@,
                opt_or(len, 1),
                count_or_one(slots_count),
                chn,
                b@,
            )) || r == Err::<Box<[u16]>, SlotsMapError>(SlotsMapError::ClockUnreadable),
    {
        let length: u16 = match len {
            Some(l) => l,
            None => 1,
        };
        let start_si: u16 = match ref_si {
            Some(s) => s,
            None => match SlotsMap::current_si(chn) {
                Some(c) => c,
                None => return Err(SlotsMapError::ClockUnreadable),
            },
        };
        let ssi_count: u8 = match slots_count {
            Some(c) => c,
            None => 1,
        };
        let end_si = SlotsMap::offseted_si(start_si, length);
        proof {
            if ref_si is None {
                lemma_range_in_map_87(start_si, end_si, chn);
            }
        }
        let ghost count: int = ssi_count as int;
        assert(length == opt_or(len, 1) && count == count_or_one(slots_count));
        let res: Box<[u16]> = match chn {
            Channel::C87B => self.free_in_range(start_si, end_si, Channel::C87B),
            Channel::C88B => self.free_in_range(start_si, end_si, Channel::C88B),
            Channel::Any => {
                proof {
                    lemma_range_in_map_any(start_si, end_si);
                }
                let available_c87b_ssi = self.free_in_range(start_si, end_si, Channel::C87B);
                let available_c88b_ssi = self.free_in_range(start_si, end_si, Channel::C88B);
                let need: usize = if ssi_count as usize > 4 {
                    ssi_count as usize
                } else {
                    4
                };
                let is_c87b_ssi_range_valid: bool = available_c87b_ssi.len() >= need;
                let is_c88b_ssi_range_valid: bool = available_c88b_ssi.len() >= need;
                if is_c87b_ssi_range_valid && is_c88b_ssi_range_valid {
                    let chosen_chn = random_channel(Channel::C87B, Channel::C88B);
                    match chosen_chn {
                        Channel::C87B => available_c87b_ssi,
                        _ => available_c88b_ssi,
                    }
                } else if is_c87b_ssi_range_valid {
                    available_c87b_ssi
                } else if is_c88b_ssi_range_valid {
                    available_c88b_ssi
                } else {
                    vec_into_boxed(Vec::new())
                }
            },
            _ => vec_into_boxed(Vec::new()),
        };
        assert(free_scan_result(
            self@,
            start_si,
            opt_or(len, 1),
            count_or_one(slots_count),
            chn,
            res@,
        ));
        proof {
            if ref_si is None {
                assert(start_si < SLOTS_PER_MINUTE);
                assert(free_scan_from_current(
                    self@,
                    opt_or(len, 1),
                    count_or_one(slots_count),
                    chn,
                    res@,
                ));
            }
        }
        Ok(res)
    }

    /// The free slots of the range from `start` to `end` on one channel.
    fn free_in_range(&self, start: u16, end: u16, chn: Channel) -> (r: Box<[u16]>)
        requires
            self.wf(),
            chn == Channel::C87B || chn == Channel::C88B,
            end < 4500,
            range_in_map(start, end, chn),
        ensures
            r@ == select(ssi_range_spec(start, end, chn), is_free_in(self@)),
    {
        let ssi_range = self.ssi_range(start, end, chn);
        assert(forall|k: int| 0 <= k < ssi_range@.len() ==> #[trigger] ssi_range@[k] < 4500);
        match self.filter_available_ssi(&ssi_range) {
            Ok(b) => b,
            Err(_) => vec_into_boxed(Vec::new()),
        }
    }
}

} // verus!
