use vstd::prelude::*;
use rand::Rng;
use rand::seq::IndexedRandom;
use crate::ais_message::{AisMessage, CommunicationState, cs_type_of};
use crate::ais_reception::{handle_transmission_on, heard_on};
use crate::bitpacker::BitPacker;
use crate::boats_registry::BoatsInfoRegistry;
use crate::common::constants::{ITDMA_CS_MSGS, NO_CS_MSGS, SLOTS_PER_MINUTE};
use crate::common::utils::get_timestamp;
use crate::common::errors::{AisError, AisMessageError, AisResult, ClockError};
use crate::common::types::Channel;
use crate::slot::{Slot, released, ticked};
use crate::slots_map::{
    SlotsMap,
    fresh_slots,
    is_free_in,
    lemma_minute_range_in_map,
    lemma_select_member,
    offset_between,
    offset_spec,
    owned_by,
    range_in_map,
    select,
    ssi_range_spec,
    int_range,
};

verus! {

/// The AIS of a boat as its SOTDMA schedule sees it: the slot map, what the
/// boat reports of its reception, and the schedule: the nominal start slot
/// (`nss`), the nominal slot (`ns`) and the nominal transmission slot
/// (`nts`) of the coming report, the report interval in seconds (`ri`),
/// the nominal increment between reports (`ni`), the width of the window
/// around a nominal slot (`si`), the bounds of a transmission slot's
/// timeout and the number of the coming report of the frame (`t_counter`).
pub struct BoatAisState {
    pub slots_map: SlotsMap,
    pub mmsi: u32,
    pub recv_stations: u16,
    pub sync_state: u8,
    pub last_msg5_timestamp: i64,
    pub sotdma_nss: u16,
    pub sotdma_ns: u16,
    pub sotdma_nts: u16,
    pub sotdma_ri: u32,
    pub sotdma_ni: u16,
    pub sotdma_si: u16,
    pub sotdma_tmo_min: u8,
    pub sotdma_tmo_max: u8,
    pub sotdma_t_counter: u64,
}

/// A number drawn at random between `lo` and `hi`, both included, with
/// rand's `Rng::random_range` on the thread generator (which panics on an
/// empty range). Which number comes out is left to chance.
#[verifier::external_body]
fn random_between(lo: u8, hi: u8) -> (r: u8)
    requires
        lo <= hi,
    ensures
        lo <= r <= hi,
{
    rand::rng().random_range(lo..=hi)
}

/// A slot drawn at random among `slots` with rand's `IndexedRandom::choose`
/// on the thread generator: none exactly when there is none to draw, else
/// one of them. Which one comes out is left to chance.
#[verifier::external_body]
fn choose_slot(slots: &[u16]) -> (r: Option<u16>)
    ensures
        r is None <==> slots@.len() == 0,
        r matches Some(s) ==> slots@.contains(s),
{
    slots.choose(&mut rand::rng()).copied()
}

/// The report counter after one more report (it wraps as an atomic counter does).
pub open spec fn counted(t: u64) -> u64 {
    if t == u64::MAX {
        0
    } else {
        (t + 1) as u64
    }
}

/// The report counter after one report less (it wraps as an atomic counter does).
pub open spec fn uncounted(t: u64) -> u64 {
    if t == 0 {
        u64::MAX
    } else {
        (t - 1) as u64
    }
}

/// Counting one report less undoes counting one more, and the other way round.
pub proof fn lemma_count_uncount(t: u64)
    ensures
        uncounted(counted(t)) == t,
        counted(uncounted(t)) == t,
{
}

/// A transmission slot booked for the boat belongs to it, with a timeout
/// within the bounds, and no other slot changed.
pub proof fn lemma_booked_nts_owned(
    before: Seq<Slot>,
    after: Seq<Slot>,
    s: u16,
    mmsi: u32,
    tmo_min: u8,
    tmo_max: u8,
)
    requires
        booked_as_nts(before, after, s, mmsi, tmo_min, tmo_max),
        s < before.len(),
    ensures
        after.len() == before.len(),
        after[s as int].owner == Some(mmsi),
        after[s as int].timeout matches Some(t) && tmo_min <= t <= tmo_max,
        !after[s as int].is_assigned,
        forall|i: int| 0 <= i < before.len() && i != s ==> after[i] == before[i],
{
    let t = choose|t: u8|
        tmo_min <= t <= tmo_max && after == before.update(s as int, #[trigger] nts_booking(before[s as int], mmsi, t));
}

/// The nominal slot of the coming report: `t_counter` increments after the
/// nominal start slot, within the minute.
pub open spec fn upcoming_ns_spec(st: BoatAisState) -> u16 {
    ((st.sotdma_nss + st.sotdma_t_counter * st.sotdma_ni) % 2250) as u16
}

/// The first slot of the window of width `si` around the nominal slot `ns`.
pub open spec fn window_start(ns: u16, si: u16) -> u16 {
    ((ns + 2250 - si / 2) % 2250) as u16
}

/// The slots of the window around the coming nominal slot, on both
/// channels, that the boat owns.
pub open spec fn own_slots_ahead(st: BoatAisState) -> Seq<u16> {
    let start = window_start(upcoming_ns_spec(st), st.sotdma_si);
    select(
        ssi_range_spec(start, offset_spec(start, st.sotdma_si), Channel::Any),
        owned_by(st.slots_map@, st.mmsi),
    )
}

/// The channel of a new transmission slot: that of the current one when it
/// is kept, the other otherwise; without a current one (`u16::MAX`), the
/// channel is taken as 88B, as for any number past the minute.
pub open spec fn nts_channel(nts: u16, keep: bool) -> Channel {
    if (nts < 2250) == keep {
        Channel::C87B
    } else {
        Channel::C88B
    }
}

/// Where the search for a new transmission slot around `ns` starts: half a
/// window before it, or at `ns` itself (by wrapping of the minute, possibly
/// past it) when there is no transmission slot yet.
pub open spec fn nts_scan_start(ns: u16, si: u16, nts: u16) -> u16 {
    let s = ((ns + 4500 - si / 2) % 2250) as u16;
    if nts == u16::MAX {
        (s + si / 2) as u16
    } else {
        s
    }
}

/// The free slots among which a new transmission slot around `ns` is chosen.
pub open spec fn free_slots_for_nts(st: BoatAisState, ns: u16, keep: bool) -> Seq<u16> {
    let start = nts_scan_start(ns, st.sotdma_si, st.sotdma_nts);
    select(
        ssi_range_spec(start, offset_spec(start, st.sotdma_si), nts_channel(st.sotdma_nts, keep)),
        is_free_in(st.slots_map@),
    )
}

/// The slots searched for a new transmission slot around `ns` lie in the map.
pub open spec fn nts_scan_in_map(st: BoatAisState, ns: u16, keep: bool) -> bool {
    let start = nts_scan_start(ns, st.sotdma_si, st.sotdma_nts);
    range_in_map(start, offset_spec(start, st.sotdma_si), nts_channel(st.sotdma_nts, keep))
}

/// Slot `slot` booked for `mmsi` as a transmission slot with timeout `t`.
pub open spec fn nts_booking(slot: Slot, mmsi: u32, t: u8) -> Slot {
    Slot { owner: Some(mmsi), timeout: Some(t), is_assigned: false, frames_since_last_use: 0i8, ..slot }
}

/// `after` is `before` with slot `s` booked for `mmsi` as a transmission
/// slot: not assigned, with a timeout between `tmo_min` and `tmo_max`.
pub open spec fn booked_as_nts(
    before: Seq<Slot>,
    after: Seq<Slot>,
    s: u16,
    mmsi: u32,
    tmo_min: u8,
    tmo_max: u8,
) -> bool {
    exists|t: u8|
        tmo_min <= t <= tmo_max && after == before.update(s as int, #[trigger] nts_booking(before[s as int], mmsi, t))
}

/// A report of the first frame: it goes out at `nts` and announces
/// `virtual_offset` (none at the end of the frame); the schedule then moves
/// to the nominal slot `next_ns`, and `next_nts` was booked as the next
/// transmission slot.
pub struct FirstFrameSlot {
    pub nts: u16,
    pub next_ns: u16,
    pub next_nts: u16,
    pub virtual_offset: u16,
}

/// The distance between the places of two slots within the minute.
pub open spec fn absolute_distance(s0: u16, s1: u16) -> int {
    if s0 % 2250 >= s1 % 2250 {
        s0 % 2250 - s1 % 2250
    } else {
        s1 % 2250 - s0 % 2250
    }
}

/// What the coming report of the continuous phase does.
#[derive(Debug, Clone, Copy, PartialEq, Eq, Structural)]
pub enum ContinuousPlan {
    /// The static report is due: a report with a communication state of
    /// its own (message 3) goes out at the transmission slot and announces,
    /// `offset` slots on, the slot `msg5_slot` (found free and left free)
    /// where the static report (message 5) follows.
    StaticReport { msg5_slot: u16, offset: u16 },
    /// The transmission slot's timeout ran out: a position report (message
    /// 1) goes out at it and announces, `offset` slots on, its replacement
    /// `new_nts`, booked on the same channel.
    ReplaceNts { new_nts: u16, offset: u16 },
    /// A plain position report (message 1) at the transmission slot.
    Report,
    /// The boat owns no slot around the coming nominal slot: a report with
    /// a communication state of its own (message 3) goes out at the
    /// transmission slot and announces, `offset` slots on, the new slot
    /// `new_nts`, booked on the other channel.
    MissingNts { new_nts: u16, offset: u16 },
}

/// A report of the continuous phase: it goes out at `nts` as `plan` says;
/// the schedule then moves to the nominal slot `next_ns` and the
/// transmission slot `next_nts`.
pub struct ContinuousStep {
    pub nts: u16,
    pub next_ns: u16,
    pub next_nts: u16,
    pub plan: ContinuousPlan,
}

/// The static report is due at the time `now`: it never went out, or it
/// went out at least 356 seconds before.
pub open spec fn msg5_due(st: BoatAisState, now: i64) -> bool {
    st.last_msg5_timestamp == -1 || now - st.last_msg5_timestamp >= 356
}

/// `after` is `before` with a new transmission slot booked, as
/// [`BoatAisState::book_new_nts`] does around `ns` on the channel kept or
/// not, and nothing else changed: `s` is the slot.
pub open spec fn nts_booked(before: BoatAisState, after: BoatAisState, ns: u16, keep: bool, s: u16) -> bool {
    &&& free_slots_for_nts(before, ns, keep).contains(s)
    &&& booked_as_nts(before.slots_map@, after.slots_map@, s, before.mmsi, before.sotdma_tmo_min, before.sotdma_tmo_max)
    &&& after == (BoatAisState { slots_map: after.slots_map, ..before })
}

/// What planning the coming report of the continuous phase at the time
/// `now` comes to, from the state `st` to the state `after`:
/// - when the boat owns a slot around the coming nominal slot, the next
///   transmission slot is one of those; then, if the static report is due,
///   a slot is found for it around the coming nominal slot on the other
///   channel (found by booking, then freed again); otherwise, if the
///   transmission slot's timeout ran out, a replacement is booked around
///   the current nominal slot on its channel; otherwise nothing is booked;
/// - when it owns none, a new transmission slot is booked around the coming
///   nominal slot on the other channel, and becomes the next one;
/// - the booking fails, with nothing changed, when fewer than four slots are
///   free where it searches.
pub open spec fn continuous_outcome(st: BoatAisState, now: i64, after: BoatAisState, r: AisResult<ContinuousStep>) -> bool {
    let nts = st.sotdma_nts;
    let next_ns = upcoming_ns_spec(st);
    let own = own_slots_ahead(st);
    let other_free = free_slots_for_nts(st, next_ns, false);
    let same_free = free_slots_for_nts(st, st.sotdma_ns, true);
    let expired = st.slots_map@[nts as int].timeout == Some(0u8);
    let failed = r == Err::<ContinuousStep, AisError>(AisError::NoValidSlotSelection) && after == st;
    if own.len() > 0 && msg5_due(st, now) {
        if other_free.len() < 4 {
            failed
        } else {
            r matches Ok(step) && step.plan matches ContinuousPlan::StaticReport { msg5_slot, offset } && {
                &&& step.nts == nts && step.next_ns == next_ns && own.contains(step.next_nts)
                &&& other_free.contains(msg5_slot)
                &&& offset == offset_between(nts, msg5_slot)
                &&& after.slots_map@ == st.slots_map@.update(
                    msg5_slot as int,
                    released(st.slots_map@[msg5_slot as int]),
                )
                &&& after == (BoatAisState { slots_map: after.slots_map, ..st })
            }
        }
    } else if own.len() > 0 && expired {
        if same_free.len() < 4 {
            failed
        } else {
            r matches Ok(step) && step.plan matches ContinuousPlan::ReplaceNts { new_nts, offset } && {
                &&& step.nts == nts && step.next_ns == next_ns && own.contains(step.next_nts)
                &&& nts_booked(st, after, st.sotdma_ns, true, new_nts)
                &&& offset == offset_between(nts, new_nts)
            }
        }
    } else if own.len() > 0 {
        r matches Ok(step) && step.plan == ContinuousPlan::Report && step.nts == nts && step.next_ns
            == next_ns && own.contains(step.next_nts) && after == st
    } else {
        if other_free.len() < 4 {
            failed
        } else {
            r matches Ok(step) && step.plan matches ContinuousPlan::MissingNts { new_nts, offset } && {
                &&& step.nts == nts && step.next_ns == next_ns && step.next_nts == new_nts
                &&& nts_booked(st, after, next_ns, false, new_nts)
                &&& offset == offset_between(nts, new_nts)
            }
        }
    }
}

/// The static report is planned exactly when it is due: when the boat owns
/// a slot around the coming nominal slot, and no static report went out yet
/// (`last_msg5_timestamp == -1`) or the last one went out 356 seconds or
/// more before `now`, the plan is a static report, unless fewer than four
/// slots are free where its slot is searched (an error, with nothing
/// changed); when one went out less than 356 seconds before, the plan is
/// never a static report.
pub proof fn lemma_static_report_when_due(st: BoatAisState, now: i64, after: BoatAisState, r: AisResult<ContinuousStep>)
    requires
        continuous_outcome(st, now, after, r),
    ensures
        own_slots_ahead(st).len() > 0 && (st.last_msg5_timestamp == -1 || now - st.last_msg5_timestamp
            >= 356) ==> (r matches Ok(step) && step.plan is StaticReport) || (r matches Err(
            AisError::NoValidSlotSelection,
        ) && after == st),
        own_slots_ahead(st).len() > 0 && (st.last_msg5_timestamp == -1 || now - st.last_msg5_timestamp
            >= 356) && free_slots_for_nts(st, upcoming_ns_spec(st), false).len() >= 4 ==> (r matches Ok(
            step,
        ) && step.plan is StaticReport),
        st.last_msg5_timestamp != -1 && now - st.last_msg5_timestamp < 356 ==> !(r matches Ok(step)
            && step.plan is StaticReport),
{
}

/// The other plans of the continuous phase, when the static report is not
/// due (one went out less than 356 seconds before `now`): a boat that owns
/// a slot around the coming nominal slot replaces its transmission slot when
/// that slot's timeout has run out, and otherwise sends a plain report with
/// nothing changed; a boat that owns none books a new transmission slot.
/// Whatever the plan, the report goes out at the current transmission slot
/// and the schedule moves to the coming nominal slot.
pub proof fn lemma_continuous_plans(st: BoatAisState, now: i64, after: BoatAisState, r: AisResult<ContinuousStep>)
    requires
        continuous_outcome(st, now, after, r),
    ensures
        r matches Ok(step) ==> step.nts == st.sotdma_nts && step.next_ns == upcoming_ns_spec(st),
        r is Err ==> after == st,
        st.last_msg5_timestamp != -1 && now - st.last_msg5_timestamp < 356 && own_slots_ahead(st).len()
            > 0 && st.slots_map@[st.sotdma_nts as int].timeout == Some(0u8) && r is Ok ==> r->Ok_0.plan is ReplaceNts,
        st.last_msg5_timestamp != -1 && now - st.last_msg5_timestamp < 356 && own_slots_ahead(st).len()
            > 0 && st.slots_map@[st.sotdma_nts as int].timeout != Some(0u8) ==> r is Ok && r->Ok_0.plan
            is Report && after == st,
        own_slots_ahead(st).len() == 0 && r is Ok ==> r->Ok_0.plan is MissingNts,
{
}

/// The search for a new transmission slot reads past the map exactly when
/// it runs on 88B from a slot number past the minute, which the 88B shift
/// carries past the map's last slot.
pub open spec fn nts_scan_overruns(st: BoatAisState, ns: u16, keep: bool) -> bool {
    let start = nts_scan_start(ns, st.sotdma_si, st.sotdma_nts);
    &&& nts_channel(st.sotdma_nts, keep) == Channel::C88B
    &&& start >= 2250
}

/// The search for a new transmission slot stays in the map unless it
/// overruns it (see [`nts_scan_overruns`]); it always does when the
/// current transmission slot is a real one, or the channel is changed.
proof fn lemma_nts_scan(st: BoatAisState, ns: u16, keep: bool)
    requires
        st.sotdma_si < 2250,
        ns + 4500 <= u16::MAX,
    ensures
        nts_scan_in_map(st, ns, keep) <==> !nts_scan_overruns(st, ns, keep),
        (st.sotdma_nts != u16::MAX || !keep) ==> nts_scan_in_map(st, ns, keep),
{
    let si = st.sotdma_si;
    let start = nts_scan_start(ns, si, st.sotdma_nts);
    let end = offset_spec(start, si);
    let chn = nts_channel(st.sotdma_nts, keep);
    let r = ssi_range_spec(start, end, chn);
    if start < 2250 {
        assert(end < 2250);
        lemma_minute_range_in_map(start, end, chn);
    } else {
        assert(st.sotdma_nts == u16::MAX);
        assert(2250 <= end < 4500);
        if chn == Channel::C88B {
            if start <= end {
                assert(r[0] == start + 2250);
            } else {
                assert(int_range(start + 2250, 4500).len() == 0);
                assert(r[2250] == 4500);
            }
        } else {
            assert forall|k: int| 0 <= k < r.len() implies #[trigger] r[k] < 4500 by {
                if start <= end {
                    assert(r[k] == start + k);
                } else {
                    assert(int_range(start as int, 2250).len() == 0);
                    assert(r[k] == k);
                }
            }
        }
    }
}

impl BoatAisState {
    /// The map belongs to the boat, the window fits in the minute and the
    /// timeout bounds are in order.
    pub open spec fn wf(&self) -> bool {
        &&& self.slots_map.wf()
        &&& self.slots_map.mmsi() == self.mmsi
        &&& self.sotdma_si < 2250
        &&& self.sotdma_tmo_min <= self.sotdma_tmo_max
    }

    /// The nominal start slot and the increments fit the arithmetic of the
    /// coming nominal slot.
    pub open spec fn ns_fits(&self) -> bool {
        self.sotdma_nss + self.sotdma_t_counter * self.sotdma_ni <= u64::MAX
    }

    /// The AIS of the boat `mmsi` before it enters the network: every slot
    /// free, a report every 10 seconds, hence a nominal increment of 375
    /// slots (2250 slots a minute over 6 reports) and a window of 75 slots
    /// (a fifth of it), timeouts from 3 to 7 frames, the first report of the
    /// frame coming, and no slot chosen yet.
    pub fn init(mmsi: u32) -> (r: Self)
        ensures
            r.wf(),
            r.mmsi == mmsi,
            r.slots_map@ == fresh_slots(),
            r.recv_stations == 0,
            r.sync_state == 0,
            r.last_msg5_timestamp == -1,
            r.sotdma_nss == u16::MAX,
            r.sotdma_ns == u16::MAX,
            r.sotdma_nts == u16::MAX,
            r.sotdma_ri == 10,
            r.sotdma_ni == 375,
            r.sotdma_si == 75,
            r.sotdma_tmo_min == 3,
            r.sotdma_tmo_max == 7,
            r.sotdma_t_counter == 1,
    {
        let sotdma_ri: u32 = 10;
        let sotdma_ni: u16 = ((SLOTS_PER_MINUTE as u32 * sotdma_ri + 30) / 60) as u16;
        let sotdma_si: u16 = (sotdma_ni * 2 + 5) / 10;
        BoatAisState {
            slots_map: SlotsMap::new(mmsi),
            mmsi,
            recv_stations: 0,
            sync_state: 0,
            last_msg5_timestamp: -1,
            sotdma_nss: u16::MAX,
            sotdma_ns: u16::MAX,
            sotdma_nts: u16::MAX,
            sotdma_ri,
            sotdma_ni,
            sotdma_si,
            sotdma_tmo_min: 3,
            sotdma_tmo_max: 7,
            sotdma_t_counter: 1,
        }
    }

    /// The slot map.
    pub fn slots_map(&self) -> (r: &SlotsMap)
        ensures
            r == &self.slots_map,
    {
        &self.slots_map
    }

    /// Counts one more report (wrapping as an atomic counter does).
    pub fn increase_t_counter(&mut self)
        ensures
            *final(self) == (BoatAisState { sotdma_t_counter: counted(old(self).sotdma_t_counter), ..*old(self) }),
    {
        self.sotdma_t_counter = self.sotdma_t_counter.wrapping_add(1);
    }

    /// Counts one report less (wrapping as an atomic counter does).
    pub fn decrease_t_counter(&mut self)
        ensures
            *final(self) == (BoatAisState { sotdma_t_counter: uncounted(old(self).sotdma_t_counter), ..*old(self) }),
    {
        self.sotdma_t_counter = self.sotdma_t_counter.wrapping_sub(1);
    }

    /// The nominal slot of the coming report; see [`upcoming_ns_spec`].
    pub fn upcoming_ns(&self) -> (r: u16)
        requires
            self.ns_fits(),
        ensures
            r == upcoming_ns_spec(*self),
            r < 2250,
    {
        let nss = self.sotdma_nss as u64;
        let ni = self.sotdma_ni as u64;
        let t = self.sotdma_t_counter;
        ((nss + t * ni) % (SLOTS_PER_MINUTE as u64)) as u16
    }

    /// The transmission slot of the coming report: one of the boat's own
    /// slots in the window around the coming nominal slot, drawn at random;
    /// an error when it owns none there.
    pub fn upcoming_nts(&self) -> (r: AisResult<u16>)
        requires
            self.wf(),
            self.ns_fits(),
        ensures
            own_slots_ahead(*self).len() == 0 ==> r == Err::<u16, AisError>(AisError::NoOwnedSlot),
            own_slots_ahead(*self).len() > 0 ==> (r matches Ok(s) && own_slots_ahead(*self).contains(s)),
    {
        let upcoming_ns = self.upcoming_ns();
        let si = self.sotdma_si;
        let start_si = (upcoming_ns + SLOTS_PER_MINUTE - si / 2) % SLOTS_PER_MINUTE;
        proof {
            lemma_minute_range_in_map(start_si, offset_spec(start_si, si), Channel::Any);
        }
        let available_ss = match self.slots_map.scan_for_self_owned_ssi(Some(si), Some(start_si), Channel::Any) {
            Ok(b) => b,
            Err(e) => return Err(AisError::SlotsMap(e)),
        };
        match choose_slot(&available_ss) {
            Some(s) => Ok(s),
            None => Err(AisError::NoOwnedSlot),
        }
    }

    /// Books a new transmission slot around the nominal slot `ns` on the
    /// channel of the current one (`keep_nts_channel`) or the other: a free
    /// slot of the window drawn at random, booked for the boat with a
    /// timeout drawn between the bounds. An error, with nothing booked, when
    /// fewer than four slots of the window are free.
    pub fn book_new_nts(&mut self, ns: u16, keep_nts_channel: bool) -> (r: AisResult<u16>)
        requires
            old(self).wf(),
            ns + 4500 <= u16::MAX,
            nts_scan_in_map(*old(self), ns, keep_nts_channel),
        ensures
            final(self).wf(),
            r matches Ok(s) ==> s < 4500,
            free_slots_for_nts(*old(self), ns, keep_nts_channel).len() < 4 ==> r == Err::<
                u16,
                AisError,
            >(AisError::NoValidSlotSelection) && *final(self) == *old(self),
            free_slots_for_nts(*old(self), ns, keep_nts_channel).len() >= 4 ==> (r matches Ok(s)
                && free_slots_for_nts(*old(self), ns, keep_nts_channel).contains(s) && booked_as_nts(
                old(self).slots_map@,
                final(self).slots_map@,
                s,
                old(self).mmsi,
                old(self).sotdma_tmo_min,
                old(self).sotdma_tmo_max,
            ) && *final(self) == (BoatAisState { slots_map: final(self).slots_map, ..*old(self) })),
    {
        let nts = self.sotdma_nts;
        let si = self.sotdma_si;
        let rsv_chn = if nts < SLOTS_PER_MINUTE && keep_nts_channel {
            Channel::C87B
        } else if nts >= SLOTS_PER_MINUTE && keep_nts_channel {
            Channel::C88B
        } else if nts < SLOTS_PER_MINUTE && !keep_nts_channel {
            Channel::C88B
        } else {
            Channel::C87B
        };
        let mut start_si: u16 = (ns + SLOTS_PER_MINUTE + SLOTS_PER_MINUTE - si / 2) % SLOTS_PER_MINUTE;
        if nts == u16::MAX {
            start_si = start_si + si / 2;
        }
        let available_nts = match self.slots_map.scan_for_free_ssi(Some(si), Some(start_si), None, rsv_chn) {
            Ok(b) => b,
            Err(e) => return Err(AisError::SlotsMap(e)),
        };
        if available_nts.len() < 4 {
            return Err(AisError::NoValidSlotSelection);
        }
        let next_nts = match choose_slot(&available_nts) {
            Some(s) => s,
            None => return Err(AisError::NoValidSlotSelection),
        };
        proof {
            lemma_select_member(
                ssi_range_spec(start_si, offset_spec(start_si, si), rsv_chn),
                is_free_in(self.slots_map@),
                next_nts,
            );
            let c = ssi_range_spec(start_si, offset_spec(start_si, si), rsv_chn);
            let j = choose|j: int| 0 <= j < c.len() && c[j] == next_nts;
            assert(c[j] < 4500);
            assert(self.slots_map@[next_nts as int].owner is None);
        }
        let timeout = random_between(self.sotdma_tmo_min, self.sotdma_tmo_max);
        let mmsi = self.mmsi;
        match self.slots_map.book_slot(next_nts, mmsi, Some(timeout), Some(false)) {
            Ok(_) => {},
            Err(e) => return Err(AisError::SlotsMap(e)),
        }
        assert(self.slots_map@ == old(self).slots_map@.update(
            next_nts as int,
            nts_booking(old(self).slots_map@[next_nts as int], mmsi, timeout),
        ));
        assert(booked_as_nts(
            old(self).slots_map@,
            self.slots_map@,
            next_nts,
            old(self).mmsi,
            old(self).sotdma_tmo_min,
            old(self).sotdma_tmo_max,
        ));
        Ok(next_nts)
    }

    /// Whether the search for a new transmission slot around `ns` stays in
    /// the map; see [`nts_scan_overruns`] for when it does not.
    pub fn nts_scan_fits(&self, ns: u16, keep_nts_channel: bool) -> (r: bool)
        requires
            self.sotdma_si < 2250,
            ns + 4500 <= u16::MAX,
        ensures
            r == nts_scan_in_map(*self, ns, keep_nts_channel),
    {
        proof {
            lemma_nts_scan(*self, ns, keep_nts_channel);
        }
        let si = self.sotdma_si;
        let nts = self.sotdma_nts;
        let mut start_si: u16 = (ns + SLOTS_PER_MINUTE + SLOTS_PER_MINUTE - si / 2) % SLOTS_PER_MINUTE;
        if nts == u16::MAX {
            start_si = start_si + si / 2;
        }
        let on_88b = (nts < SLOTS_PER_MINUTE) != keep_nts_channel;
        !(on_88b && start_si >= SLOTS_PER_MINUTE)
    }

    /// Enters the network from the slot `initial` (drawn by the RATDMA
    /// selection): it becomes the nominal start slot and the nominal slot,
    /// and a transmission slot is booked around it on the channel kept.
    pub fn net_entry(&mut self, initial: u16) -> (r: AisResult<()>)
        requires
            old(self).wf(),
            initial + 4500 <= u16::MAX,
            nts_scan_in_map(*old(self), initial, true),
        ensures
            final(self).wf(),
            ({
                let entered = BoatAisState { sotdma_nss: initial, sotdma_ns: initial, ..*old(self) };
                let free = free_slots_for_nts(*old(self), initial, true);
                &&& free.len() < 4 ==> r == Err::<(), AisError>(AisError::NoValidSlotSelection)
                    && *final(self) == entered
                &&& free.len() >= 4 ==> r is Ok && free.contains(final(self).sotdma_nts) && booked_as_nts(
                    old(self).slots_map@,
                    final(self).slots_map@,
                    final(self).sotdma_nts,
                    old(self).mmsi,
                    old(self).sotdma_tmo_min,
                    old(self).sotdma_tmo_max,
                ) && *final(self) == (BoatAisState {
                    slots_map: final(self).slots_map,
                    sotdma_nts: final(self).sotdma_nts,
                    ..entered
                })
            }),
    {
        self.sotdma_ns = initial;
        self.sotdma_nss = initial;
        let next_nts = match self.book_new_nts(initial, true) {
            Ok(s) => s,
            Err(e) => return Err(e),
        };
        self.sotdma_nts = next_nts;
        Ok(())
    }

    /// The first part of a report of the first frame: books the next
    /// transmission slot around the coming nominal slot, on the other
    /// channel, and says what the report at the current one announces: the
    /// offset to the new slot while it lies at least a window away from
    /// `ref_nts` (the first transmission slot), none once the frame comes
    /// back to it. See [`BoatAisState::finish_first_frame_slot`] for the rest.
    pub fn plan_first_frame_slot(&mut self, ref_nts: u16) -> (r: AisResult<FirstFrameSlot>)
        requires
            old(self).wf(),
            old(self).ns_fits(),
        ensures
            final(self).wf(),
            ({
                let next_ns = upcoming_ns_spec(*old(self));
                let free = free_slots_for_nts(*old(self), next_ns, false);
                &&& free.len() < 4 ==> r == Err::<FirstFrameSlot, AisError>(AisError::NoValidSlotSelection)
                    && *final(self) == *old(self)
                &&& free.len() >= 4 ==> (r matches Ok(step) && step.nts == old(self).sotdma_nts
                    && step.next_ns == next_ns && free.contains(step.next_nts) && booked_as_nts(
                    old(self).slots_map@,
                    final(self).slots_map@,
                    step.next_nts,
                    old(self).mmsi,
                    old(self).sotdma_tmo_min,
                    old(self).sotdma_tmo_max,
                ) && step.virtual_offset == (if absolute_distance(step.next_nts, ref_nts)
                    >= old(self).sotdma_si {
                    offset_between(step.nts, step.next_nts)
                } else {
                    0
                }) && *final(self) == (BoatAisState { slots_map: final(self).slots_map, ..*old(self) }))
            }),
    {
        let nts = self.sotdma_nts;
        let next_ns = self.upcoming_ns();
        proof {
            lemma_nts_scan(*self, next_ns, false);
        }
        let next_nts = match self.book_new_nts(next_ns, false) {
            Ok(s) => s,
            Err(e) => return Err(e),
        };
        let offset = SlotsMap::si_offset(Some(nts), next_nts).unwrap();
        let virtual_offset = if SlotsMap::absolute_si_distance(Some(next_nts), ref_nts).unwrap() >= self.sotdma_si {
            offset
        } else {
            0
        };
        Ok(FirstFrameSlot { nts, next_ns, next_nts, virtual_offset })
    }

    /// The rest of a report of the first frame, once it went out at
    /// `step.nts`: the slot counts as used, one more report is counted, and
    /// the schedule moves to the new nominal slot; the new transmission
    /// slot is kept when the report announced it, and released otherwise
    /// (the frame is back to `ref_nts`, which stays the transmission slot).
    /// Gives whether the first frame is over.
    pub fn finish_first_frame_slot(&mut self, step: &FirstFrameSlot, ref_nts: u16) -> (r: bool)
        requires
            old(self).wf(),
            step.nts < 4500,
            step.next_nts < 4500,
            old(self).slots_map@[step.nts as int].timeout is Some,
        ensures
            final(self).wf(),
            r == (step.virtual_offset == 0),
            ({
                let used = old(self).slots_map@.update(
                    step.nts as int,
                    ticked(old(self).slots_map@[step.nts as int]),
                );
                if step.virtual_offset != 0 {
                    final(self).slots_map@ == used && *final(self) == (BoatAisState {
                        slots_map: final(self).slots_map,
                        sotdma_t_counter: counted(old(self).sotdma_t_counter),
                        sotdma_ns: step.next_ns,
                        sotdma_nts: step.next_nts,
                        ..*old(self)
                    })
                } else {
                    final(self).slots_map@ == used.update(
                        step.next_nts as int,
                        released(used[step.next_nts as int]),
                    ) && *final(self) == (BoatAisState {
                        slots_map: final(self).slots_map,
                        sotdma_t_counter: counted(old(self).sotdma_t_counter),
                        sotdma_ns: step.next_ns,
                        sotdma_nts: ref_nts,
                        ..*old(self)
                    })
                }
            }),
    {
        match self.slots_map.use_slot(step.nts) {
            Ok(_) => {},
            Err(_) => {},
        }
        self.increase_t_counter();
        self.sotdma_ns = step.next_ns;
        if step.virtual_offset != 0 {
            self.sotdma_nts = step.next_nts;
            false
        } else {
            match self.slots_map.release_slot(step.next_nts) {
                Ok(_) => {},
                Err(_) => {},
            }
            self.sotdma_nts = ref_nts;
            true
        }
    }

    /// Plans the coming report of the continuous phase at the time `now`;
    /// see [`continuous_outcome`]. See [`BoatAisState::finish_continuous`]
    /// for what follows the report.
    pub fn plan_continuous_at(&mut self, now: i64) -> (r: AisResult<ContinuousStep>)
        requires
            old(self).wf(),
            old(self).ns_fits(),
            old(self).sotdma_nts < 4500,
            old(self).sotdma_ns + 4500 <= u16::MAX,
        ensures
            final(self).wf(),
            continuous_outcome(*old(self), now, *final(self), r),
    {
        let nts = self.sotdma_nts;
        let ns = self.sotdma_ns;
        let next_ns = self.upcoming_ns();
        let last_msg5_timestamp = self.last_msg5_timestamp;
        proof {
            lemma_nts_scan(*self, next_ns, false);
            lemma_nts_scan(*self, ns, true);
        }
        match self.upcoming_nts() {
            Ok(next_nts) => {
                if last_msg5_timestamp == -1 || (now as i128) - (last_msg5_timestamp as i128) >= 356 {
                    let msg5_slot = match self.book_new_nts(next_ns, false) {
                        Ok(s) => s,
                        Err(e) => return Err(e),
                    };
                    let ghost booked = self.slots_map@;
                    match self.slots_map.release_slot(msg5_slot) {
                        Ok(_) => {},
                        Err(e) => return Err(AisError::SlotsMap(e)),
                    }
                    proof {
                        let t = choose|t: u8|
                            old(self).sotdma_tmo_min <= t <= old(self).sotdma_tmo_max && booked
                                == old(self).slots_map@.update(
                                msg5_slot as int,
                                #[trigger] nts_booking(old(self).slots_map@[msg5_slot as int], old(self).mmsi, t),
                            );
                        old(self).slots_map.lemma_wf();
                        let x = old(self).slots_map@[msg5_slot as int];
                        assert(booked[msg5_slot as int] == nts_booking(x, old(self).mmsi, t));
                        assert(self.slots_map@ =~= old(self).slots_map@.update(
                            msg5_slot as int,
                            released(old(self).slots_map@[msg5_slot as int]),
                        ));
                    }
                    let offset = SlotsMap::si_offset(Some(nts), msg5_slot).unwrap();
                    Ok(ContinuousStep {
                        nts,
                        next_ns,
                        next_nts,
                        plan: ContinuousPlan::StaticReport { msg5_slot, offset },
                    })
                } else {
                    let timeout = match self.slots_map.slot_timeout(nts) {
                        Ok(t) => t,
                        Err(e) => return Err(AisError::SlotsMap(e)),
                    };
                    if timeout == Some(0u8) {
                        let new_nts = match self.book_new_nts(ns, true) {
                            Ok(s) => s,
                            Err(e) => return Err(e),
                        };
                        let offset = SlotsMap::si_offset(Some(nts), new_nts).unwrap();
                        Ok(ContinuousStep {
                            nts,
                            next_ns,
                            next_nts,
                            plan: ContinuousPlan::ReplaceNts { new_nts, offset },
                        })
                    } else {
                        Ok(ContinuousStep { nts, next_ns, next_nts, plan: ContinuousPlan::Report })
                    }
                }
            },
            Err(_) => {
                let new_nts = match self.book_new_nts(next_ns, false) {
                    Ok(s) => s,
                    Err(e) => return Err(e),
                };
                let offset = SlotsMap::si_offset(Some(nts), new_nts).unwrap();
                Ok(ContinuousStep {
                    nts,
                    next_ns,
                    next_nts: new_nts,
                    plan: ContinuousPlan::MissingNts { new_nts, offset },
                })
            },
        }
    }

    /// Plans the coming report of the continuous phase at the time the
    /// clock gives; see [`continuous_outcome`]. An error, with nothing
    /// changed, when the clock cannot be read.
    pub fn plan_continuous(&mut self) -> (r: AisResult<ContinuousStep>)
        requires
            old(self).wf(),
            old(self).ns_fits(),
            old(self).sotdma_nts < 4500,
            old(self).sotdma_ns + 4500 <= u16::MAX,
        ensures
            final(self).wf(),
            (exists|now: i64| continuous_outcome(*old(self), now, *final(self), r)) || (r matches Err(
                AisError::Clock(ClockError::Unreadable),
            ) && *final(self) == *old(self)),
    {
        let now = match get_timestamp(None) {
            Some(t) => t,
            None => return Err(AisError::Clock(ClockError::Unreadable)),
        };
        let r = self.plan_continuous_at(now);
        assert(continuous_outcome(*old(self), now, *self, r));
        r
    }

    /// What follows a report of the continuous phase, once it went out at
    /// `step.nts` at the time `now`: the slot counts as used, one more
    /// report is counted, the schedule moves to the next nominal and
    /// transmission slots, and a report that announced the static report
    /// dates it.
    pub fn finish_continuous(&mut self, step: &ContinuousStep, now: i64)
        requires
            old(self).wf(),
            step.nts < 4500,
            old(self).slots_map@[step.nts as int].timeout is Some,
        ensures
            final(self).wf(),
            final(self).slots_map@ == old(self).slots_map@.update(
                step.nts as int,
                ticked(old(self).slots_map@[step.nts as int]),
            ),
            *final(self) == (BoatAisState {
                slots_map: final(self).slots_map,
                sotdma_t_counter: counted(old(self).sotdma_t_counter),
                sotdma_ns: step.next_ns,
                sotdma_nts: step.next_nts,
                last_msg5_timestamp: if step.plan is StaticReport {
                    now
                } else {
                    old(self).last_msg5_timestamp
                },
                ..*old(self)
            }),
    {
        match self.slots_map.use_slot(step.nts) {
            Ok(_) => {},
            Err(_) => {},
        }
        self.increase_t_counter();
        self.sotdma_ns = step.next_ns;
        self.sotdma_nts = step.next_nts;
        match step.plan {
            ContinuousPlan::StaticReport { .. } => {
                self.last_msg5_timestamp = now;
            },
            _ => {},
        }
    }

    /// After a report of the continuous phase failed: it is counted all the
    /// same, and the schedule moves to the coming nominal slot and to a
    /// transmission slot of the boat around it; an error, after counting,
    /// when the boat owns none there.
    pub fn recover_after_error(&mut self) -> (r: AisResult<()>)
        requires
            old(self).wf(),
            (BoatAisState { sotdma_t_counter: counted(old(self).sotdma_t_counter), ..*old(self) }).ns_fits(),
        ensures
            final(self).wf(),
            ({
                let c = BoatAisState { sotdma_t_counter: counted(old(self).sotdma_t_counter), ..*old(self) };
                let moved = BoatAisState { sotdma_ns: upcoming_ns_spec(c), ..c };
                &&& own_slots_ahead(moved).len() == 0 ==> r == Err::<(), AisError>(AisError::NoOwnedSlot)
                    && *final(self) == moved
                &&& own_slots_ahead(moved).len() > 0 ==> r is Ok && own_slots_ahead(moved).contains(
                    final(self).sotdma_nts,
                ) && *final(self) == (BoatAisState { sotdma_nts: final(self).sotdma_nts, ..moved })
            }),
    {
        self.increase_t_counter();
        let ns = self.upcoming_ns();
        self.sotdma_ns = ns;
        match self.upcoming_nts() {
            Ok(nts) => {
                self.sotdma_nts = nts;
                Ok(())
            },
            Err(e) => Err(e),
        }
    }

    /// Whether the report interval allows entering the network (two minutes
    /// at most).
    pub fn can_enter_network(&self) -> (r: bool)
        ensures
            r == (self.sotdma_ri <= 120),
    {
        self.sotdma_ri <= 120
    }

    /// The channel the coming report goes out on: that of the transmission slot.
    pub fn tx_channel(&self) -> (r: Channel)
        ensures
            r == (if self.sotdma_nts < 2250 {
                Channel::C87B
            } else {
                Channel::C88B
            }),
    {
        if self.sotdma_nts < SLOTS_PER_MINUTE {
            Channel::C87B
        } else {
            Channel::C88B
        }
    }

    /// The communication state that a message of type `msg_type` sent in
    /// slot `t_si` carries: none for a type without one; otherwise one of
    /// the type's kind with the boat's synchronisation state, the slot's
    /// timeout, `offset` as both slot offset and increment, the slot's
    /// number, the stations received, the number of slots and the keep flag
    /// given, at the hour and minute of the clock.
    pub fn communication_state_for(
        &self,
        msg_type: u8,
        keep_flag: Option<bool>,
        offset: Option<u16>,
        slots_nbr: Option<u8>,
        t_si: u16,
    ) -> (r: Option<CommunicationState>)
        requires
            self.wf(),
            t_si < 4500,
        ensures
            no_cs_msg(msg_type) ==> r is None,
            !no_cs_msg(msg_type) ==> (r matches Some(cs) && {
                &&& cs.communication_state_type == cs_type_of(msg_type)
                &&& cs.sync_state == self.sync_state
                &&& cs.slot_timeout == self.slots_map@[t_si as int].timeout
                &&& cs.slot_offset == offset
                &&& cs.slot_number == Some(t_si)
                &&& cs.received_stations == Some(self.recv_stations)
                &&& cs.slot_increment == offset
                &&& cs.number_of_slots == slots_nbr
                &&& cs.keep_flag == keep_flag
                &&& cs.utc_hour matches Some(h) ==> h < 24
                &&& cs.utc_minute matches Some(m) ==> m < 60
            }),
    {
        let timeout = match self.slots_map.slot_timeout(t_si) {
            Ok(t) => t,
            Err(_) => None,
        };
        if !listed(&NO_CS_MSGS, msg_type) {
            Some(
                CommunicationState::init(
                    msg_type,
                    self.sync_state,
                    timeout,
                    offset,
                    Some(t_si),
                    Some(self.recv_stations),
                    offset,
                    slots_nbr,
                    keep_flag,
                ),
            )
        } else {
            None
        }
    }

    /// What the boat does with a frame heard on `channel`: frames from the
    /// boat itself are refused; see [`handle_transmission_on`].
    pub fn handle_transmission(
        &mut self,
        boats_registry: &mut BoatsInfoRegistry,
        msg: BitPacker,
        channel: Channel,
    ) -> (r: AisResult<AisMessage>)
        requires
            old(self).wf(),
            msg.wf(),
        ensures
            final(self).wf(),
            *final(self) == (BoatAisState { slots_map: final(self).slots_map, ..*old(self) }),
            heard_on(
                channel,
                old(self).slots_map@,
                final(self).slots_map@,
                old(boats_registry)@,
                final(boats_registry)@,
                old(self).mmsi,
                msg@,
                r,
            ),
    {
        let mmsi = self.mmsi;
        handle_transmission_on(&mut self.slots_map, boats_registry, mmsi, msg, channel)
    }
}


/// A message type without a communication state.
pub open spec fn no_cs_msg(t: u8) -> bool {
    NO_CS_MSGS@.contains(t)
}

/// A message type with an ITDMA communication state.
pub open spec fn itdma_msg(t: u8) -> bool {
    ITDMA_CS_MSGS@.contains(t)
}

/// Whether `t` is in `list`.
fn listed(list: &[u8], t: u8) -> (r: bool)
    ensures
        r == list@.contains(t),
{
    let mut i: usize = 0;
    while i < list.len()
        invariant
            i <= list@.len(),
            forall|k: int| 0 <= k < i ==> list@[k] != t,
        decreases list@.len() - i,
    {
        if list[i] == t {
            assert(list@[i as int] == t);
            return true;
        }
        i = i + 1;
    }
    false
}

/// What an ITDMA transmission of a message of type `msg_type` sends with
/// it: the keep flag, the slot increment and the number of slots given,
/// for a type with an ITDMA communication state; nothing for a type
/// without one; an error for any other type.
pub fn itdma_args(msg_type: u8, lme_itinc: u16, lme_itsl: u8, lme_itkp: bool) -> (r: AisResult<
    (Option<bool>, Option<u16>, Option<u8>),
>)
    ensures
        itdma_msg(msg_type) ==> r == Ok::<(Option<bool>, Option<u16>, Option<u8>), AisError>(
            (Some(lme_itkp), Some(lme_itinc), Some(lme_itsl)),
        ),
        !itdma_msg(msg_type) && no_cs_msg(msg_type) ==> r == Ok::<
            (Option<bool>, Option<u16>, Option<u8>),
            AisError,
        >((None, None, None)),
        !itdma_msg(msg_type) && !no_cs_msg(msg_type) ==> r == Err::<
            (Option<bool>, Option<u16>, Option<u8>),
            AisError,
        >(AisError::AisMessage(AisMessageError::MessageTypeNotImplemented)),
{
    if listed(&ITDMA_CS_MSGS, msg_type) {
        Ok((Some(lme_itkp), Some(lme_itinc), Some(lme_itsl)))
    } else if listed(&NO_CS_MSGS, msg_type) {
        Ok((None, None, None))
    } else {
        Err(AisError::AisMessage(AisMessageError::MessageTypeNotImplemented))
    }
}

} // verus!
