use vstd::prelude::*;
use crate::ais_message::{AisMessage, CommunicationState, frame_error, frame_view};
use vstd::arithmetic::power2::lemma2_to64;
use crate::bitpacker::{BitPacker, seq_field, lemma_bits_value_bound};
use crate::boat_info::BoatInfoView;
use crate::boats_registry::BoatsInfoRegistry;
use crate::common::constants::{HARBOURMASTER_MMSI, IMPLEMENTED_MSGS};
use crate::common::types::Channel;
use crate::common::errors::{AisError, AisResult, ClockError};
use crate::slot::{Slot, released, ticked};
use crate::slots_map::{SlotsMap, fresh_slots, offset_spec};

verus! {

/// A slot marked as heard in this frame.
pub open spec fn flagged(s: Slot) -> Slot {
    Slot { frames_since_last_use: -1i8, ..s }
}

/// A slot reserved for `mmsi` with `timeout` when nobody owns it, left as it
/// is otherwise.
pub open spec fn booked(s: Slot, mmsi: u32, timeout: Option<u8>) -> Slot {
    if s.owner is None {
        Slot { owner: Some(mmsi), timeout, is_assigned: false, frames_since_last_use: 0i8, ..s }
    } else {
        s
    }
}

/// The message types that are read.
pub open spec fn implemented_msg(t: u8) -> bool {
    t == 1 || t == 2 || t == 3 || t == 5
}

/// The slots after a frame of type `msg_type` from `mmsi` was heard in slot
/// `t_si` with the communication state `cs`, when nobody else owns that
/// slot: the slot counts a frame of use (its timeout, when it has one,
/// counts down); a SOTDMA state books it with the state's timeout when it
/// was free, sets that timeout or frees it, and a zero timeout moves the
/// reservation to the slot the offset points to; an ITDMA state frees the
/// slot or books it as the keep flag says, and books the slot the
/// increment points to. A slot that someone else owns is left alone.
pub open spec fn slots_after_reception(
    sl: Seq<Slot>,
    t_si: u16,
    mmsi: u32,
    msg_type: u8,
    cs: Option<CommunicationState>,
) -> Seq<Slot> {
    let i = t_si as int;
    let owner = sl[i].owner;
    let timeout = sl[i].timeout;
    if owner is None || owner == Some(mmsi) {
        let s1 = if timeout is Some {
            sl.update(i, ticked(sl[i]))
        } else {
            sl.update(i, flagged(sl[i]))
        };
        if (msg_type == 1 || msg_type == 2) && cs is Some {
            let tmo = cs->0.slot_timeout->0;
            let s2 = if owner is None && tmo > 0 {
                s1.update(i, booked(s1[i], mmsi, Some(tmo)))
            } else if timeout is None || tmo > 0 {
                s1.update(i, Slot { timeout: Some(tmo), ..s1[i] })
            } else {
                s1.update(i, released(s1[i]))
            };
            if tmo == 0 {
                let r = offset_spec(t_si, cs->0.slot_offset->0) as int;
                let s3 = s2.update(r, booked(s2[r], mmsi, Some(0)));
                s3.update(i, released(s3[i]))
            } else {
                s2
            }
        } else if msg_type == 3 && cs is Some {
            let keep = cs->0.keep_flag->0;
            let inc = cs->0.slot_increment->0;
            let s2 = if !keep {
                s1.update(i, released(s1[i]))
            } else if s1[i].owner is None {
                s1.update(i, booked(s1[i], mmsi, None))
            } else {
                s1
            };
            if inc > 0 {
                let r = offset_spec(t_si, inc) as int;
                s2.update(r, booked(s2[r], mmsi, None))
            } else {
                s2
            }
        } else {
            s1
        }
    } else {
        sl
    }
}

/// A frame that can be read is of a type that is read, and its
/// communication state holds what its type needs, within its width.
proof fn lemma_frame_fields(s: Seq<bool>)
    requires
        frame_error(s) is None,
    ensures
        implemented_msg(frame_view(s).message_type),
        (frame_view(s).message_type == 1 || frame_view(s).message_type == 2) ==> (frame_view(
            s,
        ).communication_state matches Some(c) && (c.slot_timeout matches Some(t) && (t < 8 && (t
            == 0 ==> (c.slot_offset matches Some(o) && o < 16384))))),
        frame_view(s).message_type == 3 ==> (frame_view(s).communication_state matches Some(c) && (
        c.keep_flag is Some && (c.slot_increment matches Some(i) && i < 8192))),
{
    let t = seq_field(s, 40, 45) as u8;
    if t != 5 {
        let b = s.subrange(189, 208);
        lemma_bits_value_bound(b.subrange(2, 5));
        lemma_bits_value_bound(b.subrange(2, 15));
        let sub = b.subrange(5, 19);
        lemma_bits_value_bound(sub.subrange(0, 14));
        lemma2_to64();
    }
}

fn is_implemented(msg_type: u8) -> (r: bool)
    ensures
        r == implemented_msg(msg_type),
{
    let msgs = IMPLEMENTED_MSGS;
    assert(msgs@ == seq![1u8, 2, 3, 5]);
    let mut i: usize = 0;
    while i < 4
        invariant
            i <= 4,
            msgs@ == seq![1u8, 2, 3, 5],
            forall|k: int| 0 <= k < i ==> msgs@[k] != msg_type,
        decreases 4 - i,
    {
        if msgs[i] == msg_type {
            return true;
        }
        i = i + 1;
    }
    false
}

/// What a station does with a frame `bits` heard in slot `t_si`, from the
/// slots `sl0` and registry `reg0` to `sl1` and `reg1`, with the outcome
/// `r`: a frame that cannot be read is refused with the reading's error,
/// one from the station itself (`own_mmsi`) is refused as self-emitted;
/// both leave everything as it was. Otherwise the sender's data are
/// recorded in the registry (replacing what was there), the slots are
/// updated as [`slots_after_reception`] says, and the message is handed back.
pub open spec fn reception_outcome(
    sl0: Seq<Slot>,
    sl1: Seq<Slot>,
    reg0: Map<u32, BoatInfoView>,
    reg1: Map<u32, BoatInfoView>,
    own_mmsi: u32,
    bits: Seq<bool>,
    t_si: u16,
    r: AisResult<AisMessage>,
) -> bool {
    match frame_error(bits) {
        Some(e) => r == Err::<AisMessage, AisError>(AisError::AisMessage(e)) && sl1 == sl0 && reg1 == reg0,
        None => {
            let v = frame_view(bits);
            let mmsi = v.boat_info.static_data.mmsi;
            if mmsi == own_mmsi {
                &&& r == Err::<AisMessage, AisError>(AisError::SelfEmittedMessage)
                &&& sl1 == sl0
                &&& reg1 == reg0
            } else {
                &&& r matches Ok(m) && m@ == v
                &&& reg1 == reg0.insert(mmsi, v.boat_info)
                &&& sl1 == slots_after_reception(sl0, t_si, mmsi, v.message_type, v.communication_state)
            }
        },
    }
}

/// A position report (type 1 or 2) with a SOTDMA state, heard in slot
/// `t_si` of the map and accepted, from a boat `sender`:
/// - with a slot timeout `tmo` above zero, leaves the slot owned by the
///   sender with timeout `tmo`, when the slot was free or the sender's own
///   with a timeout that had not run out;
/// - with a zero timeout, leaves the slot free, when the slot was free or
///   the sender's;
/// - leaves every slot as it was when someone else owns the slot.
pub proof fn lemma_sotdma_report_slot(
    sl0: Seq<Slot>,
    sl1: Seq<Slot>,
    reg0: Map<u32, BoatInfoView>,
    reg1: Map<u32, BoatInfoView>,
    own_mmsi: u32,
    bits: Seq<bool>,
    t_si: u16,
    r: AisResult<AisMessage>,
)
    requires
        reception_outcome(sl0, sl1, reg0, reg1, own_mmsi, bits, t_si, r),
        sl0.len() == 4500,
        t_si < 4500,
        r is Ok,
        r->Ok_0@.message_type == 1 || r->Ok_0@.message_type == 2,
        r->Ok_0@.communication_state is Some,
        r->Ok_0@.communication_state->0.slot_timeout is Some,
    ensures
        ({
            let sender = r->Ok_0@.boat_info.static_data.mmsi;
            let tmo = r->Ok_0@.communication_state->0.slot_timeout->0;
            let before = sl0[t_si as int];
            let after = sl1[t_si as int];
            &&& tmo > 0 && (before.owner is None || (before.owner == Some(sender) && before.timeout
                != Some(0u8))) ==> after.owner == Some(sender) && after.timeout == Some(tmo)
            &&& tmo == 0 && (before.owner is None || before.owner == Some(sender)) ==> after.owner is None
            &&& before.owner is Some && before.owner != Some(sender) ==> sl1 == sl0
        }),
{
    let v = frame_view(bits);
    assert(frame_error(bits) is None);
    assert(r->Ok_0@ == v);
    let mmsi = v.boat_info.static_data.mmsi;
    assert(mmsi != own_mmsi);
    let cs = v.communication_state;
    assert(sl1 == slots_after_reception(sl0, t_si, mmsi, v.message_type, cs));
    let i = t_si as int;
    let s1 = if sl0[i].timeout is Some {
        sl0.update(i, ticked(sl0[i]))
    } else {
        sl0.update(i, flagged(sl0[i]))
    };
    let tmo = cs->0.slot_timeout->0;
    if sl0[i].owner is None || sl0[i].owner == Some(mmsi) {
        assert(s1[i].owner == sl0[i].owner || s1[i].owner is None);
        if tmo > 0 && (sl0[i].owner is None || sl0[i].timeout != Some(0u8)) {
            assert(s1[i].owner == sl0[i].owner);
            assert(sl1[i].owner == Some(mmsi));
            assert(sl1[i].timeout == Some(tmo));
        }
        if tmo == 0 {
            let s2 = if sl0[i].owner is None && tmo > 0 {
                s1.update(i, booked(s1[i], mmsi, Some(tmo)))
            } else if sl0[i].timeout is None || tmo > 0 {
                s1.update(i, Slot { timeout: Some(tmo), ..s1[i] })
            } else {
                s1.update(i, released(s1[i]))
            };
            let ro = offset_spec(t_si, cs->0.slot_offset->0) as int;
            let s3 = s2.update(ro, booked(s2[ro], mmsi, Some(0)));
            assert(sl1 == s3.update(i, released(s3[i])));
            assert(0 <= ro < 4500);
            assert(sl1[i] == released(s3[i]));
        }
    } else {
        assert(sl1 == sl0);
    }
}

/// A report with an ITDMA state (type 3), heard in slot `t_si` of the map
/// and accepted, from a boat `sender` to whom the slot is free or belongs:
/// without the keep flag the slot is left free; with it, a free slot is
/// booked for the sender without a timeout and the sender's own slot stays
/// the sender's; a positive increment books for the sender the slot that
/// many places on (another slot of the minute on the same channel), when it
/// was free.
pub proof fn lemma_itdma_report_slots(
    sl0: Seq<Slot>,
    sl1: Seq<Slot>,
    reg0: Map<u32, BoatInfoView>,
    reg1: Map<u32, BoatInfoView>,
    own_mmsi: u32,
    bits: Seq<bool>,
    t_si: u16,
    r: AisResult<AisMessage>,
)
    requires
        reception_outcome(sl0, sl1, reg0, reg1, own_mmsi, bits, t_si, r),
        sl0.len() == 4500,
        t_si < 4500,
        r is Ok,
        r->Ok_0@.message_type == 3,
        r->Ok_0@.communication_state is Some,
        r->Ok_0@.communication_state->0.keep_flag is Some,
        r->Ok_0@.communication_state->0.slot_increment is Some,
        sl0[t_si as int].owner is None || sl0[t_si as int].owner == Some(
            r->Ok_0@.boat_info.static_data.mmsi,
        ),
        sl0[t_si as int].timeout != Some(0u8),
    ensures
        ({
            let sender = r->Ok_0@.boat_info.static_data.mmsi;
            let keep = r->Ok_0@.communication_state->0.keep_flag->0;
            let inc = r->Ok_0@.communication_state->0.slot_increment->0;
            let next = offset_spec(t_si, inc) as int;
            &&& inc == 0 && !keep ==> sl1[t_si as int].owner is None
            &&& inc == 0 && keep ==> sl1[t_si as int].owner == Some(sender)
            &&& inc > 0 && next != t_si && sl0[next].owner is None ==> sl1[next].owner == Some(sender)
                && sl1[next].timeout is None
        }),
{
    let v = frame_view(bits);
    assert(frame_error(bits) is None);
    assert(r->Ok_0@ == v);
    let mmsi = v.boat_info.static_data.mmsi;
    let cs = v.communication_state;
    assert(sl1 == slots_after_reception(sl0, t_si, mmsi, v.message_type, cs));
    let i = t_si as int;
    let inc = cs->0.slot_increment->0;
    let keep = cs->0.keep_flag->0;
    let s1 = if sl0[i].timeout is Some {
        sl0.update(i, ticked(sl0[i]))
    } else {
        sl0.update(i, flagged(sl0[i]))
    };
    assert(s1[i].owner == sl0[i].owner);
    let s2 = if !keep {
        s1.update(i, released(s1[i]))
    } else if s1[i].owner is None {
        s1.update(i, booked(s1[i], mmsi, None))
    } else {
        s1
    };
    assert(s2[i].owner == if keep { Some(mmsi) } else { None::<u32> });
    if inc > 0 {
        let ro = offset_spec(t_si, inc) as int;
        assert(0 <= ro < 4500);
        assert(sl1 == s2.update(ro, booked(s2[ro], mmsi, None)));
    }
}

/// What a station does with a frame heard in slot `t_si`; see
/// [`reception_outcome`].
pub fn handle_transmission(
    slots_map: &mut SlotsMap,
    boats_registry: &mut BoatsInfoRegistry,
    own_mmsi: u32,
    msg: BitPacker,
    t_si: u16,
) -> (r: AisResult<AisMessage>)
    requires
        old(slots_map).wf(),
        msg.wf(),
        t_si < 4500,
    ensures
        final(slots_map).wf(),
        final(slots_map).mmsi() == old(slots_map).mmsi(),
        reception_outcome(
            old(slots_map)@,
            final(slots_map)@,
            old(boats_registry)@,
            final(boats_registry)@,
            own_mmsi,
            msg@,
            t_si,
            r,
        ),
{
    let ghost v = frame_view(msg@);
    let ghost bits = msg@;
    let msg = match AisMessage::from_bits(msg) {
        Ok(m) => m,
        Err(e) => return Err(AisError::AisMessage(e)),
    };
    let info = msg.boat_info();
    let boat_mmsi = match info.get_static_data() {
        Ok(s) => s.mmsi,
        Err(e) => return Err(AisError::BoatInfo(e)),
    };
    let msg_type = *msg.message_type();
    if boat_mmsi == own_mmsi || !is_implemented(msg_type) {
        return Err(AisError::SelfEmittedMessage);
    }
    proof {
        lemma_frame_fields(bits);
    }
    if boats_registry.is_registered(&boat_mmsi) {
        match boats_registry.update(info) {
            Ok(_) => {},
            Err(e) => return Err(AisError::BoatsRegistry(e)),
        }
    } else {
        match boats_registry.register(info) {
            Ok(_) => {},
            Err(e) => return Err(AisError::BoatsRegistry(e)),
        }
    }
    let ghost sl = slots_map@;
    proof {
        slots_map.lemma_wf();
    }
    let t_si_owner = match slots_map.slot_owner(t_si) {
        Ok(o) => o,
        Err(e) => return Err(AisError::SlotsMap(e)),
    };
    let t_si_timeout = match slots_map.slot_timeout(t_si) {
        Ok(t) => t,
        Err(e) => return Err(AisError::SlotsMap(e)),
    };
    if t_si_owner.is_none() || t_si_owner == Some(boat_mmsi) {
        if t_si_timeout.is_some() {
            let _ = slots_map.use_slot(t_si);
        } else {
            let _ = slots_map.flag_slot_as_used(t_si);
        }
        if msg_type == 1 || msg_type == 2 {
            let cs = match msg.communication_state() {
                Ok(c) => c,
                Err(e) => return Err(AisError::AisMessage(e)),
            };
            let com_state_timeout = match cs.slot_timeout() {
                Ok(t) => *t,
                Err(e) => return Err(AisError::CommunicationState(e)),
            };
            if t_si_owner.is_none() && com_state_timeout > 0 {
                let _ = slots_map.book_slot(t_si, boat_mmsi, Some(com_state_timeout), None);
            } else if t_si_timeout.is_none() || com_state_timeout > 0 {
                let _ = slots_map.set_slot_timeout(t_si, Some(com_state_timeout));
            } else if t_si_timeout == Some(0u8) || com_state_timeout == 0 {
                let _ = slots_map.release_slot(t_si);
            }
            if com_state_timeout == 0 {
                let cs_offset = match cs.slot_offset() {
                    Ok(o) => *o,
                    Err(e) => return Err(AisError::CommunicationState(e)),
                };
                let rsv_s = SlotsMap::offseted_si(t_si, cs_offset);
                let _ = slots_map.book_slot(rsv_s, boat_mmsi, Some(com_state_timeout), None);
                let _ = slots_map.release_slot(t_si);
            }
        } else if msg_type == 3 {
            let cs = match msg.communication_state() {
                Ok(c) => c,
                Err(e) => return Err(AisError::AisMessage(e)),
            };
            let com_state_keep_flag = match cs.keep_flag() {
                Ok(k) => *k,
                Err(e) => return Err(AisError::CommunicationState(e)),
            };
            let com_state_slot_increment = match cs.slot_increment() {
                Ok(i) => *i,
                Err(e) => return Err(AisError::CommunicationState(e)),
            };
            if com_state_keep_flag == false {
                let _ = slots_map.release_slot(t_si);
            } else {
                let owner_now = match slots_map.slot_owner(t_si) {
                    Ok(o) => o,
                    Err(e) => return Err(AisError::SlotsMap(e)),
                };
                if owner_now.is_none() && com_state_keep_flag {
                    let _ = slots_map.book_slot(t_si, boat_mmsi, None, None);
                }
            }
            if com_state_slot_increment > 0 {
                let rsv_s = SlotsMap::offseted_si(t_si, com_state_slot_increment);
                let _ = slots_map.book_slot(rsv_s, boat_mmsi, None, None);
            }
        }
        assert(slots_map@ == slots_after_reception(sl, t_si, boat_mmsi, v.message_type, v.communication_state));
    }
    Ok(msg)
}

/// `t_si` is a slot of `channel` (of 87B for any channel but 88B).
pub open spec fn slot_of_channel(channel: Channel, t_si: u16) -> bool {
    if channel == Channel::C88B {
        2250 <= t_si < 4500
    } else {
        t_si < 2250
    }
}

/// What a station does with a frame `bits` heard on `channel`, in some slot
/// of that channel; see [`reception_outcome`]. When the clock cannot be read
/// the frame is refused with that error and nothing changes.
pub open spec fn heard_on(
    channel: Channel,
    sl0: Seq<Slot>,
    sl1: Seq<Slot>,
    reg0: Map<u32, BoatInfoView>,
    reg1: Map<u32, BoatInfoView>,
    own_mmsi: u32,
    bits: Seq<bool>,
    r: AisResult<AisMessage>,
) -> bool {
    ||| exists|t_si: u16|
        slot_of_channel(channel, t_si) && #[trigger] reception_outcome(sl0, sl1, reg0, reg1, own_mmsi, bits, t_si, r)
    ||| r matches Err(AisError::Clock(ClockError::Unreadable)) && sl1 == sl0 && reg1 == reg0
}

/// What a station does with a frame heard on `channel`, in the slot of
/// that channel that the clock gives; see [`reception_outcome`].
pub fn handle_transmission_on(
    slots_map: &mut SlotsMap,
    boats_registry: &mut BoatsInfoRegistry,
    own_mmsi: u32,
    msg: BitPacker,
    channel: Channel,
) -> (r: AisResult<AisMessage>)
    requires
        old(slots_map).wf(),
        msg.wf(),
    ensures
        final(slots_map).wf(),
        final(slots_map).mmsi() == old(slots_map).mmsi(),
        heard_on(
            channel,
            old(slots_map)@,
            final(slots_map)@,
            old(boats_registry)@,
            final(boats_registry)@,
            own_mmsi,
            msg@,
            r,
        ),
{
    let t_si = match SlotsMap::current_si(channel) {
        Some(c) => c,
        None => return Err(AisError::Clock(ClockError::Unreadable)),
    };
    let ghost bits = msg@;
    let r = handle_transmission(slots_map, boats_registry, own_mmsi, msg, t_si);
    assert(reception_outcome(
        old(slots_map)@,
        slots_map@,
        old(boats_registry)@,
        boats_registry@,
        own_mmsi,
        bits,
        t_si,
        r,
    ));
    assert(slot_of_channel(channel, t_si));
    r
}

/// The AIS of the harbourmaster: the registry of the boats it hears, its
/// slot map, and what it reports of its reception.
pub struct HarbourmasterAisState {
    pub boats_registry: BoatsInfoRegistry,
    pub slots_map: SlotsMap,
    pub recv_stations: u16,
    pub sync_state: u8,
}

impl HarbourmasterAisState {
    /// The harbourmaster's AIS with the registry `boats_registry`, every
    /// slot free and nothing received yet.
    pub fn init(boats_registry: BoatsInfoRegistry) -> (r: Self)
        ensures
            r.boats_registry@ == boats_registry@,
            r.slots_map.wf(),
            r.slots_map.mmsi() == HARBOURMASTER_MMSI,
            r.slots_map@ == fresh_slots(),
            r.recv_stations == 0,
            r.sync_state == 0,
    {
        HarbourmasterAisState {
            boats_registry,
            slots_map: SlotsMap::new(HARBOURMASTER_MMSI),
            recv_stations: 0,
            sync_state: 0,
        }
    }

    /// The slot map.
    pub fn slots_map(&self) -> (r: &SlotsMap)
        ensures
            r == &self.slots_map,
    {
        &self.slots_map
    }

    /// What the harbourmaster does with a frame heard on `channel`; see
    /// [`handle_transmission_on`].
    pub fn handle_transmission(&mut self, msg: BitPacker, channel: Channel) -> (r: AisResult<AisMessage>)
        requires
            old(self).slots_map.wf(),
            msg.wf(),
        ensures
            final(self).slots_map.wf(),
            final(self).slots_map.mmsi() == old(self).slots_map.mmsi(),
            final(self).recv_stations == old(self).recv_stations,
            final(self).sync_state == old(self).sync_state,
            heard_on(
                channel,
                old(self).slots_map@,
                final(self).slots_map@,
                old(self).boats_registry@,
                final(self).boats_registry@,
                HARBOURMASTER_MMSI,
                msg@,
                r,
            ),
    {
        handle_transmission_on(&mut self.slots_map, &mut self.boats_registry, HARBOURMASTER_MMSI, msg, channel)
    }
}

} // verus!
