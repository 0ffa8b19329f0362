use vstd::prelude::*;
use crate::common::constants::SLOTS_PER_MINUTE;
use crate::common::types::Channel;

verus! {

/// One AIS slot: who owns it, for how many more frames, and how long ago it
/// was last heard.
#[derive(Debug, Clone, Copy, PartialEq, Eq, Structural)]
pub struct Slot {
    pub number: u16,
    pub channel: Channel,
    pub is_assigned: bool,
    pub owner: Option<u32>,
    pub timeout: Option<u8>,
    pub frames_since_last_use: i8,
}

/// The channel of slot `idx`: 0 to 2249 on channel 87B, 2250 to 4500 on 88B.
pub open spec fn channel_of(idx: u16) -> Channel {
    if idx < SLOTS_PER_MINUTE {
        Channel::C87B
    } else {
        Channel::C88B
    }
}

/// A slot as it stands when nobody owns it.
pub open spec fn released(s: Slot) -> Slot {
    Slot { owner: None, timeout: None, is_assigned: false, frames_since_last_use: -2i8, ..s }
}

/// The slot after a frame in which its owner used it: its timeout counts
/// down, and at zero it is released.
pub open spec fn ticked(s: Slot) -> Slot
    recommends
        s.timeout is Some,
{
    let used = Slot { frames_since_last_use: -1i8, ..s };
    if s.timeout->0 == 0 {
        released(used)
    } else {
        Slot { timeout: Some((s.timeout->0 - 1) as u8), ..used }
    }
}

impl Slot {
    /// A free slot numbered `nbr`.
    pub fn new(nbr: u16) -> (r: Self)
        requires
            nbr <= 4500,
        ensures
            r == (Slot {
                number: nbr,
                channel: channel_of(nbr),
                is_assigned: false,
                owner: None,
                timeout: None,
                frames_since_last_use: -2i8,
            }),
    {
        let channel = match Slot::idx_to_channel(nbr) {
            Ok(c) => c,
            Err(_) => Channel::C88B,
        };
        Self {
            number: nbr,
            channel: channel,
            is_assigned: false,
            owner: None,
            timeout: None,
            frames_since_last_use: -2,
        }
    }

    /// The channel of slot `slot_idx`; refused past slot 4500.
    pub fn idx_to_channel(slot_idx: u16) -> (r: Result<Channel, &'static str>)
        ensures
            slot_idx <= 4500 ==> r == Ok::<Channel, &'static str>(channel_of(slot_idx)),
            slot_idx > 4500 ==> r is Err,
    {
        if slot_idx < SLOTS_PER_MINUTE {
            Ok(Channel::C87B)
        } else if slot_idx >= SLOTS_PER_MINUTE && slot_idx <= 4500 {
            Ok(Channel::C88B)
        } else {
            Err("Numéro de slot invalide")
        }
    }

    /// Marks the slot as heard in this frame.
    pub fn flag_as_used(&mut self)
        ensures
            *final(self) == (Slot { frames_since_last_use: -1i8, ..*old(self) }),
    {
        self.frames_since_last_use = -1;
    }

    /// Reserves the slot for `mmsi` when nobody owns it; an owned slot is left as it is.
    pub fn book(&mut self, mmsi: u32, timeout: Option<u8>, is_assigned: bool)
        ensures
            old(self).owner is None ==> *final(self) == (Slot {
                owner: Some(mmsi),
                timeout: timeout,
                is_assigned: is_assigned,
                frames_since_last_use: 0i8,
                ..*old(self)
            }),
            old(self).owner is Some ==> *final(self) == *old(self),
    {
        if self.owner.is_none() {
            self.owner = Some(mmsi);
            self.timeout = timeout;
            self.is_assigned = is_assigned;
            self.frames_since_last_use = 0;
        }
    }

    /// Frees the slot.
    pub fn release(&mut self)
        ensures
            *final(self) == released(*old(self)),
    {
        self.owner = None;
        self.timeout = None;
        self.is_assigned = false;
        self.frames_since_last_use = -2;
    }

    /// Counts a frame in which the owner used the slot.
    pub fn tick(&mut self)
        requires
            old(self).timeout is Some,
        ensures
            *final(self) == ticked(*old(self)),
    {
        self.flag_as_used();
        let t: u8 = match self.timeout {
            Some(t) => t,
            None => 0,
        };
        if t == 0 {
            self.release();
        } else if 0 < t {
            self.timeout = Some(t - 1);
        }
    }

    pub fn is_free(&self) -> (r: bool)
        ensures
            r == self.owner is None,
    {
        self.owner.is_none()
    }

    pub fn number(&self) -> (r: &u16)
        ensures
            *r == self.number,
    {
        &self.number
    }

    pub fn channel(&self) -> (r: &Channel)
        ensures
            *r == self.channel,
    {
        &self.channel
    }

    pub fn is_assigned(&self) -> (r: &bool)
        ensures
            *r == self.is_assigned,
    {
        &self.is_assigned
    }

    pub fn owner(&self) -> (r: &Option<u32>)
        ensures
            *r == self.owner,
    {
        &self.owner
    }

    pub fn timeout(&self) -> (r: &Option<u8>)
        ensures
            *r == self.timeout,
    {
        &self.timeout
    }

    pub fn frames_since_last_use(&self) -> (r: &i8)
        ensures
            *r == self.frames_since_last_use,
    {
        &self.frames_since_last_use
    }

    pub fn set_is_assigned(&mut self, val: bool)
        ensures
            *final(self) == (Slot { is_assigned: val, ..*old(self) }),
    {
        self.is_assigned = val;
    }

    pub fn set_owner(&mut self, val: Option<u32>)
        ensures
            *final(self) == (Slot { owner: val, ..*old(self) }),
    {
        self.owner = val;
    }

    pub fn set_timeout(&mut self, val: Option<u8>)
        ensures
            *final(self) == (Slot { timeout: val, ..*old(self) }),
    {
        self.timeout = val;
    }

    pub fn set_frames_since_last_use(&mut self, val: i8)
        ensures
            *final(self) == (Slot { frames_since_last_use: val, ..*old(self) }),
    {
        self.frames_since_last_use = val;
    }
}

/// A slot booked by a free slot and then released is free again, with all
/// else as before the booking.
pub proof fn lemma_book_release(s: Slot, mmsi: u32, timeout: Option<u8>, is_assigned: bool)
    requires
        s.owner is None,
    ensures
        released(Slot { owner: Some(mmsi), timeout, is_assigned, frames_since_last_use: 0i8, ..s })
            == released(s),
{
}

/// A slot booked with timeout `t` is released by exactly `t + 1` ticks.
pub proof fn lemma_ticks_release(s: Slot, t: u8)
    requires
        s.timeout == Some(t),
    ensures
        ticked(s).owner is None <==> t == 0 || s.owner is None,
        t > 0 ==> ticked(s).timeout == Some((t - 1) as u8) && ticked(s).owner == s.owner,
{
}

} // verus!
