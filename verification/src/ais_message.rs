use vstd::prelude::*;
use vstd::arithmetic::power2::{pow2, lemma2_to64};
use crate::bitpacker::{
    BitPacker, word_bits, seq_field, lemma_word_field, packed_bytes, sixbit_text, bits_value,
    packed_str, sixbit_fits, sixbit_normalize, lemma_sixbit_prefix,
};
use crate::boat_info::{
    BoatInfo, BoatInfoView, NavigationData, StaticData, StaticDataView, VoyageData, VoyageDataView,
    default_navigation_data, default_static_data, default_voyage_data, field_bits, field_width,
};
use crate::common::constants::{MSG123_FIELDS, MSG5_FIELDS, SOTDMA_CS_MSGS};
use crate::common::errors::{
    AisMessageError, AisMessageResult, BitPackerError, CommunicationStateError,
    CommunicationStateResult,
};
use crate::common::types::{AisField, CSType};
use crate::common::utils::get_current_dt;

verus! {

/// The CRC-16/IBM-SDLC (X.25) checksum of some bytes, as the `crc` crate
/// computes it.
pub uninterp spec fn crc16_ibm_sdlc(bytes: Seq<u8>) -> u16;

/// The fields of a position report (types 1 to 3), from the least
/// significant bits up.
pub open spec fn msg123_fields() -> Seq<AisField> {
    seq![
        AisField::Mmsi,
        AisField::NavigationalStatus,
        AisField::RateOfTurn,
        AisField::SpeedOverGround,
        AisField::PositionAccuracy,
        AisField::Longitude,
        AisField::Latitude,
        AisField::CourseOverGround,
        AisField::TrueHeading,
        AisField::TimeStamp,
        AisField::SpecialManeuvreIndicator,
        AisField::Spare,
        AisField::RaimFlag,
    ]
}

/// The fields of a static and voyage report (type 5), from the least
/// significant bits up.
pub open spec fn msg5_fields() -> Seq<AisField> {
    seq![
        AisField::Mmsi,
        AisField::AisVersion,
        AisField::ImoNumber,
        AisField::CallSign,
        AisField::Name,
        AisField::TypeOfShipAndCargoType,
        AisField::A,
        AisField::B,
        AisField::C,
        AisField::D,
        AisField::TypeOfEpfDevice,
        AisField::EtaMinute,
        AisField::EtaHour,
        AisField::EtaDay,
        AisField::EtaMonth,
        AisField::MaximumPresentStaticDraught,
        AisField::Destination,
        AisField::Dte,
        AisField::Spare,
    ]
}

/// The bits of `fields` one after the other, the first at the bottom.
pub open spec fn fields_bits(info: BoatInfoView, fields: Seq<AisField>, msg_type: u8) -> Seq<bool>
    decreases fields.len(),
{
    if fields.len() == 0 {
        Seq::empty()
    } else {
        fields_bits(info, fields.drop_last(), msg_type) + field_bits(info, fields.last(), msg_type)
    }
}

/// The data bits of a message of type `msg_type` about a boat: the fields of
/// its type, none for a type not built.
pub open spec fn data_bits(info: BoatInfoView, msg_type: u8) -> Seq<bool> {
    if msg_type == 1 || msg_type == 2 || msg_type == 3 {
        fields_bits(info, msg123_fields(), msg_type)
    } else if msg_type == 5 {
        fields_bits(info, msg5_fields(), msg_type)
    } else {
        Seq::empty()
    }
}

/// The payload of a message: its type on 6 bits, the repeat indicator 3 on
/// 2, the data, then the communication state when there is one.
pub open spec fn payload_bits(
    msg_type: u8,
    data: Seq<bool>,
    cs: Option<CommunicationState>,
    utc_hour: u32,
    utc_minute: u32,
) -> AisMessageResult<Seq<bool>> {
    let head = word_bits(msg_type as u64, 6) + word_bits(3, 2) + data;
    match cs {
        None => Ok(head),
        Some(c) => match cs_bits(c, utc_hour, utc_minute) {
            Ok(b) => Ok(head + b),
            Err(e) => Err(AisMessageError::CommunicationState(e)),
        },
    }
}

/// The training bits (8 set bits), the 24-bit synchronisation sequence and
/// the start flag that open a frame.
pub open spec fn frame_head() -> Seq<bool> {
    word_bits(255, 8) + word_bits(5592405, 24) + word_bits(126, 8)
}

/// The end flag and the 23 set bits of buffer that close a frame.
pub open spec fn frame_tail() -> Seq<bool> {
    word_bits(126, 8) + word_bits(8388607, 23)
}

/// A whole frame: the head, the payload, its CRC on 16 bits and the tail.
pub open spec fn frame_bits(payload: Seq<bool>) -> Seq<bool> {
    frame_head() + payload + word_bits(crc16_ibm_sdlc(packed_bytes(payload)) as u64, 16)
        + frame_tail()
}

/// A result that holds the bits `b` as a canonical packer, or the same error.
pub open spec fn frame_built_as(r: AisMessageResult<BitPacker>, b: AisMessageResult<Seq<bool>>) -> bool {
    match b {
        Ok(bits) => r matches Ok(p) && p.canonical() && p@ == bits,
        Err(e) => r == Err::<BitPacker, AisMessageError>(e),
    }
}

/// The boat data that the data bits `d` of a position report (types 1 to 3)
/// carry; what they do not carry keeps its default.
pub open spec fn msg123_info(d: Seq<bool>) -> BoatInfoView {
    BoatInfoView {
        static_data: StaticDataView {
            mmsi: seq_field(d, 0, 29) as u32,
            position_accuracy: seq_field(d, 52, 52) as u8,
            ..default_static_data()
        },
        voyage_data: VoyageDataView { raim_flag: seq_field(d, 140, 140) as u8, ..default_voyage_data() },
        navigation_data: NavigationData {
            navigational_status: seq_field(d, 30, 33) as u8,
            time_stamp: seq_field(d, 129, 134) as u8,
            special_maneuvre_indicator: seq_field(d, 135, 136) as u8,
            latitude: seq_field(d, 53, 80) as u32,
            longitude: seq_field(d, 81, 107) as u32,
            course_over_ground: seq_field(d, 108, 119) as u16,
            speed_over_ground: seq_field(d, 42, 51) as u16,
            rate_of_turn: (seq_field(d, 34, 41) as u8) as i8,
            true_heading: seq_field(d, 120, 128) as u16,
        },
    }
}

/// The boat data that the data bits `d` of a static and voyage report
/// (type 5) carry; what they do not carry keeps its default.
pub open spec fn msg5_info(d: Seq<bool>) -> BoatInfoView {
    BoatInfoView {
        static_data: StaticDataView {
            mmsi: seq_field(d, 0, 29) as u32,
            imo_number: seq_field(d, 32, 61) as u32,
            call_sign: sixbit_text(d.subrange(62, 104), 7),
            name: sixbit_text(d.subrange(104, 224), 20),
            type_of_ship_and_cargo_type: seq_field(d, 224, 231) as u8,
            ais_version: seq_field(d, 30, 31) as u8,
            type_of_epf_device: seq_field(d, 262, 265) as u8,
            a: seq_field(d, 232, 240) as u16,
            b: seq_field(d, 241, 249) as u16,
            c: seq_field(d, 250, 255) as u8,
            d: seq_field(d, 256, 261) as u8,
            ..default_static_data()
        },
        voyage_data: VoyageDataView {
            destination: sixbit_text(d.subrange(294, 414), 20),
            eta_month: seq_field(d, 282, 285) as u8,
            eta_day: seq_field(d, 277, 281) as u8,
            eta_hour: seq_field(d, 272, 276) as u8,
            eta_minute: seq_field(d, 266, 271) as u8,
            maximum_present_static_draught: seq_field(d, 286, 293) as u8,
            dte: seq_field(d, 414, 414) as u8,
            ..default_voyage_data()
        },
        navigation_data: default_navigation_data(),
    }
}

/// The CRC that a frame carries after the payload ending before bit `end`
/// is that of the payload.
pub open spec fn crc_ok(s: Seq<bool>, end: int) -> bool {
    seq_field(s, end, end + 15) == crc16_ibm_sdlc(packed_bytes(s.subrange(40, end)))
}

/// A checksum, or why it could not be computed.
pub type CrcResult = Result<u16, &'static str>;

/// An AIS frame: what it says of a boat and how it is framed.
#[derive(Debug)]
pub struct AisMessage {
    message_type: u8,
    boat_info: BoatInfo,
    ramp_up_bits: BitPacker,
    sync_sequence: BitPacker,
    start_flag: BitPacker,
    data: BitPacker,
    communication_state: Option<CommunicationState>,
    crc: BitPacker,
    end_flag: BitPacker,
    buffer: BitPacker,
}

/// The contents of an AIS frame.
pub struct AisMessageView {
    pub message_type: u8,
    pub boat_info: BoatInfoView,
    pub data: Seq<bool>,
    pub communication_state: Option<CommunicationState>,
    pub crc: u16,
}

impl View for AisMessage {
    type V = AisMessageView;

    closed spec fn view(&self) -> AisMessageView {
        AisMessageView {
            message_type: self.message_type,
            boat_info: self.boat_info@,
            data: self.data@,
            communication_state: self.communication_state,
            crc: bits_value(self.crc@) as u16,
        }
    }
}

impl AisMessage {
    /// The framing bits are the fixed ones, the data and the 16-bit CRC canonical.
    #[verifier::type_invariant]
    spec fn frame_fixed(self) -> bool {
        &&& self.ramp_up_bits.canonical() && self.ramp_up_bits@ == word_bits(255, 8)
        &&& self.sync_sequence.canonical() && self.sync_sequence@ == word_bits(5592405, 24)
        &&& self.start_flag.canonical() && self.start_flag@ == word_bits(126, 8)
        &&& self.end_flag.canonical() && self.end_flag@ == word_bits(126, 8)
        &&& self.buffer.canonical() && self.buffer@ == word_bits(8388607, 23)
        &&& self.data.canonical()
        &&& self.crc.canonical() && self.crc.nbits() == 16
    }

    /// The CRC-16/IBM-SDLC of `bytes`: a call of the `crc` crate's
    /// `Crc::<u16>::checksum` with the `CRC_16_IBM_SDLC` algorithm. What is
    /// claimed is that the result is that checksum of the bytes given.
    #[verifier::external_body]
    fn compute_crc(bytes: &[u8]) -> (r: CrcResult)
        ensures
            r == CrcResult::Ok(crc16_ibm_sdlc(bytes@)),
    {
        Ok(crc::Crc::<u16>::new(&crc::CRC_16_IBM_SDLC).checksum(bytes))
    }

    /// The CRC of a canonical packer's bytes.
    fn crc_of(p: &BitPacker) -> (r: u16)
        requires
            p.canonical(),
        ensures
            r == crc16_ibm_sdlc(packed_bytes(p@)),
    {
        proof {
            p.lemma_canonical_bytes();
        }
        AisMessage::compute_crc(p.bits().as_slice()).unwrap()
    }

    /// The communication state, an error when the message has none.
    pub fn communication_state(&self) -> (r: AisMessageResult<CommunicationState>)
        ensures
            match self@.communication_state {
                Some(c) => r == Ok::<CommunicationState, AisMessageError>(c),
                None => r == Err::<CommunicationState, AisMessageError>(
                    AisMessageError::NoCommunicationState,
                ),
            },
    {
        match self.communication_state {
            Some(c) => Ok(c),
            None => Err(AisMessageError::NoCommunicationState),
        }
    }

    /// Reads a frame: its type from bits 40 to 45; for types 1 to 3 the
    /// payload from bit 40 to 207 (the data from 48 to 188, the
    /// communication state from 189), the CRC from 208 to 223; for type 5
    /// the payload from 40 to 463 (the data from 48), the CRC from 464 to
    /// 479. The data are those of [`msg123_info`] or [`msg5_info`]. Too few
    /// bits give an index error, a CRC that is not the payload's a CRC
    /// error, another type a type error.
    pub fn parse(msg: BitPacker) -> (r: AisMessageResult<(u8, BitPacker, Option<CommunicationState>, u16, BoatInfo)>)
        requires
            msg.wf(),
        ensures
            parse_outcome(msg@, r),
    {
        let msg_type: u8 = match read_msg_field(&msg, 40, Some(45), 6) {
            Ok(v) => v as u8,
            Err(e) => return Err(e),
        };
        proof {
            lemma2_to64();
        }
        if msg_type == 1 || msg_type == 2 || msg_type == 3 {
            AisMessage::parse_position_report(&msg, msg_type)
        } else if msg_type == 5 {
            AisMessage::parse_static_report(&msg)
        } else {
            Err(AisMessageError::MessageTypeNotImplemented)
        }
    }

    fn parse_position_report(msg: &BitPacker, msg_type: u8) -> (r: AisMessageResult<
        (u8, BitPacker, Option<CommunicationState>, u16, BoatInfo),
    >)
        requires
            msg.wf(),
            msg@.len() >= 46,
            msg_type == seq_field(msg@, 40, 45) as u8,
            msg_type == 1 || msg_type == 2 || msg_type == 3,
        ensures
            parse_outcome(msg@, r),
    {
        let ghost s = msg@;
        let payload = match msg.slice(Some(40), Some(207)) {
            Ok(p) => p,
            Err(e) => return Err(AisMessageError::BitPacker(e)),
        };
        let data = payload.slice(Some(8), Some(148)).unwrap();
        let cs_bits = payload.slice(Some(149), Some(167)).unwrap();
        assert(data@ =~= s.subrange(48, 189));
        assert(cs_bits@ =~= s.subrange(189, 208));
        proof {
            lemma_cs_parse_total(cs_bits@, msg_type);
        }
        let communication_state = match CommunicationState::parse(cs_bits, msg_type) {
            Ok(c) => c,
            Err(e) => return Err(AisMessageError::CommunicationState(e)),
        };
        let msg_crc: u16 = match read_msg_field(msg, 208, Some(223), 16) {
            Ok(v) => v as u16,
            Err(e) => return Err(e),
        };
        proof {
            lemma2_to64();
        }
        let computed_crc = AisMessage::crc_of(&payload);
        if msg_crc == computed_crc {
            let boat_info = AisMessage::position_report_info(&data);
            Ok((msg_type, data, Some(communication_state), msg_crc, boat_info))
        } else {
            Err(AisMessageError::CrcMismatch)
        }
    }

    fn parse_static_report(msg: &BitPacker) -> (r: AisMessageResult<
        (u8, BitPacker, Option<CommunicationState>, u16, BoatInfo),
    >)
        requires
            msg.wf(),
            msg@.len() >= 46,
            seq_field(msg@, 40, 45) as u8 == 5,
        ensures
            parse_outcome(msg@, r),
    {
        let ghost s = msg@;
        let payload = match msg.slice(Some(40), Some(463)) {
            Ok(p) => p,
            Err(e) => return Err(AisMessageError::BitPacker(e)),
        };
        let data = payload.slice(Some(8), None).unwrap();
        assert(data@ =~= s.subrange(48, 464));
        let crc_bits = match msg.slice(Some(464), Some(479)) {
            Ok(p) => p,
            Err(e) => return Err(AisMessageError::BitPacker(e)),
        };
        assert(crc_bits@.subrange(0, 16) =~= s.subrange(464, 480));
        let msg_crc: u16 = match read_msg_field(&crc_bits, 0, None, 16) {
            Ok(v) => v as u16,
            Err(e) => return Err(e),
        };
        proof {
            lemma2_to64();
        }
        let computed_crc = AisMessage::crc_of(&payload);
        if msg_crc == computed_crc {
            let boat_info = AisMessage::static_report_info(&data);
            Ok((5, data, None, msg_crc, boat_info))
        } else {
            Err(AisMessageError::CrcMismatch)
        }
    }

    /// The boat data of the data bits of a position report.
    fn position_report_info(d: &BitPacker) -> (r: BoatInfo)
        requires
            d.wf(),
            d@.len() == 141,
        ensures
            r@ == msg123_info(d@),
    {
        proof {
            lemma2_to64();
        }
        let mut static_data = StaticData::new(None, None, None, None, None, None, None, None, None, None, None, None);
        let mut voyage_data = VoyageData::new(None, None, None, None, None, None, None, None);
        let mut navigation_data = NavigationData::new(None, None, None, None, None, None, None, None, None);
        static_data.mmsi = read_msg_field(d, 0, Some(29), 30).unwrap() as u32;
        static_data.position_accuracy = read_msg_field(d, 52, Some(52), 1).unwrap() as u8;
        voyage_data.raim_flag = read_msg_field(d, 140, Some(140), 1).unwrap() as u8;
        navigation_data.navigational_status = read_msg_field(d, 30, Some(33), 4).unwrap() as u8;
        navigation_data.time_stamp = read_msg_field(d, 129, Some(134), 6).unwrap() as u8;
        navigation_data.special_maneuvre_indicator = read_msg_field(d, 135, Some(136), 2).unwrap() as u8;
        navigation_data.latitude = read_msg_field(d, 53, Some(80), 28).unwrap() as u32;
        navigation_data.longitude = read_msg_field(d, 81, Some(107), 27).unwrap() as u32;
        navigation_data.course_over_ground = read_msg_field(d, 108, Some(119), 12).unwrap() as u16;
        navigation_data.speed_over_ground = read_msg_field(d, 42, Some(51), 10).unwrap() as u16;
        navigation_data.rate_of_turn = read_msg_field(d, 34, Some(41), 8).unwrap() as u8 as i8;
        navigation_data.true_heading = read_msg_field(d, 120, Some(128), 9).unwrap() as u16;
        BoatInfo::new(Some(static_data), Some(voyage_data), Some(navigation_data))
    }

    /// The boat data of the data bits of a static and voyage report.
    fn static_report_info(d: &BitPacker) -> (r: BoatInfo)
        requires
            d.wf(),
            d@.len() == 416,
        ensures
            r@ == msg5_info(d@),
    {
        proof {
            lemma2_to64();
        }
        let mut static_data = StaticData::new(None, None, None, None, None, None, None, None, None, None, None, None);
        let mut voyage_data = VoyageData::new(None, None, None, None, None, None, None, None);
        static_data.mmsi = read_msg_field(d, 0, Some(29), 30).unwrap() as u32;
        static_data.imo_number = read_msg_field(d, 32, Some(61), 30).unwrap() as u32;
        static_data.call_sign = read_msg_str(d, 62, 103).unwrap();
        static_data.name = read_msg_str(d, 104, 223).unwrap();
        static_data.type_of_ship_and_cargo_type = read_msg_field(d, 224, Some(231), 8).unwrap() as u8;
        static_data.ais_version = read_msg_field(d, 30, Some(31), 2).unwrap() as u8;
        static_data.type_of_epf_device = read_msg_field(d, 262, Some(265), 4).unwrap() as u8;
        static_data.a = read_msg_field(d, 232, Some(240), 9).unwrap() as u16;
        static_data.b = read_msg_field(d, 241, Some(249), 9).unwrap() as u16;
        static_data.c = read_msg_field(d, 250, Some(255), 6).unwrap() as u8;
        static_data.d = read_msg_field(d, 256, Some(261), 6).unwrap() as u8;
        voyage_data.destination = read_msg_str(d, 294, 413).unwrap();
        voyage_data.eta_month = read_msg_field(d, 282, Some(285), 4).unwrap() as u8;
        voyage_data.eta_day = read_msg_field(d, 277, Some(281), 5).unwrap() as u8;
        voyage_data.eta_hour = read_msg_field(d, 272, Some(276), 5).unwrap() as u8;
        voyage_data.eta_minute = read_msg_field(d, 266, Some(271), 6).unwrap() as u8;
        voyage_data.maximum_present_static_draught = read_msg_field(d, 286, Some(293), 8).unwrap() as u8;
        voyage_data.dte = read_msg_field(d, 414, Some(414), 1).unwrap() as u8;
        BoatInfo::new(Some(static_data), Some(voyage_data), None)
    }

    fn assemble(
        message_type: u8,
        boat_info: BoatInfo,
        data: BitPacker,
        communication_state: Option<CommunicationState>,
        crc: u16,
    ) -> (r: Self)
        requires
            data.canonical(),
        ensures
            r@ == (AisMessageView {
                message_type,
                boat_info: boat_info@,
                data: data@,
                communication_state,
                crc,
            }),
    {
        let crc_bits = BitPacker::from_int(crc as u64, Some(16));
        proof {
            lemma2_to64();
            crate::bitpacker::lemma_word_bits_value(crc as u64, 16);
            vstd::arithmetic::div_mod::lemma_small_mod(crc as nat, pow2(16));
        }
        AisMessage {
            message_type: message_type,
            boat_info: boat_info,
            ramp_up_bits: BitPacker::from_int(255, Some(8)),
            sync_sequence: BitPacker::from_int(5592405, Some(24)),
            start_flag: BitPacker::from_int(126, Some(8)),
            data: data,
            communication_state: communication_state,
            crc: crc_bits,
            end_flag: BitPacker::from_int(126, Some(8)),
            buffer: BitPacker::from_int(8388607, Some(23)),
        }
    }

    /// The message that a frame holds; see [`frame_error`] and [`frame_view`].
    pub fn from_bits(msg: BitPacker) -> (r: AisMessageResult<Self>)
        requires
            msg.wf(),
        ensures
            match frame_error(msg@) {
                Some(e) => r == Err::<Self, AisMessageError>(e),
                None => r matches Ok(m) && m@ == frame_view(msg@),
            },
    {
        let ghost s = msg@;
        match AisMessage::parse(msg) {
            Ok((message_type, data, communication_state, crc, boat_info)) => {
                Ok(AisMessage::assemble(message_type, boat_info, data, communication_state, crc))
            },
            Err(e) => Err(e),
        }
    }

    /// A message of type `message_type` about a boat, its CRC computed on
    /// the payload with the clock at `utc_hour:utc_minute`; an error when
    /// the communication state cannot be built.
    pub fn from_info_at(
        boat_info: BoatInfo,
        message_type: u8,
        communication_state: Option<CommunicationState>,
        utc_hour: u32,
        utc_minute: u32,
    ) -> (r: AisMessageResult<Self>)
        ensures
            from_info_outcome(boat_info@, message_type, communication_state, utc_hour, utc_minute, r),
    {
        let data = AisMessage::build_data_bytes(&boat_info, message_type);
        proof {
            lemma_data_bits_len(boat_info@, message_type);
        }
        let payload = match AisMessage::build_payload(
            message_type,
            data.clone(),
            communication_state,
            utc_hour,
            utc_minute,
        ) {
            Ok(p) => p,
            Err(e) => return Err(e),
        };
        let crc = AisMessage::crc_of(&payload);
        Ok(AisMessage::assemble(message_type, boat_info, data, communication_state, crc))
    }

    /// A message of type `message_type` about a boat, its CRC computed with
    /// the clock's time; see [`AisMessage::from_info_at`], for some hour and
    /// minute of the day. The clock is read only for a communication state;
    /// an error when it cannot be read then.
    pub fn from_info(
        boat_info: BoatInfo,
        message_type: u8,
        communication_state: Option<CommunicationState>,
    ) -> (r: AisMessageResult<Self>)
        ensures
            communication_state is None ==> from_info_outcome(
                boat_info@,
                message_type,
                communication_state,
                0,
                0,
                r,
            ),
            (exists|h: u32, mi: u32|
                h < 24 && mi < 60 && #[trigger] from_info_outcome(
                    boat_info@,
                    message_type,
                    communication_state,
                    h,
                    mi,
                    r,
                )) || (communication_state is Some && r == Err::<Self, AisMessageError>(
                AisMessageError::CommunicationState(CommunicationStateError::ClockUnreadable),
            )),
    {
        let (utc_hour, utc_minute): (u32, u32) = match communication_state {
            None => (0, 0),
            Some(_) => match get_current_dt() {
                Some(dt) => (dt.hour, dt.minute),
                None => return Err(AisMessageError::CommunicationState(CommunicationStateError::ClockUnreadable)),
            },
        };
        let ghost info = boat_info@;
        let r = AisMessage::from_info_at(boat_info, message_type, communication_state, utc_hour, utc_minute);
        assert(from_info_outcome(info, message_type, communication_state, utc_hour, utc_minute, r));
        r
    }

    /// The whole frame of the message with the clock at
    /// `utc_hour:utc_minute`: the data built anew from the boat data, the
    /// payload and its CRC between the fixed head and tail; see
    /// [`frame_bits`].
    pub fn build_at(&self, utc_hour: u32, utc_minute: u32) -> (r: AisMessageResult<BitPacker>)
        ensures
            frame_built_as(
                r,
                match payload_bits(
                    self@.message_type,
                    data_bits(self@.boat_info, self@.message_type),
                    self@.communication_state,
                    utc_hour,
                    utc_minute,
                ) {
                    Ok(p) => Ok(frame_bits(p)),
                    Err(e) => Err(e),
                },
            ),
    {
        proof {
            use_type_invariant(self);
            lemma_data_bits_len(self@.boat_info, self@.message_type);
        }
        let data = AisMessage::build_data_bytes(&self.boat_info, self.message_type);
        let payload = match AisMessage::build_payload(
            self.message_type,
            data,
            self.communication_state,
            utc_hour,
            utc_minute,
        ) {
            Ok(p) => p,
            Err(e) => return Err(e),
        };
        let crc_value = AisMessage::crc_of(&payload);
        let crc = BitPacker::from_int(crc_value as u64, Some(16));
        let ghost pb = payload@;
        assert(self.frame_fixed());
        assert(self.buffer@.len() == 23 && self.end_flag@.len() == 8 && self.start_flag@.len() == 8);
        assert(self.sync_sequence@.len() == 24 && self.ramp_up_bits@.len() == 8);
        let tail = self.buffer.clone().add(self.end_flag.clone());
        let with_crc = tail.add(crc);
        let with_payload = with_crc.add(payload);
        let msg = with_payload.add(self.start_flag.clone()).add(self.sync_sequence.clone()).add(
            self.ramp_up_bits.clone(),
        );
        assert(msg@ =~= frame_bits(pb));
        Ok(msg)
    }

    /// The whole frame of the message with the clock's time; see
    /// [`AisMessage::build_at`], for some hour and minute of the day. The
    /// clock is read only for a communication state; an error when it cannot
    /// be read then.
    pub fn build(&self) -> (r: AisMessageResult<BitPacker>)
        ensures
            self@.communication_state is None ==> frame_built_as(
                r,
                match payload_bits(
                    self@.message_type,
                    data_bits(self@.boat_info, self@.message_type),
                    None,
                    0,
                    0,
                ) {
                    Ok(p) => Ok(frame_bits(p)),
                    Err(e) => Err(e),
                },
            ),
            (exists|h: u32, mi: u32| h < 24 && mi < 60 && #[trigger] frame_built_at(self@, h, mi, r)) || (
            self@.communication_state is Some && r == Err::<BitPacker, AisMessageError>(
                AisMessageError::CommunicationState(CommunicationStateError::ClockUnreadable),
            )),
    {
        let (utc_hour, utc_minute): (u32, u32) = match self.communication_state {
            None => (0, 0),
            Some(_) => match get_current_dt() {
                Some(dt) => (dt.hour, dt.minute),
                None => return Err(AisMessageError::CommunicationState(CommunicationStateError::ClockUnreadable)),
            },
        };
        let r = self.build_at(utc_hour, utc_minute);
        assert(frame_built_at(self@, utc_hour, utc_minute, r));
        r
    }

    /// The type of the message.
    pub fn message_type(&self) -> (r: &u8)
        ensures
            *r == self@.message_type,
    {
        &self.message_type
    }

    /// A copy of the boat data.
    pub fn boat_info(&self) -> (r: BoatInfo)
        ensures
            r@ == self@.boat_info,
    {
        self.boat_info.clone()
    }

    /// The training bits: eight set bits.
    pub fn ramp_up_bits(&self) -> (r: &BitPacker)
        ensures
            r.canonical() && r@ == word_bits(255, 8),
    {
        proof {
            use_type_invariant(self);
        }
        &self.ramp_up_bits
    }

    /// The synchronisation sequence on 24 bits.
    pub fn sync_sequence(&self) -> (r: &BitPacker)
        ensures
            r.canonical() && r@ == word_bits(5592405, 24),
    {
        proof {
            use_type_invariant(self);
        }
        &self.sync_sequence
    }

    /// The start flag.
    pub fn start_flag(&self) -> (r: &BitPacker)
        ensures
            r.canonical() && r@ == word_bits(126, 8),
    {
        proof {
            use_type_invariant(self);
        }
        &self.start_flag
    }

    /// The data bits.
    pub fn data(&self) -> (r: &BitPacker)
        ensures
            r.canonical() && r@ == self@.data,
    {
        proof {
            use_type_invariant(self);
        }
        &self.data
    }

    /// The CRC on 16 bits.
    pub fn crc(&self) -> (r: &BitPacker)
        ensures
            r.canonical() && r.nbits() == 16 && bits_value(r@) == self@.crc,
    {
        proof {
            use_type_invariant(self);
            crate::bitpacker::lemma_bits_value_bound(self.crc@);
            lemma2_to64();
        }
        &self.crc
    }

    /// The end flag.
    pub fn end_flag(&self) -> (r: &BitPacker)
        ensures
            r.canonical() && r@ == word_bits(126, 8),
    {
        proof {
            use_type_invariant(self);
        }
        &self.end_flag
    }

    /// The buffer: 23 set bits.
    pub fn buffer(&self) -> (r: &BitPacker)
        ensures
            r.canonical() && r@ == word_bits(8388607, 23),
    {
        proof {
            use_type_invariant(self);
        }
        &self.buffer
    }

    /// The data bits of a message of type `msg_type` about the boat; see [`data_bits`].
    fn build_data_bytes(boat_info: &BoatInfo, msg_type: u8) -> (r: BitPacker)
        ensures
            r.canonical(),
            r@ == data_bits(boat_info@, msg_type),
    {
        let mut data_vec = BitPacker::from_int(0, Some(0));
        assert(data_vec@ =~= Seq::<bool>::empty());
        if msg_type == 1 || msg_type == 2 || msg_type == 3 {
            let fields = MSG123_FIELDS;
            assert(fields@ == msg123_fields());
            let mut i: usize = 0;
            while i < 13
                invariant
                    i <= 13,
                    fields@ == msg123_fields(),
                    data_vec.canonical(),
                    data_vec.nbits() <= 120 * i,
                    data_vec@ == fields_bits(boat_info@, fields@.take(i as int), msg_type),
                decreases 13 - i,
            {
                let f = boat_info.field_to_bits(fields[i], msg_type);
                data_vec = f.add(data_vec);
                assert(fields@.take(i + 1).drop_last() =~= fields@.take(i as int));
                i = i + 1;
            }
            assert(fields@.take(13) =~= fields@);
        } else if msg_type == 5 {
            let fields = MSG5_FIELDS;
            assert(fields@ == msg5_fields());
            let mut i: usize = 0;
            while i < 19
                invariant
                    i <= 19,
                    fields@ == msg5_fields(),
                    data_vec.canonical(),
                    data_vec.nbits() <= 120 * i,
                    data_vec@ == fields_bits(boat_info@, fields@.take(i as int), msg_type),
                decreases 19 - i,
            {
                let f = boat_info.field_to_bits(fields[i], msg_type);
                data_vec = f.add(data_vec);
                assert(fields@.take(i + 1).drop_last() =~= fields@.take(i as int));
                i = i + 1;
            }
            assert(fields@.take(19) =~= fields@);
        }
        data_vec
    }

    /// The payload of a message; see [`payload_bits`].
    fn build_payload(
        msg_type: u8,
        data: BitPacker,
        communication_state: Option<CommunicationState>,
        utc_hour: u32,
        utc_minute: u32,
    ) -> (r: AisMessageResult<BitPacker>)
        requires
            data.canonical(),
            data.nbits() <= 1000,
        ensures
            frame_built_as(r, payload_bits(msg_type, data@, communication_state, utc_hour, utc_minute)),
            r matches Ok(p) ==> p.nbits() <= data.nbits() + 27,
    {
        match communication_state {
            None => {
                let p = data.add(BitPacker::from_int(3, Some(2))).add(
                    BitPacker::from_int(msg_type as u64, Some(6)),
                );
                assert(p@ =~= word_bits(msg_type as u64, 6) + word_bits(3, 2) + data@);
                Ok(p)
            },
            Some(c) => {
                let cs = match c.build_at(utc_hour, utc_minute) {
                    Ok(b) => b,
                    Err(e) => return Err(AisMessageError::CommunicationState(e)),
                };
                proof {
                    lemma_cs_bits_len(c, utc_hour, utc_minute);
                }
                let p = cs.add(data).add(BitPacker::from_int(3, Some(2))).add(
                    BitPacker::from_int(msg_type as u64, Some(6)),
                );
                assert(p@ =~= word_bits(msg_type as u64, 6) + word_bits(3, 2) + data@ + cs@);
                Ok(p)
            },
        }
    }
}

/// `r` is the frame of the message `m` with the clock at `utc_hour:utc_minute`.
pub open spec fn frame_built_at(m: AisMessageView, utc_hour: u32, utc_minute: u32, r: AisMessageResult<BitPacker>) -> bool {
    frame_built_as(
        r,
        match payload_bits(m.message_type, data_bits(m.boat_info, m.message_type), m.communication_state, utc_hour, utc_minute) {
            Ok(p) => Ok(frame_bits(p)),
            Err(e) => Err(e),
        },
    )
}

/// The data of a message are 416 bits at most.
proof fn lemma_data_bits_len(info: BoatInfoView, msg_type: u8)
    ensures
        data_bits(info, msg_type).len() <= 416,
{
    reveal_with_fuel(fields_bits, 20);
}

/// `r` is the message of type `msg_type` about the boat `info` with its CRC
/// computed at `utc_hour:utc_minute`, or the error of its payload.
pub open spec fn from_info_outcome(
    info: BoatInfoView,
    msg_type: u8,
    cs: Option<CommunicationState>,
    utc_hour: u32,
    utc_minute: u32,
    r: AisMessageResult<AisMessage>,
) -> bool {
    match payload_bits(msg_type, data_bits(info, msg_type), cs, utc_hour, utc_minute) {
        Err(e) => r is Err && r->Err_0 == e,
        Ok(p) => r matches Ok(m) && m@ == (AisMessageView {
            message_type: msg_type,
            boat_info: info,
            data: data_bits(info, msg_type),
            communication_state: cs,
            crc: crc16_ibm_sdlc(packed_bytes(p)),
        }),
    }
}

/// The data bits of a position report, field by field from the bottom.
pub open spec fn msg123_layout(info: BoatInfoView, t: u8) -> Seq<bool> {
    field_bits(info, AisField::Mmsi, t) + field_bits(info, AisField::NavigationalStatus, t)
        + field_bits(info, AisField::RateOfTurn, t) + field_bits(info, AisField::SpeedOverGround, t)
        + field_bits(info, AisField::PositionAccuracy, t) + field_bits(info, AisField::Longitude, t)
        + field_bits(info, AisField::Latitude, t) + field_bits(info, AisField::CourseOverGround, t)
        + field_bits(info, AisField::TrueHeading, t) + field_bits(info, AisField::TimeStamp, t)
        + field_bits(info, AisField::SpecialManeuvreIndicator, t) + field_bits(info, AisField::Spare, t)
        + field_bits(info, AisField::RaimFlag, t)
}

proof fn lemma_msg123_layout(info: BoatInfoView, t: u8)
    requires
        t == 1 || t == 2 || t == 3,
    ensures
        data_bits(info, t) == msg123_layout(info, t),
        data_bits(info, t).len() == 141,
{
    reveal_with_fuel(fields_bits, 14);
    let f = msg123_fields();
    assert(f.len() == 13);
    assert(f.drop_last() =~= f.take(12));
    assert(f.take(12).drop_last() =~= f.take(11));
    assert(f.take(11).drop_last() =~= f.take(10));
    assert(f.take(10).drop_last() =~= f.take(9));
    assert(f.take(9).drop_last() =~= f.take(8));
    assert(f.take(8).drop_last() =~= f.take(7));
    assert(f.take(7).drop_last() =~= f.take(6));
    assert(f.take(6).drop_last() =~= f.take(5));
    assert(f.take(5).drop_last() =~= f.take(4));
    assert(f.take(4).drop_last() =~= f.take(3));
    assert(f.take(3).drop_last() =~= f.take(2));
    assert(f.take(2).drop_last() =~= f.take(1));
    assert(f.take(1).drop_last() =~= f.take(0));
    assert(data_bits(info, t) =~= msg123_layout(info, t));
}

/// A field that holds the `n` low bits of `x` reads back as `x mod 2^n`.
proof fn lemma_field_at(d: Seq<bool>, a: int, x: u64, n: nat)
    requires
        0 <= a,
        1 <= n <= 64,
        a + n <= d.len(),
        d.subrange(a, a + n) == word_bits(x, n),
    ensures
        seq_field(d, a, a + n - 1) == x as nat % pow2(n),
{
    crate::bitpacker::lemma_word_bits_value(x, n);
}

/// What a position report about `info` reads back as: each field it carries
/// modulo its width, the rest at its default, and the latitude and the
/// longitude crossed (the longitude is written where the latitude is read,
/// and the other way round).
pub open spec fn position_report_view(info: BoatInfoView) -> BoatInfoView {
    let n = info.navigation_data;
    BoatInfoView {
        static_data: StaticDataView {
            mmsi: (info.static_data.mmsi % 0x4000_0000) as u32,
            position_accuracy: (info.static_data.position_accuracy % 2) as u8,
            ..default_static_data()
        },
        voyage_data: VoyageDataView {
            raim_flag: (info.voyage_data.raim_flag % 2) as u8,
            ..default_voyage_data()
        },
        navigation_data: NavigationData {
            navigational_status: (n.navigational_status % 16) as u8,
            time_stamp: (n.time_stamp % 64) as u8,
            special_maneuvre_indicator: (n.special_maneuvre_indicator % 4) as u8,
            latitude: (n.longitude % 0x1000_0000) as u32,
            longitude: (n.latitude % 0x800_0000) as u32,
            course_over_ground: (n.course_over_ground % 4096) as u16,
            speed_over_ground: (n.speed_over_ground % 1024) as u16,
            rate_of_turn: n.rate_of_turn,
            true_heading: (n.true_heading % 512) as u16,
        },
    }
}

/// The data bits of a position report about a boat read back as
/// [`position_report_view`].
#[verifier::spinoff_prover]
#[verifier::rlimit(40)]
pub proof fn lemma_position_report_fields(info: BoatInfoView, t: u8)
    requires
        t == 1 || t == 2 || t == 3,
    ensures
        msg123_info(data_bits(info, t)) == position_report_view(info),
{
    lemma_msg123_layout(info, t);
    let d = data_bits(info, t);
    lemma2_to64();
    vstd::arithmetic::power2::lemma2_to64_rest();
    assert(d.subrange(0, 30) =~= word_bits(info.static_data.mmsi as u64, 30));
    lemma_field_at(d, 0, info.static_data.mmsi as u64, 30);
    assert(d.subrange(30, 34) =~= word_bits(info.navigation_data.navigational_status as u64, 4));
    lemma_field_at(d, 30, info.navigation_data.navigational_status as u64, 4);
    assert(d.subrange(34, 42) =~= word_bits((info.navigation_data.rate_of_turn as u8) as u64, 8));
    lemma_field_at(d, 34, (info.navigation_data.rate_of_turn as u8) as u64, 8);
    assert(d.subrange(42, 52) =~= word_bits(info.navigation_data.speed_over_ground as u64, 10));
    lemma_field_at(d, 42, info.navigation_data.speed_over_ground as u64, 10);
    assert(d.subrange(52, 53) =~= word_bits(info.static_data.position_accuracy as u64, 1));
    lemma_field_at(d, 52, info.static_data.position_accuracy as u64, 1);
    assert(d.subrange(53, 81) =~= word_bits(info.navigation_data.longitude as u64, 28));
    lemma_field_at(d, 53, info.navigation_data.longitude as u64, 28);
    assert(d.subrange(81, 108) =~= word_bits(info.navigation_data.latitude as u64, 27));
    lemma_field_at(d, 81, info.navigation_data.latitude as u64, 27);
    assert(d.subrange(108, 120) =~= word_bits(info.navigation_data.course_over_ground as u64, 12));
    lemma_field_at(d, 108, info.navigation_data.course_over_ground as u64, 12);
    assert(d.subrange(120, 129) =~= word_bits(info.navigation_data.true_heading as u64, 9));
    lemma_field_at(d, 120, info.navigation_data.true_heading as u64, 9);
    assert(d.subrange(129, 135) =~= word_bits(info.navigation_data.time_stamp as u64, 6));
    lemma_field_at(d, 129, info.navigation_data.time_stamp as u64, 6);
    assert(d.subrange(135, 137) =~= word_bits(info.navigation_data.special_maneuvre_indicator as u64, 2));
    lemma_field_at(d, 135, info.navigation_data.special_maneuvre_indicator as u64, 2);
    assert(d.subrange(137, 140) =~= word_bits(info.static_data.spare as u64, 3));
    lemma_field_at(d, 137, info.static_data.spare as u64, 3);
    assert(d.subrange(140, 141) =~= word_bits(info.voyage_data.raim_flag as u64, 1));
    lemma_field_at(d, 140, info.voyage_data.raim_flag as u64, 1);
    let r = info.navigation_data.rate_of_turn;
    assert((r as u8) as i8 == r) by (bit_vector);
    assert(msg123_info(d) =~= position_report_view(info));
}

/// The data bits of a static and voyage report, field by field from the bottom.
pub open spec fn msg5_layout(info: BoatInfoView) -> Seq<bool> {
    field_bits(info, AisField::Mmsi, 5)
        + field_bits(info, AisField::AisVersion, 5)
        + field_bits(info, AisField::ImoNumber, 5)
        + field_bits(info, AisField::CallSign, 5)
        + field_bits(info, AisField::Name, 5)
        + field_bits(info, AisField::TypeOfShipAndCargoType, 5)
        + field_bits(info, AisField::A, 5)
        + field_bits(info, AisField::B, 5)
        + field_bits(info, AisField::C, 5)
        + field_bits(info, AisField::D, 5)
        + field_bits(info, AisField::TypeOfEpfDevice, 5)
        + field_bits(info, AisField::EtaMinute, 5)
        + field_bits(info, AisField::EtaHour, 5)
        + field_bits(info, AisField::EtaDay, 5)
        + field_bits(info, AisField::EtaMonth, 5)
        + field_bits(info, AisField::MaximumPresentStaticDraught, 5)
        + field_bits(info, AisField::Destination, 5)
        + field_bits(info, AisField::Dte, 5)
        + field_bits(info, AisField::Spare, 5)
}

proof fn lemma_msg5_layout(info: BoatInfoView)
    ensures
        data_bits(info, 5) == msg5_layout(info),
        data_bits(info, 5).len() == 416,
{
    reveal_with_fuel(fields_bits, 20);
    let f = msg5_fields();
    assert(f.len() == 19);
    assert(f.drop_last() =~= f.take(18));
    assert(f.take(18).drop_last() =~= f.take(17));
    assert(f.take(17).drop_last() =~= f.take(16));
    assert(f.take(16).drop_last() =~= f.take(15));
    assert(f.take(15).drop_last() =~= f.take(14));
    assert(f.take(14).drop_last() =~= f.take(13));
    assert(f.take(13).drop_last() =~= f.take(12));
    assert(f.take(12).drop_last() =~= f.take(11));
    assert(f.take(11).drop_last() =~= f.take(10));
    assert(f.take(10).drop_last() =~= f.take(9));
    assert(f.take(9).drop_last() =~= f.take(8));
    assert(f.take(8).drop_last() =~= f.take(7));
    assert(f.take(7).drop_last() =~= f.take(6));
    assert(f.take(6).drop_last() =~= f.take(5));
    assert(f.take(5).drop_last() =~= f.take(4));
    assert(f.take(4).drop_last() =~= f.take(3));
    assert(f.take(3).drop_last() =~= f.take(2));
    assert(f.take(2).drop_last() =~= f.take(1));
    assert(f.take(1).drop_last() =~= f.take(0));
    assert(data_bits(info, 5) =~= msg5_layout(info));
}

/// The first `n` characters of a text (all of them when it is shorter)
/// in the AIS alphabet: what a text packed on `6 * n` bits reads back as.
pub open spec fn sixbit_read(s: Seq<char>, n: nat) -> Seq<char> {
    sixbit_normalize(s.take(if n < s.len() { n as int } else { s.len() as int }))
}

/// What a static and voyage report about `info` reads back as: each field
/// it carries modulo its width, each text cut to its length and turned into
/// the AIS alphabet, the rest at its default.
pub open spec fn static_report_view(info: BoatInfoView) -> BoatInfoView {
    let st = info.static_data;
    let v = info.voyage_data;
    BoatInfoView {
        static_data: StaticDataView {
            mmsi: (st.mmsi % 0x4000_0000) as u32,
            imo_number: (st.imo_number % 0x4000_0000) as u32,
            call_sign: sixbit_read(st.call_sign, 7),
            name: sixbit_read(st.name, 20),
            type_of_ship_and_cargo_type: st.type_of_ship_and_cargo_type,
            ais_version: (st.ais_version % 4) as u8,
            type_of_epf_device: (st.type_of_epf_device % 16) as u8,
            a: (st.a % 512) as u16,
            b: (st.b % 512) as u16,
            c: (st.c % 64) as u8,
            d: (st.d % 64) as u8,
            ..default_static_data()
        },
        voyage_data: VoyageDataView {
            destination: sixbit_read(v.destination, 20),
            eta_month: (v.eta_month % 16) as u8,
            eta_day: (v.eta_day % 32) as u8,
            eta_hour: (v.eta_hour % 32) as u8,
            eta_minute: (v.eta_minute % 64) as u8,
            maximum_present_static_draught: v.maximum_present_static_draught,
            dte: (v.dte % 2) as u8,
            ..default_voyage_data()
        },
        navigation_data: default_navigation_data(),
    }
}

/// The data bits of a static and voyage report about a boat read back as
/// [`static_report_view`], when no text holds the one character of code 64
/// (`?`), which spills into the next.
#[verifier::spinoff_prover]
#[verifier::rlimit(60)]
pub proof fn lemma_static_report_fields(info: BoatInfoView)
    requires
        sixbit_fits(info.static_data.call_sign),
        sixbit_fits(info.static_data.name),
        sixbit_fits(info.voyage_data.destination),
    ensures
        msg5_info(data_bits(info, 5)) == static_report_view(info),
{
    lemma_msg5_layout(info);
    let d = data_bits(info, 5);
    lemma2_to64();
    vstd::arithmetic::power2::lemma2_to64_rest();
    assert(d.subrange(0, 30) =~= word_bits(info.static_data.mmsi as u64, 30));
    lemma_field_at(d, 0, info.static_data.mmsi as u64, 30);
    assert(d.subrange(30, 32) =~= word_bits(info.static_data.ais_version as u64, 2));
    lemma_field_at(d, 30, info.static_data.ais_version as u64, 2);
    assert(d.subrange(32, 62) =~= word_bits(info.static_data.imo_number as u64, 30));
    lemma_field_at(d, 32, info.static_data.imo_number as u64, 30);
    assert(d.subrange(224, 232) =~= word_bits(info.static_data.type_of_ship_and_cargo_type as u64, 8));
    lemma_field_at(d, 224, info.static_data.type_of_ship_and_cargo_type as u64, 8);
    assert(d.subrange(232, 241) =~= word_bits(info.static_data.a as u64, 9));
    lemma_field_at(d, 232, info.static_data.a as u64, 9);
    assert(d.subrange(241, 250) =~= word_bits(info.static_data.b as u64, 9));
    lemma_field_at(d, 241, info.static_data.b as u64, 9);
    assert(d.subrange(250, 256) =~= word_bits(info.static_data.c as u64, 6));
    lemma_field_at(d, 250, info.static_data.c as u64, 6);
    assert(d.subrange(256, 262) =~= word_bits(info.static_data.d as u64, 6));
    lemma_field_at(d, 256, info.static_data.d as u64, 6);
    assert(d.subrange(262, 266) =~= word_bits(info.static_data.type_of_epf_device as u64, 4));
    lemma_field_at(d, 262, info.static_data.type_of_epf_device as u64, 4);
    assert(d.subrange(266, 272) =~= word_bits(info.voyage_data.eta_minute as u64, 6));
    lemma_field_at(d, 266, info.voyage_data.eta_minute as u64, 6);
    assert(d.subrange(272, 277) =~= word_bits(info.voyage_data.eta_hour as u64, 5));
    lemma_field_at(d, 272, info.voyage_data.eta_hour as u64, 5);
    assert(d.subrange(277, 282) =~= word_bits(info.voyage_data.eta_day as u64, 5));
    lemma_field_at(d, 277, info.voyage_data.eta_day as u64, 5);
    assert(d.subrange(282, 286) =~= word_bits(info.voyage_data.eta_month as u64, 4));
    lemma_field_at(d, 282, info.voyage_data.eta_month as u64, 4);
    assert(d.subrange(286, 294) =~= word_bits(info.voyage_data.maximum_present_static_draught as u64, 8));
    lemma_field_at(d, 286, info.voyage_data.maximum_present_static_draught as u64, 8);
    assert(d.subrange(414, 415) =~= word_bits(info.voyage_data.dte as u64, 1));
    lemma_field_at(d, 414, info.voyage_data.dte as u64, 1);
    assert(d.subrange(415, 416) =~= word_bits(info.static_data.spare as u64, 1));
    lemma_field_at(d, 415, info.static_data.spare as u64, 1);
    assert(d.subrange(62, 104) =~= packed_str(info.static_data.call_sign, 42));
    lemma_sixbit_prefix(info.static_data.call_sign, 42, 7);
    assert(d.subrange(104, 224) =~= packed_str(info.static_data.name, 120));
    lemma_sixbit_prefix(info.static_data.name, 120, 20);
    assert(d.subrange(294, 414) =~= packed_str(info.voyage_data.destination, 120));
    lemma_sixbit_prefix(info.voyage_data.destination, 120, 20);
    assert(msg5_info(d) =~= static_report_view(info));
}

/// A frame that is built can be read back: its type, its data bits and
/// its CRC come back, its communication state as the state's wire form
/// ([`cs_wire_form`]); a position report (types 1 to 3) carries a state
/// that its bits can carry ([`cs_carried`]), a static report (type 5) none.
#[verifier::spinoff_prover]
#[verifier::rlimit(40)]
pub proof fn lemma_frame_roundtrip(
    info: BoatInfoView,
    t: u8,
    cs: Option<CommunicationState>,
    utc_hour: u32,
    utc_minute: u32,
)
    requires
        (t == 1 || t == 2 || t == 3) && (cs matches Some(c) && cs_carried(c, t)) || t == 5 && cs is None,
    ensures
        payload_bits(t, data_bits(info, t), cs, utc_hour, utc_minute) matches Ok(p) && frame_error(
            frame_bits(p),
        ) is None && frame_view(frame_bits(p)) == (AisMessageView {
            message_type: t,
            boat_info: if t == 5 {
                msg5_info(data_bits(info, t))
            } else {
                msg123_info(data_bits(info, t))
            },
            data: data_bits(info, t),
            communication_state: match cs {
                Some(c) => Some(cs_wire_form(c)),
                None => None,
            },
            crc: crc16_ibm_sdlc(packed_bytes(p)),
        }),
{
    lemma2_to64();
    let d = data_bits(info, t);
    let head = word_bits(t as u64, 6) + word_bits(3, 2) + d;
    if t == 5 {
        lemma_msg5_layout(info);
        let p = head;
        let crc = crc16_ibm_sdlc(packed_bytes(p));
        let f = frame_bits(p);
        assert(f.len() == 511);
        assert(f.subrange(40, 46) =~= word_bits(t as u64, 6));
        lemma_word_field(f, 40, t as u64, 6);
        assert(f.subrange(40, 464) =~= p);
        assert(f.subrange(464, 480) =~= word_bits(crc as u64, 16));
        lemma_word_field(f, 464, crc as u64, 16);
        assert(f.subrange(48, 464) =~= d);
        assert(crc_ok(f, 464));
    } else {
        let c = cs.unwrap();
        lemma_msg123_layout(info, t);
        lemma_cs_roundtrip(c, t, utc_hour, utc_minute);
        let b = cs_bits(c, utc_hour, utc_minute)->Ok_0;
        let p = head + b;
        let crc = crc16_ibm_sdlc(packed_bytes(p));
        let f = frame_bits(p);
        assert(f.len() == 255);
        assert(f.subrange(40, 46) =~= word_bits(t as u64, 6));
        lemma_word_field(f, 40, t as u64, 6);
        assert(f.subrange(40, 208) =~= p);
        assert(f.subrange(208, 224) =~= word_bits(crc as u64, 16));
        lemma_word_field(f, 208, crc as u64, 16);
        assert(f.subrange(48, 189) =~= d);
        assert(f.subrange(189, 208) =~= b);
        assert(crc_ok(f, 208));
    }
}

/// A static and voyage report (type 5) that is built is read back as a
/// frame without error, of type 5, whose boat data are the boat's as
/// [`static_report_view`] gives them (the numbers cut to their widths, the
/// texts to their lengths and turned into the AIS alphabet), when no text
/// holds `?`.
pub proof fn lemma_static_report_roundtrip(info: BoatInfoView, utc_hour: u32, utc_minute: u32)
    requires
        sixbit_fits(info.static_data.call_sign),
        sixbit_fits(info.static_data.name),
        sixbit_fits(info.voyage_data.destination),
    ensures
        payload_bits(5, data_bits(info, 5), None, utc_hour, utc_minute) matches Ok(p) && {
            &&& frame_error(frame_bits(p)) is None
            &&& frame_view(frame_bits(p)).message_type == 5
            &&& frame_view(frame_bits(p)).communication_state is None
            &&& frame_view(frame_bits(p)).boat_info == static_report_view(info)
        },
{
    lemma_frame_roundtrip(info, 5, None, utc_hour, utc_minute);
    lemma_static_report_fields(info);
}

/// A position report (types 1 to 3) built with a communication state that
/// its bits can carry is read back as a frame without error, of its type,
/// with the state's wire form, whose boat data are the boat's as
/// [`position_report_view`] gives them.
pub proof fn lemma_position_report_roundtrip(
    info: BoatInfoView,
    t: u8,
    cs: CommunicationState,
    utc_hour: u32,
    utc_minute: u32,
)
    requires
        t == 1 || t == 2 || t == 3,
        cs_carried(cs, t),
    ensures
        payload_bits(t, data_bits(info, t), Some(cs), utc_hour, utc_minute) matches Ok(p) && {
            &&& frame_error(frame_bits(p)) is None
            &&& frame_view(frame_bits(p)).message_type == t
            &&& frame_view(frame_bits(p)).communication_state == Some(cs_wire_form(cs))
            &&& frame_view(frame_bits(p)).boat_info == position_report_view(info)
        },
{
    lemma_frame_roundtrip(info, t, Some(cs), utc_hour, utc_minute);
    lemma_position_report_fields(info, t);
}

/// Why a frame `s` cannot be read, if it cannot: too few bits for its
/// type, a CRC that is not its payload's, or a type that is not read.
pub open spec fn frame_error(s: Seq<bool>) -> Option<AisMessageError> {
    let t = seq_field(s, 40, 45) as u8;
    let oob = AisMessageError::BitPacker(BitPackerError::IndexOutOfBounds);
    if s.len() < 46 {
        Some(oob)
    } else if t == 1 || t == 2 || t == 3 {
        if s.len() < 224 {
            Some(oob)
        } else if !crc_ok(s, 208) {
            Some(AisMessageError::CrcMismatch)
        } else {
            None
        }
    } else if t == 5 {
        if s.len() < 480 {
            Some(oob)
        } else if !crc_ok(s, 464) {
            Some(AisMessageError::CrcMismatch)
        } else {
            None
        }
    } else {
        Some(AisMessageError::MessageTypeNotImplemented)
    }
}

/// What a frame `s` that can be read says: its type from bits 40 to 45;
/// for types 1 to 3 the data from bit 48 to 188, the communication state
/// from 189 to 207 and the CRC from 208 to 223; for type 5 the data from
/// 48 to 463 and the CRC from 464 to 479.
pub open spec fn frame_view(s: Seq<bool>) -> AisMessageView {
    let t = seq_field(s, 40, 45) as u8;
    if t == 5 {
        AisMessageView {
            message_type: t,
            boat_info: msg5_info(s.subrange(48, 464)),
            data: s.subrange(48, 464),
            communication_state: None,
            crc: seq_field(s, 464, 479) as u16,
        }
    } else {
        AisMessageView {
            message_type: t,
            boat_info: msg123_info(s.subrange(48, 189)),
            data: s.subrange(48, 189),
            communication_state: Some(parsed_cs(s.subrange(189, 208), t)->Ok_0),
            crc: seq_field(s, 208, 223) as u16,
        }
    }
}

/// What reading a frame `s` gives: see [`frame_error`] and [`frame_view`].
pub open spec fn parse_outcome(
    s: Seq<bool>,
    r: AisMessageResult<(u8, BitPacker, Option<CommunicationState>, u16, BoatInfo)>,
) -> bool {
    match frame_error(s) {
        Some(e) => r is Err && r->Err_0 == e,
        None => r matches Ok((mt, data, cs, crc, info)) && {
            let v = frame_view(s);
            &&& mt == v.message_type
            &&& data.canonical()
            &&& data@ == v.data
            &&& cs == v.communication_state
            &&& crc == v.crc
            &&& info@ == v.boat_info
        },
    }
}

/// The message types whose communication state is SOTDMA.
pub open spec fn sotdma_msg(m: u8) -> bool {
    m == 1 || m == 2 || m == 4 || m == 9 || m == 11 || m == 18 || m == 26
}

/// The access scheme of a message type's communication state: SOTDMA for
/// the types of [`SOTDMA_CS_MSGS`], ITDMA for any other.
pub open spec fn cs_type_of(m: u8) -> CSType {
    if sotdma_msg(m) {
        CSType::SOTDMA
    } else {
        CSType::ITDMA
    }
}

/// The communication state that ends an AIS position report: how the
/// sender uses its slots.
#[derive(Debug, Clone, Copy, PartialEq, Eq, Structural)]
pub struct CommunicationState {
    pub communication_state_type: CSType,
    pub sync_state: u8,
    pub slot_timeout: Option<u8>,
    pub slot_offset: Option<u16>,
    pub utc_hour: Option<u8>,
    pub utc_minute: Option<u8>,
    pub slot_number: Option<u16>,
    pub received_stations: Option<u16>,
    pub slot_increment: Option<u16>,
    pub number_of_slots: Option<u8>,
    pub keep_flag: Option<bool>,
}

/// `o`'s value, or the error `e` when there is none.
pub open spec fn present<T>(o: Option<T>, e: CommunicationStateError) -> Result<T, CommunicationStateError> {
    match o {
        Some(v) => Ok(v),
        None => Err(e),
    }
}

/// The communication state read from bits `s` for a message of type `m`:
/// the synchronisation state from bits 0 to 1; for types 1 and 2 the slot
/// timeout from bits 2 to 4 and, from bit 5 on, the value that the timeout
/// selects (the UTC hour from the next 8 bits and the minute from the rest
/// for timeout 1); for type 3 the slot increment from bits 2 to 14, the
/// number of slots from 15 to 17 and the keep flag at 18. Too few bits give
/// an index error, any other type an unknown type.
pub open spec fn parsed_cs(s: Seq<bool>, m: u8) -> CommunicationStateResult<CommunicationState> {
    let base = CommunicationState {
        communication_state_type: cs_type_of(m),
        sync_state: seq_field(s, 0, 1) as u8,
        slot_timeout: None,
        slot_offset: None,
        utc_hour: None,
        utc_minute: None,
        slot_number: None,
        received_stations: None,
        slot_increment: None,
        number_of_slots: None,
        keep_flag: None,
    };
    let oob = CommunicationStateError::BitPacker(BitPackerError::IndexOutOfBounds);
    if s.len() < 2 {
        Err(oob)
    } else if m == 1 || m == 2 {
        if s.len() < 6 {
            Err(oob)
        } else {
            let t = seq_field(s, 2, 4) as u8;
            let sub = s.subrange(5, s.len() as int);
            let v = seq_field(sub, 0, sub.len() - 1) as u16;
            if t == 0 {
                Ok(CommunicationState { slot_timeout: Some(t), slot_offset: Some(v), ..base })
            } else if t == 1 {
                if sub.len() < 9 {
                    Err(oob)
                } else {
                    Ok(
                        CommunicationState {
                            slot_timeout: Some(t),
                            utc_hour: Some(seq_field(sub, 0, 7) as u8),
                            utc_minute: Some(seq_field(sub, 8, sub.len() - 1) as u8),
                            ..base
                        },
                    )
                }
            } else if t == 2 || t == 4 || t == 6 {
                Ok(CommunicationState { slot_timeout: Some(t), slot_number: Some(v), ..base })
            } else if t == 3 || t == 5 || t == 7 {
                Ok(CommunicationState { slot_timeout: Some(t), received_stations: Some(v), ..base })
            } else {
                Err(CommunicationStateError::UnkownSotdmaTimeout)
            }
        }
    } else if m == 3 {
        if s.len() < 19 {
            Err(oob)
        } else {
            Ok(
                CommunicationState {
                    slot_increment: Some(seq_field(s, 2, 14) as u16),
                    number_of_slots: Some(seq_field(s, 15, 17) as u8),
                    keep_flag: Some(seq_field(s, 18, 18) == 1),
                    ..base
                },
            )
        }
    } else {
        Err(CommunicationStateError::UnknownMessageType)
    }
}

/// The bits that a communication state's timeout selects, most significant
/// last: the received stations for timeouts 3, 5 and 7, the slot number for
/// 2, 4 and 6, three clear bits, the hour and the minute (on 5 and 6 bits)
/// for 1, the slot offset otherwise; each on 14 bits.
pub open spec fn cs_sub_bits(cs: CommunicationState, utc_hour: u32, utc_minute: u32) -> CommunicationStateResult<Seq<bool>> {
    match cs.slot_timeout {
        None => Err(CommunicationStateError::NoSotdmaTimeout),
        Some(t) => if t == 3 || t == 5 || t == 7 {
            match present(cs.received_stations, CommunicationStateError::NoSotdmaReceivedStations) {
                Ok(v) => Ok(word_bits(v as u64, 14)),
                Err(e) => Err(e),
            }
        } else if t == 2 || t == 4 || t == 6 {
            match present(cs.slot_number, CommunicationStateError::NoItdmaSlotNumber) {
                Ok(v) => Ok(word_bits(v as u64, 14)),
                Err(e) => Err(e),
            }
        } else if t == 1 {
            Ok(word_bits(utc_minute as u64, 6) + word_bits(utc_hour as u64, 5) + word_bits(0, 3))
        } else {
            match present(cs.slot_offset, CommunicationStateError::NoSotdmaSlotOffset) {
                Ok(v) => Ok(word_bits(v as u64, 14)),
                Err(e) => Err(e),
            }
        },
    }
}

/// The bits of a communication state, the clock reading `utc_hour` and
/// `utc_minute`: for SOTDMA the synchronisation state (2 bits), the slot
/// timeout (3) and [`cs_sub_bits`]; for ITDMA the synchronisation state, the
/// slot increment (13), the number of slots (3) and the keep flag (1). A
/// missing field gives its error, in the order the fields are read.
pub open spec fn cs_bits(cs: CommunicationState, utc_hour: u32, utc_minute: u32) -> CommunicationStateResult<Seq<bool>> {
    match cs.communication_state_type {
        CSType::SOTDMA => match cs_sub_bits(cs, utc_hour, utc_minute) {
            Err(e) => Err(e),
            Ok(sub) => match cs.slot_timeout {
                None => Err(CommunicationStateError::NoSotdmaTimeout),
                Some(t) => Ok(word_bits(cs.sync_state as u64, 2) + word_bits(t as u64, 3) + sub),
            },
        },
        CSType::ITDMA => match cs.keep_flag {
            None => Err(CommunicationStateError::NoItdmaKeepFlag),
            Some(k) => match cs.number_of_slots {
                None => Err(CommunicationStateError::NoItdmaNumberOfSlots),
                Some(n) => match cs.slot_increment {
                    None => Err(CommunicationStateError::NoItdmaSlotIncrement),
                    Some(i) => Ok(
                        word_bits(cs.sync_state as u64, 2) + word_bits(i as u64, 13) + word_bits(
                            n as u64,
                            3,
                        ) + word_bits(if k { 1 } else { 0 }, 1),
                    ),
                },
            },
        },
    }
}

/// A result that holds the bits `b` as a canonical packer, or the same error.
pub open spec fn built_as(r: CommunicationStateResult<BitPacker>, b: CommunicationStateResult<Seq<bool>>) -> bool {
    match b {
        Ok(bits) => r matches Ok(p) && p.canonical() && p@ == bits,
        Err(e) => r == Err::<BitPacker, CommunicationStateError>(e),
    }
}

/// `r` is what building `cs` gives with the clock at `utc_hour:utc_minute`.
pub open spec fn cs_built(cs: CommunicationState, utc_hour: u32, utc_minute: u32, r: CommunicationStateResult<BitPacker>) -> bool {
    built_as(r, cs_bits(cs, utc_hour, utc_minute))
}

/// `r` is what building `cs` gives at some time of the day.
pub open spec fn cs_built_now(cs: CommunicationState, r: CommunicationStateResult<BitPacker>) -> bool {
    exists|h: u32, m: u32| h < 24 && m < 60 && #[trigger] cs_built(cs, h, m, r)
}

/// What of a communication state travels in its bits: the scheme, the
/// synchronisation state and, for SOTDMA, the timeout and the value it
/// selects; for ITDMA the increment, the number of slots and the keep flag.
pub open spec fn cs_wire_form(cs: CommunicationState) -> CommunicationState {
    let bare = CommunicationState {
        communication_state_type: cs.communication_state_type,
        sync_state: cs.sync_state,
        slot_timeout: None,
        slot_offset: None,
        utc_hour: None,
        utc_minute: None,
        slot_number: None,
        received_stations: None,
        slot_increment: None,
        number_of_slots: None,
        keep_flag: None,
    };
    match cs.communication_state_type {
        CSType::SOTDMA => match cs.slot_timeout {
            None => bare,
            Some(t) => if t == 0 {
                CommunicationState { slot_timeout: Some(t), slot_offset: cs.slot_offset, ..bare }
            } else if t == 1 {
                CommunicationState {
                    slot_timeout: Some(t),
                    utc_hour: cs.utc_hour,
                    utc_minute: cs.utc_minute,
                    ..bare
                }
            } else if t == 2 || t == 4 || t == 6 {
                CommunicationState { slot_timeout: Some(t), slot_number: cs.slot_number, ..bare }
            } else {
                CommunicationState {
                    slot_timeout: Some(t),
                    received_stations: cs.received_stations,
                    ..bare
                }
            },
        },
        CSType::ITDMA => CommunicationState {
            slot_increment: cs.slot_increment,
            number_of_slots: cs.number_of_slots,
            keep_flag: cs.keep_flag,
            ..bare
        },
    }
}

/// The value that a SOTDMA timeout selects: the slot offset, the slot
/// number or the received stations.
pub open spec fn sotdma_value(cs: CommunicationState, t: u8) -> Option<u16> {
    if t == 0 {
        cs.slot_offset
    } else if t == 2 || t == 4 || t == 6 {
        cs.slot_number
    } else {
        cs.received_stations
    }
}

/// A communication state that its bits can carry for a message of type
/// `m` (1 or 2 for SOTDMA, 3 for ITDMA): every field it needs is present
/// and fits its width; the SOTDMA timeout is not 1, whose time stamp is
/// written in another order than it is read.
pub open spec fn cs_carried(cs: CommunicationState, m: u8) -> bool {
    &&& m == 1 || m == 2 || m == 3
    &&& cs.communication_state_type == cs_type_of(m)
    &&& cs.sync_state < 4
    &&& m != 3 ==> (cs.slot_timeout matches Some(t) && (t < 8 && t != 1 && (sotdma_value(cs, t) matches Some(v) && v < 16384)))
    &&& m == 3 ==> (cs.keep_flag is Some && (cs.number_of_slots matches Some(n) && (n < 8 && (cs.slot_increment matches Some(i) && i < 8192))))
}

/// Building a communication state and reading the bits back for the same
/// message type gives the state's wire form.
pub proof fn lemma_cs_roundtrip(cs: CommunicationState, m: u8, utc_hour: u32, utc_minute: u32)
    requires
        cs_carried(cs, m),
    ensures
        cs_bits(cs, utc_hour, utc_minute) matches Ok(b) && b.len() == 19 && parsed_cs(b, m) == Ok::<
            CommunicationState,
            CommunicationStateError,
        >(cs_wire_form(cs)),
{
    lemma2_to64();
    if m == 3 {
        let k = cs.keep_flag.unwrap();
        let n = cs.number_of_slots.unwrap();
        let i = cs.slot_increment.unwrap();
        let kb: u64 = if k { 1 } else { 0 };
        let b = word_bits(cs.sync_state as u64, 2) + word_bits(i as u64, 13) + word_bits(n as u64, 3)
            + word_bits(kb, 1);
        assert(cs_bits(cs, utc_hour, utc_minute) == Ok::<Seq<bool>, CommunicationStateError>(b));
        assert(b.subrange(0, 2) =~= word_bits(cs.sync_state as u64, 2));
        lemma_word_field(b, 0, cs.sync_state as u64, 2);
        assert(b.subrange(2, 15) =~= word_bits(i as u64, 13));
        lemma_word_field(b, 2, i as u64, 13);
        assert(b.subrange(15, 18) =~= word_bits(n as u64, 3));
        lemma_word_field(b, 15, n as u64, 3);
        assert(b.subrange(18, 19) =~= word_bits(kb, 1));
        lemma_word_field(b, 18, kb, 1);
        assert(parsed_cs(b, m) == Ok::<CommunicationState, CommunicationStateError>(cs_wire_form(cs)));
    } else {
        let t = cs.slot_timeout.unwrap();
        let v = sotdma_value(cs, t).unwrap();
        let sub = word_bits(v as u64, 14);
        let b = word_bits(cs.sync_state as u64, 2) + word_bits(t as u64, 3) + sub;
        assert(cs_sub_bits(cs, utc_hour, utc_minute) == Ok::<Seq<bool>, CommunicationStateError>(sub));
        assert(cs_bits(cs, utc_hour, utc_minute) == Ok::<Seq<bool>, CommunicationStateError>(b));
        assert(b.subrange(0, 2) =~= word_bits(cs.sync_state as u64, 2));
        lemma_word_field(b, 0, cs.sync_state as u64, 2);
        assert(b.subrange(2, 5) =~= word_bits(t as u64, 3));
        lemma_word_field(b, 2, t as u64, 3);
        assert(b.subrange(5, 19) =~= sub);
        assert(sub.subrange(0, 14) =~= sub);
        lemma_word_field(sub, 0, v as u64, 14);
        assert(parsed_cs(b, m) == Ok::<CommunicationState, CommunicationStateError>(cs_wire_form(cs)));
    }
}

/// Nineteen bits always read as a communication state of a position report.
proof fn lemma_cs_parse_total(s: Seq<bool>, m: u8)
    requires
        s.len() == 19,
        m == 1 || m == 2 || m == 3,
    ensures
        parsed_cs(s, m) is Ok,
{
    lemma2_to64();
    if m != 3 {
        let t = seq_field(s, 2, 4);
        vstd::arithmetic::power2::lemma2_to64();
        crate::bitpacker::lemma_bits_value_bound(s.subrange(2, 5));
        assert(t < 8);
    }
}

/// The bits of a communication state are 19 at most.
proof fn lemma_cs_bits_len(cs: CommunicationState, utc_hour: u32, utc_minute: u32)
    ensures
        cs_bits(cs, utc_hour, utc_minute) matches Ok(b) ==> b.len() == 19,
{
}

fn read_msg_field(bp: &BitPacker, start: usize, end_idx: Option<usize>, w: usize) -> (r:
    AisMessageResult<u64>)
    requires
        bp.wf(),
        w <= 64,
        bp.ordered(start as int, bp.end_of(end_idx)),
        bp.in_bounds(start as int, bp.end_of(end_idx)) ==> bp.fits(
            start as int,
            bp.end_of(end_idx),
            w as nat,
        ),
    ensures
        !bp.in_bounds(start as int, bp.end_of(end_idx)) ==> r == Err::<u64, AisMessageError>(
            AisMessageError::BitPacker(BitPackerError::IndexOutOfBounds),
        ),
        bp.in_bounds(start as int, bp.end_of(end_idx)) ==> r == Ok::<u64, AisMessageError>(
            bp.field_value(start as int, bp.end_of(end_idx)) as u64,
        ) && bp.field_value(start as int, bp.end_of(end_idx)) < pow2(w as nat),
{
    proof {
        if bp.in_bounds(start as int, bp.end_of(end_idx)) {
            bp.lemma_field_value_bound(start as int, bp.end_of(end_idx), w as nat);
        }
    }
    match bp.extract_int(Some(start), end_idx) {
        Ok(v) => Ok(v),
        Err(e) => Err(AisMessageError::BitPacker(e)),
    }
}

fn read_msg_str(bp: &BitPacker, start: usize, end: usize) -> (r: AisMessageResult<String>)
    requires
        bp.wf(),
        start <= end < bp.nbits(),
    ensures
        r matches Ok(t) && t@ == sixbit_text(bp@.subrange(start as int, end + 1), (end - start + 1) as nat / 6),
{
    match bp.extract_str(Some(start), Some(end)) {
        Ok(t) => Ok(t),
        Err(e) => Err(AisMessageError::BitPacker(e)),
    }
}

fn read_field(bp: &BitPacker, start: usize, end_idx: Option<usize>, w: usize) -> (r:
    CommunicationStateResult<u64>)
    requires
        bp.wf(),
        w <= 64,
        bp.ordered(start as int, bp.end_of(end_idx)),
        bp.in_bounds(start as int, bp.end_of(end_idx)) ==> bp.fits(
            start as int,
            bp.end_of(end_idx),
            w as nat,
        ),
    ensures
        !bp.in_bounds(start as int, bp.end_of(end_idx)) ==> r == Err::<u64, CommunicationStateError>(
            CommunicationStateError::BitPacker(BitPackerError::IndexOutOfBounds),
        ),
        bp.in_bounds(start as int, bp.end_of(end_idx)) ==> r == Ok::<u64, CommunicationStateError>(
            bp.field_value(start as int, bp.end_of(end_idx)) as u64,
        ) && bp.field_value(start as int, bp.end_of(end_idx)) < pow2(w as nat),
{
    proof {
        if bp.in_bounds(start as int, bp.end_of(end_idx)) {
            bp.lemma_field_value_bound(start as int, bp.end_of(end_idx), w as nat);
        }
    }
    match bp.extract_int(Some(start), end_idx) {
        Ok(v) => Ok(v),
        Err(e) => Err(CommunicationStateError::BitPacker(e)),
    }
}

impl CommunicationState {
    /// A communication state for a message of type `msg_type`, the access
    /// scheme following from the type, with the fields given and the UTC
    /// hour and minute `utc_hour` and `utc_minute`.
    pub fn init_at(
        msg_type: u8,
        sync_state: u8,
        slot_timeout: Option<u8>,
        slot_offset: Option<u16>,
        slot_nbr: Option<u16>,
        received_stations: Option<u16>,
        slot_increment: Option<u16>,
        nbr_of_slots: Option<u8>,
        keep_flag: Option<bool>,
        utc_hour: u8,
        utc_minute: u8,
    ) -> (r: Self)
        ensures
            r.communication_state_type == cs_type_of(msg_type),
            r.sync_state == sync_state,
            r.slot_timeout == slot_timeout,
            r.slot_offset == slot_offset,
            r.slot_number == slot_nbr,
            r.received_stations == received_stations,
            r.slot_increment == slot_increment,
            r.number_of_slots == nbr_of_slots,
            r.keep_flag == keep_flag,
            r.utc_hour == Some(utc_hour),
            r.utc_minute == Some(utc_minute),
    {
        CommunicationState {
            communication_state_type: cs_type_for(msg_type),
            sync_state: sync_state,
            slot_timeout: slot_timeout,
            slot_increment: slot_increment,
            slot_number: slot_nbr,
            slot_offset: slot_offset,
            number_of_slots: nbr_of_slots,
            received_stations: received_stations,
            keep_flag: keep_flag,
            utc_hour: Some(utc_hour),
            utc_minute: Some(utc_minute),
        }
    }

    /// A communication state for a message of type `msg_type` as
    /// [`CommunicationState::init_at`] makes it, with the UTC hour and minute
    /// that the clock reads; without either when the clock cannot be read.
    pub fn init(
        msg_type: u8,
        sync_state: u8,
        slot_timeout: Option<u8>,
        slot_offset: Option<u16>,
        slot_nbr: Option<u16>,
        received_stations: Option<u16>,
        slot_increment: Option<u16>,
        nbr_of_slots: Option<u8>,
        keep_flag: Option<bool>,
    ) -> (r: Self)
        ensures
            r.communication_state_type == cs_type_of(msg_type),
            r.sync_state == sync_state,
            r.slot_timeout == slot_timeout,
            r.slot_offset == slot_offset,
            r.slot_number == slot_nbr,
            r.received_stations == received_stations,
            r.slot_increment == slot_increment,
            r.number_of_slots == nbr_of_slots,
            r.keep_flag == keep_flag,
            r.utc_hour matches Some(h) ==> h < 24,
            r.utc_minute matches Some(m) ==> m < 60,
            r.utc_hour is Some <==> r.utc_minute is Some,
    {
        let (hour, minute): (Option<u8>, Option<u8>) = match get_current_dt() {
            Some(dt) => (Some(dt.hour as u8), Some(dt.minute as u8)),
            None => (None, None),
        };
        let cs = Self::init_at(
            msg_type,
            sync_state,
            slot_timeout,
            slot_offset,
            slot_nbr,
            received_stations,
            slot_increment,
            nbr_of_slots,
            keep_flag,
            0,
            0,
        );
        CommunicationState { utc_hour: hour, utc_minute: minute, ..cs }
    }

    pub fn communication_state_type(&self) -> (r: CSType)
        ensures
            r == self.communication_state_type,
    {
        self.communication_state_type
    }

    pub fn sync_state(&self) -> (r: u8)
        ensures
            r == self.sync_state,
    {
        self.sync_state
    }

    /// The slot timeout, an error when there is none.
    pub fn slot_timeout(&self) -> (r: CommunicationStateResult<&u8>)
        ensures
            match self.slot_timeout {
                Some(v) => r matches Ok(x) && *x == v,
                None => r == Err::<&u8, CommunicationStateError>(CommunicationStateError::NoSotdmaTimeout),
            },
    {
        match &self.slot_timeout {
            Some(v) => Ok(v),
            None => Err(CommunicationStateError::NoSotdmaTimeout),
        }
    }

    /// The slot offset, an error when there is none.
    pub fn slot_offset(&self) -> (r: CommunicationStateResult<&u16>)
        ensures
            match self.slot_offset {
                Some(v) => r matches Ok(x) && *x == v,
                None => r == Err::<&u16, CommunicationStateError>(CommunicationStateError::NoSotdmaSlotOffset),
            },
    {
        match &self.slot_offset {
            Some(v) => Ok(v),
            None => Err(CommunicationStateError::NoSotdmaSlotOffset),
        }
    }

    /// The utc hour, an error when there is none.
    pub fn utc_hour(&self) -> (r: CommunicationStateResult<&u8>)
        ensures
            match self.utc_hour {
                Some(v) => r matches Ok(x) && *x == v,
                None => r == Err::<&u8, CommunicationStateError>(CommunicationStateError::NoUtcHour),
            },
    {
        match &self.utc_hour {
            Some(v) => Ok(v),
            None => Err(CommunicationStateError::NoUtcHour),
        }
    }

    /// The utc minute, an error when there is none.
    pub fn utc_minute(&self) -> (r: CommunicationStateResult<&u8>)
        ensures
            match self.utc_minute {
                Some(v) => r matches Ok(x) && *x == v,
                None => r == Err::<&u8, CommunicationStateError>(CommunicationStateError::NoUtcMinute),
            },
    {
        match &self.utc_minute {
            Some(v) => Ok(v),
            None => Err(CommunicationStateError::NoUtcMinute),
        }
    }

    /// The slot number, an error when there is none.
    pub fn slot_number(&self) -> (r: CommunicationStateResult<&u16>)
        ensures
            match self.slot_number {
                Some(v) => r matches Ok(x) && *x == v,
                None => r == Err::<&u16, CommunicationStateError>(CommunicationStateError::NoItdmaSlotNumber),
            },
    {
        match &self.slot_number {
            Some(v) => Ok(v),
            None => Err(CommunicationStateError::NoItdmaSlotNumber),
        }
    }

    /// The received stations, an error when there is none.
    pub fn received_stations(&self) -> (r: CommunicationStateResult<&u16>)
        ensures
            match self.received_stations {
                Some(v) => r matches Ok(x) && *x == v,
                None => r == Err::<&u16, CommunicationStateError>(CommunicationStateError::NoSotdmaReceivedStations),
            },
    {
        match &self.received_stations {
            Some(v) => Ok(v),
            None => Err(CommunicationStateError::NoSotdmaReceivedStations),
        }
    }

    /// The slot increment, an error when there is none.
    pub fn slot_increment(&self) -> (r: CommunicationStateResult<&u16>)
        ensures
            match self.slot_increment {
                Some(v) => r matches Ok(x) && *x == v,
                None => r == Err::<&u16, CommunicationStateError>(CommunicationStateError::NoItdmaSlotIncrement),
            },
    {
        match &self.slot_increment {
            Some(v) => Ok(v),
            None => Err(CommunicationStateError::NoItdmaSlotIncrement),
        }
    }

    /// The number of slots, an error when there is none.
    pub fn number_of_slots(&self) -> (r: CommunicationStateResult<&u8>)
        ensures
            match self.number_of_slots {
                Some(v) => r matches Ok(x) && *x == v,
                None => r == Err::<&u8, CommunicationStateError>(CommunicationStateError::NoItdmaNumberOfSlots),
            },
    {
        match &self.number_of_slots {
            Some(v) => Ok(v),
            None => Err(CommunicationStateError::NoItdmaNumberOfSlots),
        }
    }

    /// The keep flag, an error when there is none.
    pub fn keep_flag(&self) -> (r: CommunicationStateResult<&bool>)
        ensures
            match self.keep_flag {
                Some(v) => r matches Ok(x) && *x == v,
                None => r == Err::<&bool, CommunicationStateError>(CommunicationStateError::NoItdmaKeepFlag),
            },
    {
        match &self.keep_flag {
            Some(v) => Ok(v),
            None => Err(CommunicationStateError::NoItdmaKeepFlag),
        }
    }

    /// Reads a communication state for a message of type `msg_type`; see
    /// [`parsed_cs`]. The bits from 21 on are clear for types 1 and 2, so
    /// that each value fits its number.
    pub fn parse(com_state_bitpacker: BitPacker, msg_type: u8) -> (r: CommunicationStateResult<Self>)
        requires
            com_state_bitpacker.wf(),
            (msg_type == 1 || msg_type == 2) ==> forall|i: int|
                21 <= i < com_state_bitpacker@.len() ==> !#[trigger] com_state_bitpacker@[i],
        ensures
            r == parsed_cs(com_state_bitpacker@, msg_type),
    {
        let bp = &com_state_bitpacker;
        let ghost s = bp@;
        let sync: u64 = match read_field(bp, 0, Some(1), 2) {
            Ok(v) => v,
            Err(e) => return Err(e),
        };
        proof {
            lemma2_to64();
        }
        let mut com_state = CommunicationState {
            communication_state_type: cs_type_for(msg_type),
            sync_state: sync as u8,
            slot_timeout: None,
            slot_offset: None,
            utc_hour: None,
            utc_minute: None,
            slot_number: None,
            received_stations: None,
            slot_increment: None,
            number_of_slots: None,
            keep_flag: None,
        };
        if msg_type == 1 || msg_type == 2 {
            let slot_timeout: u64 = match read_field(bp, 2, Some(4), 3) {
                Ok(v) => v,
                Err(e) => return Err(e),
            };
            let sub_msg = match bp.slice(Some(5), None) {
                Ok(p) => p,
                Err(e) => return Err(CommunicationStateError::BitPacker(e)),
            };
            let ghost sub = s.subrange(5, s.len() as int);
            assert(sub_msg@ == sub);
            assert forall|i: int| 16 <= i < sub_msg@.len() implies !#[trigger] sub_msg@[i] by {
                assert(sub_msg@[i] == s[i + 5]);
            }
            let t = slot_timeout as u8;
            com_state.slot_timeout = Some(t);
            if t == 0 {
                let v = match read_field(&sub_msg, 0, None, 16) {
                    Ok(v) => v,
                    Err(e) => return Err(e),
                };
                com_state.slot_offset = Some(v as u16);
            } else if t == 1 {
                let h = match read_field(&sub_msg, 0, Some(7), 8) {
                    Ok(v) => v,
                    Err(e) => return Err(e),
                };
                let m = match read_field(&sub_msg, 8, None, 8) {
                    Ok(v) => v,
                    Err(e) => return Err(e),
                };
                com_state.utc_hour = Some(h as u8);
                com_state.utc_minute = Some(m as u8);
            } else if t == 2 || t == 4 || t == 6 {
                let v = match read_field(&sub_msg, 0, None, 16) {
                    Ok(v) => v,
                    Err(e) => return Err(e),
                };
                com_state.slot_number = Some(v as u16);
            } else if t == 3 || t == 5 || t == 7 {
                let v = match read_field(&sub_msg, 0, None, 16) {
                    Ok(v) => v,
                    Err(e) => return Err(e),
                };
                com_state.received_stations = Some(v as u16);
            } else {
                return Err(CommunicationStateError::UnkownSotdmaTimeout);
            }
        } else if msg_type == 3 {
            let incr = match read_field(bp, 2, Some(14), 13) {
                Ok(v) => v,
                Err(e) => return Err(e),
            };
            let nbr = match read_field(bp, 15, Some(17), 3) {
                Ok(v) => v,
                Err(e) => return Err(e),
            };
            let keep = match read_field(bp, 18, Some(18), 1) {
                Ok(v) => v,
                Err(e) => return Err(e),
            };
            com_state.slot_increment = Some(incr as u16);
            com_state.number_of_slots = Some(nbr as u8);
            com_state.keep_flag = if keep == 1 {
                Some(true)
            } else {
                Some(false)
            };
        } else {
            return Err(CommunicationStateError::UnknownMessageType);
        }
        Ok(com_state)
    }

    /// The bits that the slot timeout selects; see [`cs_sub_bits`].
    fn build_sub_message(&self, utc_hour: u32, utc_minute: u32) -> (r: CommunicationStateResult<BitPacker>)
        ensures
            built_as(r, cs_sub_bits(*self, utc_hour, utc_minute)),
    {
        let t = match self.slot_timeout() {
            Ok(t) => *t,
            Err(e) => return Err(e),
        };
        if t == 3 || t == 5 || t == 7 {
            match self.received_stations() {
                Ok(v) => Ok(BitPacker::from_int(*v as u64, Some(14))),
                Err(e) => Err(e),
            }
        } else if t == 2 || t == 4 || t == 6 {
            match self.slot_number() {
                Ok(v) => Ok(BitPacker::from_int(*v as u64, Some(14))),
                Err(e) => Err(e),
            }
        } else if t == 1 {
            let p = BitPacker::from_int(0, Some(3)).add(BitPacker::from_int(utc_hour as u64, Some(5))).add(
                BitPacker::from_int(utc_minute as u64, Some(6)),
            );
            assert(p@ =~= word_bits(utc_minute as u64, 6) + word_bits(utc_hour as u64, 5) + word_bits(0, 3));
            Ok(p)
        } else {
            match self.slot_offset() {
                Ok(v) => Ok(BitPacker::from_int(*v as u64, Some(14))),
                Err(e) => Err(e),
            }
        }
    }

    /// The bits of the communication state, the clock reading `utc_hour`
    /// and `utc_minute`; see [`cs_bits`].
    pub fn build_at(&self, utc_hour: u32, utc_minute: u32) -> (r: CommunicationStateResult<BitPacker>)
        ensures
            built_as(r, cs_bits(*self, utc_hour, utc_minute)),
    {
        match self.communication_state_type {
            CSType::SOTDMA => {
                let sub = match self.build_sub_message(utc_hour, utc_minute) {
                    Ok(p) => p,
                    Err(e) => return Err(e),
                };
                let t = match self.slot_timeout() {
                    Ok(t) => *t,
                    Err(e) => return Err(e),
                };
                let p = sub.add(BitPacker::from_int(t as u64, Some(3))).add(
                    BitPacker::from_int(self.sync_state as u64, Some(2)),
                );
                assert(p@ =~= word_bits(self.sync_state as u64, 2) + word_bits(t as u64, 3) + sub@);
                Ok(p)
            },
            CSType::ITDMA => {
                let k = match self.keep_flag() {
                    Ok(k) => *k,
                    Err(e) => return Err(e),
                };
                let n = match self.number_of_slots() {
                    Ok(n) => *n,
                    Err(e) => return Err(e),
                };
                let i = match self.slot_increment() {
                    Ok(i) => *i,
                    Err(e) => return Err(e),
                };
                let p = BitPacker::from_int(
                    if k {
                        1
                    } else {
                        0
                    },
                    Some(1),
                ).add(BitPacker::from_int(n as u64, Some(3))).add(
                    BitPacker::from_int(i as u64, Some(13)),
                ).add(BitPacker::from_int(self.sync_state as u64, Some(2)));
                assert(p@ =~= word_bits(self.sync_state as u64, 2) + word_bits(i as u64, 13)
                    + word_bits(n as u64, 3) + word_bits(if k { 1 } else { 0 }, 1));
                Ok(p)
            },
        }
    }

    /// The bits of the communication state at the time of the clock; see
    /// [`cs_bits`], for some hour and minute of the day. An error when the
    /// clock cannot be read.
    pub fn build(&self) -> (r: CommunicationStateResult<BitPacker>)
        ensures
            cs_built_now(*self, r) || r == Err::<BitPacker, CommunicationStateError>(
                CommunicationStateError::ClockUnreadable,
            ),
    {
        let dt = match get_current_dt() {
            Some(dt) => dt,
            None => return Err(CommunicationStateError::ClockUnreadable),
        };
        let utc_hour = dt.hour;
        let utc_minute = dt.minute;
        let r = self.build_at(utc_hour, utc_minute);
        assert(cs_built(*self, utc_hour, utc_minute, r));
        r
    }
}

fn cs_type_for(msg_type: u8) -> (r: CSType)
    ensures
        r == cs_type_of(msg_type),
{
    let msgs = SOTDMA_CS_MSGS;
    assert(msgs@ == seq![1u8, 2, 4, 9, 11, 18, 26]);
    let mut i: usize = 0;
    while i < 7
        invariant
            i <= 7,
            msgs@ == seq![1u8, 2, 4, 9, 11, 18, 26],
            forall|k: int| 0 <= k < i ==> msgs@[k] != msg_type,
        decreases 7 - i,
    {
        if msgs[i] == msg_type {
            return CSType::SOTDMA;
        }
        i = i + 1;
    }
    CSType::ITDMA
}

} // verus!
