use vstd::prelude::*;
use vstd::arithmetic::power2::pow2;
use crate::bitpacker::{
    BitPacker, lemma_sixbit_roundtrip, lemma_word_bits_value, packed_str, sixbit_fits, sixbit_normalize,
    sixbit_text, word_bits,
};
use crate::common::errors::{BoatInfoError, BoatInfoResult};
use crate::common::types::{AisField, field_of_name};

verus! {

broadcast use vstd::string::group_string_axioms;

/// `n` times the character `@`, the AIS padding.
pub open spec fn at_signs(n: nat) -> Seq<char> {
    Seq::new(n, |i: int| '@')
}

/// What a boat tells of itself: identity, size and equipment.
#[derive(Debug)]
pub struct StaticData {
    pub mmsi: u32,
    pub imo_number: u32,
    pub call_sign: String,
    pub name: String,
    pub type_of_ship_and_cargo_type: u8,
    pub position_accuracy: u8,
    pub ais_version: u8,
    pub type_of_epf_device: u8,
    pub a: u16,
    pub b: u16,
    pub c: u8,
    pub d: u8,
    pub spare: u8,
}

/// The contents of [`StaticData`], the texts as characters.
pub struct StaticDataView {
    pub mmsi: u32,
    pub imo_number: u32,
    pub call_sign: Seq<char>,
    pub name: Seq<char>,
    pub type_of_ship_and_cargo_type: u8,
    pub position_accuracy: u8,
    pub ais_version: u8,
    pub type_of_epf_device: u8,
    pub a: u16,
    pub b: u16,
    pub c: u8,
    pub d: u8,
    pub spare: u8,
}

impl View for StaticData {
    type V = StaticDataView;

    open spec fn view(&self) -> StaticDataView {
        StaticDataView {
            mmsi: self.mmsi,
            imo_number: self.imo_number,
            call_sign: self.call_sign@,
            name: self.name@,
            type_of_ship_and_cargo_type: self.type_of_ship_and_cargo_type,
            position_accuracy: self.position_accuracy,
            ais_version: self.ais_version,
            type_of_epf_device: self.type_of_epf_device,
            a: self.a,
            b: self.b,
            c: self.c,
            d: self.d,
            spare: self.spare,
        }
    }
}

impl Clone for StaticData {
    fn clone(&self) -> (r: Self)
        ensures
            r@ == self@,
    {
        StaticData {
            mmsi: self.mmsi,
            imo_number: self.imo_number,
            call_sign: self.call_sign.clone(),
            name: self.name.clone(),
            type_of_ship_and_cargo_type: self.type_of_ship_and_cargo_type,
            position_accuracy: self.position_accuracy,
            ais_version: self.ais_version,
            type_of_epf_device: self.type_of_epf_device,
            a: self.a,
            b: self.b,
            c: self.c,
            d: self.d,
            spare: self.spare,
        }
    }
}

/// What a boat tells of its voyage.
#[derive(Debug)]
pub struct VoyageData {
    pub destination: String,
    pub eta_month: u8,
    pub eta_day: u8,
    pub eta_hour: u8,
    pub eta_minute: u8,
    pub maximum_present_static_draught: u8,
    pub dte: u8,
    pub raim_flag: u8,
}

/// The contents of [`VoyageData`], the destination as characters.
pub struct VoyageDataView {
    pub destination: Seq<char>,
    pub eta_month: u8,
    pub eta_day: u8,
    pub eta_hour: u8,
    pub eta_minute: u8,
    pub maximum_present_static_draught: u8,
    pub dte: u8,
    pub raim_flag: u8,
}

impl View for VoyageData {
    type V = VoyageDataView;

    open spec fn view(&self) -> VoyageDataView {
        VoyageDataView {
            destination: self.destination@,
            eta_month: self.eta_month,
            eta_day: self.eta_day,
            eta_hour: self.eta_hour,
            eta_minute: self.eta_minute,
            maximum_present_static_draught: self.maximum_present_static_draught,
            dte: self.dte,
            raim_flag: self.raim_flag,
        }
    }
}

impl Clone for VoyageData {
    fn clone(&self) -> (r: Self)
        ensures
            r@ == self@,
    {
        VoyageData {
            destination: self.destination.clone(),
            eta_month: self.eta_month,
            eta_day: self.eta_day,
            eta_hour: self.eta_hour,
            eta_minute: self.eta_minute,
            maximum_present_static_draught: self.maximum_present_static_draught,
            dte: self.dte,
            raim_flag: self.raim_flag,
        }
    }
}

/// Where a boat is and how it moves.
#[derive(Debug, Clone, Copy, PartialEq, Eq, Structural)]
pub struct NavigationData {
    pub navigational_status: u8,
    pub time_stamp: u8,
    pub special_maneuvre_indicator: u8,
    pub latitude: u32,
    pub longitude: u32,
    pub course_over_ground: u16,
    pub speed_over_ground: u16,
    pub rate_of_turn: i8,
    pub true_heading: u16,
}

/// The static data when nothing is known: zeros and `@` padding.
pub open spec fn default_static_data() -> StaticDataView {
    StaticDataView {
        mmsi: 0,
        imo_number: 0,
        call_sign: at_signs(7),
        name: at_signs(20),
        type_of_ship_and_cargo_type: 0,
        position_accuracy: 0,
        ais_version: 0,
        type_of_epf_device: 0,
        a: 0,
        b: 0,
        c: 0,
        d: 0,
        spare: 0,
    }
}

/// The voyage data when nothing is known: no destination, no date, the
/// "not available" hour 24 and minute 60, data terminal not ready.
pub open spec fn default_voyage_data() -> VoyageDataView {
    VoyageDataView {
        destination: at_signs(20),
        eta_month: 0,
        eta_day: 0,
        eta_hour: 24,
        eta_minute: 60,
        maximum_present_static_draught: 0,
        dte: 1,
        raim_flag: 0,
    }
}

/// The navigation data when nothing is known: the "not available" value of
/// each field.
pub open spec fn default_navigation_data() -> NavigationData {
    NavigationData {
        navigational_status: 15,
        time_stamp: 63,
        special_maneuvre_indicator: 0,
        latitude: 0,
        longitude: 0,
        course_over_ground: 3601,
        speed_over_ground: 1023,
        rate_of_turn: -128i8,
        true_heading: 511,
    }
}

/// A text given, or `n` padding characters when there is none.
pub open spec fn text_or_pad(t: Option<String>, n: nat) -> Seq<char> {
    match t {
        Some(s) => s@,
        None => at_signs(n),
    }
}

fn pad_text(t: Option<String>, n: usize) -> (r: String)
    requires
        n == 7 || n == 20,
    ensures
        r@ == text_or_pad(t, n as nat),
{
    match t {
        Some(s) => s,
        None => {
            if n == 7 {
                let s = "@@@@@@@".to_string();
                proof {
                    reveal_strlit("@@@@@@@");
                }
                assert(s@ =~= at_signs(7));
                s
            } else {
                let s = "@@@@@@@@@@@@@@@@@@@@".to_string();
                proof {
                    reveal_strlit("@@@@@@@@@@@@@@@@@@@@");
                }
                assert(s@ =~= at_signs(20));
                s
            }
        },
    }
}

impl StaticData {
    /// The data given, each missing field taken from [`default_static_data`].
    pub fn new(
        mmsi: Option<u32>,
        imo_nbr: Option<u32>,
        call_sign: Option<String>,
        name: Option<String>,
        type_of_ship_and_cargo_type: Option<u8>,
        pos_accuracy: Option<u8>,
        ais_version: Option<u8>,
        type_of_epf_device: Option<u8>,
        a: Option<u16>,
        b: Option<u16>,
        c: Option<u8>,
        d: Option<u8>,
    ) -> (r: Self)
        ensures
            r@ == (StaticDataView {
                mmsi: mmsi.unwrap_or(0),
                imo_number: imo_nbr.unwrap_or(0),
                call_sign: text_or_pad(call_sign, 7),
                name: text_or_pad(name, 20),
                type_of_ship_and_cargo_type: type_of_ship_and_cargo_type.unwrap_or(0),
                position_accuracy: pos_accuracy.unwrap_or(0),
                ais_version: ais_version.unwrap_or(0),
                type_of_epf_device: type_of_epf_device.unwrap_or(0),
                a: a.unwrap_or(0),
                b: b.unwrap_or(0),
                c: c.unwrap_or(0),
                d: d.unwrap_or(0),
                spare: 0,
            }),
    {
        StaticData {
            mmsi: mmsi.unwrap_or(0),
            imo_number: imo_nbr.unwrap_or(0),
            call_sign: pad_text(call_sign, 7),
            name: pad_text(name, 20),
            type_of_ship_and_cargo_type: type_of_ship_and_cargo_type.unwrap_or(0),
            position_accuracy: pos_accuracy.unwrap_or(0),
            ais_version: ais_version.unwrap_or(0),
            type_of_epf_device: type_of_epf_device.unwrap_or(0),
            a: a.unwrap_or(0),
            b: b.unwrap_or(0),
            c: c.unwrap_or(0),
            d: d.unwrap_or(0),
            spare: 0,
        }
    }
}

impl VoyageData {
    /// The data given, each missing field taken from [`default_voyage_data`].
    pub fn new(
        dest: Option<String>,
        eta_month: Option<u8>,
        eta_day: Option<u8>,
        eta_hour: Option<u8>,
        eta_min: Option<u8>,
        maximum_present_static_draught: Option<u8>,
        dte: Option<u8>,
        raim_flag: Option<u8>,
    ) -> (r: Self)
        ensures
            r@ == (VoyageDataView {
                destination: text_or_pad(dest, 20),
                eta_month: eta_month.unwrap_or(0),
                eta_day: eta_day.unwrap_or(0),
                eta_hour: eta_hour.unwrap_or(24),
                eta_minute: eta_min.unwrap_or(60),
                maximum_present_static_draught: maximum_present_static_draught.unwrap_or(0),
                dte: dte.unwrap_or(1),
                raim_flag: raim_flag.unwrap_or(0),
            }),
    {
        VoyageData {
            destination: pad_text(dest, 20),
            eta_month: eta_month.unwrap_or(0),
            eta_day: eta_day.unwrap_or(0),
            eta_hour: eta_hour.unwrap_or(24),
            eta_minute: eta_min.unwrap_or(60),
            maximum_present_static_draught: maximum_present_static_draught.unwrap_or(0),
            dte: dte.unwrap_or(1),
            raim_flag: raim_flag.unwrap_or(0),
        }
    }
}

impl NavigationData {
    /// The data given, each missing field taken from [`default_navigation_data`].
    pub fn new(
        nav_status: Option<u8>,
        time_stamp: Option<u8>,
        special_maneuvre_indicator: Option<u8>,
        lat: Option<u32>,
        lon: Option<u32>,
        course_over_ground: Option<u16>,
        speed_over_ground: Option<u16>,
        rate_of_turn: Option<i8>,
        true_heading: Option<u16>,
    ) -> (r: Self)
        ensures
            r == (NavigationData {
                navigational_status: nav_status.unwrap_or(15),
                time_stamp: time_stamp.unwrap_or(63),
                special_maneuvre_indicator: special_maneuvre_indicator.unwrap_or(0),
                latitude: lat.unwrap_or(0),
                longitude: lon.unwrap_or(0),
                course_over_ground: course_over_ground.unwrap_or(3601),
                speed_over_ground: speed_over_ground.unwrap_or(1023),
                rate_of_turn: rate_of_turn.unwrap_or(-128i8),
                true_heading: true_heading.unwrap_or(511),
            }),
    {
        NavigationData {
            navigational_status: nav_status.unwrap_or(15),
            time_stamp: time_stamp.unwrap_or(63),
            special_maneuvre_indicator: special_maneuvre_indicator.unwrap_or(0),
            latitude: lat.unwrap_or(0),
            longitude: lon.unwrap_or(0),
            course_over_ground: course_over_ground.unwrap_or(3601),
            speed_over_ground: speed_over_ground.unwrap_or(1023),
            rate_of_turn: rate_of_turn.unwrap_or(-128),
            true_heading: true_heading.unwrap_or(511),
        }
    }
}

/// Everything a boat broadcasts about itself.
#[derive(Debug)]
pub struct BoatInfo {
    static_data: StaticData,
    voyage_data: VoyageData,
    navigation_data: NavigationData,
}

/// The contents of a [`BoatInfo`].
pub struct BoatInfoView {
    pub static_data: StaticDataView,
    pub voyage_data: VoyageDataView,
    pub navigation_data: NavigationData,
}

impl View for BoatInfo {
    type V = BoatInfoView;

    closed spec fn view(&self) -> BoatInfoView {
        BoatInfoView {
            static_data: self.static_data@,
            voyage_data: self.voyage_data@,
            navigation_data: self.navigation_data,
        }
    }
}

impl Clone for BoatInfo {
    fn clone(&self) -> (r: Self)
        ensures
            r@ == self@,
    {
        BoatInfo {
            static_data: self.static_data.clone(),
            voyage_data: self.voyage_data.clone(),
            navigation_data: self.navigation_data,
        }
    }
}

/// How many bits a field takes in a message of type `msg_type`.
pub open spec fn field_width(f: AisField, msg_type: u8) -> nat {
    match f {
        AisField::Mmsi => 30,
        AisField::NavigationalStatus => 4,
        AisField::RateOfTurn => 8,
        AisField::SpeedOverGround => 10,
        AisField::PositionAccuracy => 1,
        AisField::Longitude => 28,
        AisField::Latitude => 27,
        AisField::CourseOverGround => 12,
        AisField::TrueHeading => 9,
        AisField::TimeStamp => 6,
        AisField::SpecialManeuvreIndicator => 2,
        AisField::RaimFlag => 1,
        AisField::AisVersion => 2,
        AisField::ImoNumber => 30,
        AisField::TypeOfShipAndCargoType => 8,
        AisField::B => 9,
        AisField::A => 9,
        AisField::C => 6,
        AisField::D => 6,
        AisField::TypeOfEpfDevice => 4,
        AisField::EtaMonth => 4,
        AisField::EtaDay => 5,
        AisField::EtaHour => 5,
        AisField::EtaMinute => 6,
        AisField::MaximumPresentStaticDraught => 8,
        AisField::Dte => 1,
        AisField::Spare => if msg_type == 5 { 1 } else { 3 },
        AisField::CallSign => 42,
        AisField::Name => 120,
        AisField::Destination => 120,
    }
}

/// The number that a field holds (none for the texts); the rate of turn
/// as its two's complement byte.
pub open spec fn numeric_field(info: BoatInfoView, f: AisField) -> u64 {
    match f {
        AisField::Mmsi => info.static_data.mmsi as u64,
        AisField::NavigationalStatus => info.navigation_data.navigational_status as u64,
        AisField::RateOfTurn => (info.navigation_data.rate_of_turn as u8) as u64,
        AisField::SpeedOverGround => info.navigation_data.speed_over_ground as u64,
        AisField::PositionAccuracy => info.static_data.position_accuracy as u64,
        AisField::Longitude => info.navigation_data.longitude as u64,
        AisField::Latitude => info.navigation_data.latitude as u64,
        AisField::CourseOverGround => info.navigation_data.course_over_ground as u64,
        AisField::TrueHeading => info.navigation_data.true_heading as u64,
        AisField::TimeStamp => info.navigation_data.time_stamp as u64,
        AisField::SpecialManeuvreIndicator => info.navigation_data.special_maneuvre_indicator as u64,
        AisField::RaimFlag => info.voyage_data.raim_flag as u64,
        AisField::AisVersion => info.static_data.ais_version as u64,
        AisField::ImoNumber => info.static_data.imo_number as u64,
        AisField::TypeOfShipAndCargoType => info.static_data.type_of_ship_and_cargo_type as u64,
        AisField::B => info.static_data.b as u64,
        AisField::A => info.static_data.a as u64,
        AisField::C => info.static_data.c as u64,
        AisField::D => info.static_data.d as u64,
        AisField::TypeOfEpfDevice => info.static_data.type_of_epf_device as u64,
        AisField::EtaMonth => info.voyage_data.eta_month as u64,
        AisField::EtaDay => info.voyage_data.eta_day as u64,
        AisField::EtaHour => info.voyage_data.eta_hour as u64,
        AisField::EtaMinute => info.voyage_data.eta_minute as u64,
        AisField::MaximumPresentStaticDraught => info.voyage_data.maximum_present_static_draught as u64,
        AisField::Dte => info.voyage_data.dte as u64,
        AisField::Spare => info.static_data.spare as u64,
        _ => 0,
    }
}

/// The bits of a field in a message of type `msg_type`: a text packed six
/// bits a character, any other field's number on its width.
pub open spec fn field_bits(info: BoatInfoView, f: AisField, msg_type: u8) -> Seq<bool> {
    match f {
        AisField::CallSign => packed_str(info.static_data.call_sign, 42),
        AisField::Name => packed_str(info.static_data.name, 120),
        AisField::Destination => packed_str(info.voyage_data.destination, 120),
        _ => word_bits(numeric_field(info, f), field_width(f, msg_type)),
    }
}

/// Whether a field is one of the texts.
pub open spec fn is_text_field(f: AisField) -> bool {
    f is CallSign || f is Name || f is Destination
}

/// The text that a text field holds.
pub open spec fn text_field(info: BoatInfoView, f: AisField) -> Seq<char> {
    match f {
        AisField::CallSign => info.static_data.call_sign,
        AisField::Name => info.static_data.name,
        _ => info.voyage_data.destination,
    }
}

/// The bits of a field read back over the whole packer that holds them: a
/// number comes back modulo two to the field's width, the rate of turn as
/// its two's complement byte; a text whose characters all have a six-bit
/// code (none is `?`) and that fits its width comes back in the AIS
/// alphabet.
pub proof fn lemma_field_bits_read_back(info: BoatInfoView, f: AisField, msg_type: u8, p: BitPacker)
    requires
        p.nbits() == field_width(f, msg_type),
        p@ == field_bits(info, f, msg_type),
    ensures
        p.in_bounds(BitPacker::start_of(None), p.end_of(None)),
        !is_text_field(f) ==> p.fits(BitPacker::start_of(None), p.end_of(None), 64),
        !is_text_field(f) ==> p.field_value(BitPacker::start_of(None), p.end_of(None)) == numeric_field(
            info,
            f,
        ) as nat % pow2(field_width(f, msg_type)),
        is_text_field(f) && 6 * text_field(info, f).len() <= field_width(f, msg_type) && sixbit_fits(
            text_field(info, f),
        ) ==> sixbit_text(p.field(BitPacker::start_of(None), p.end_of(None)), field_width(f, msg_type) / 6)
            == sixbit_normalize(text_field(info, f)),
{
    let w = field_width(f, msg_type);
    assert(p.field(0, w - 1) =~= p@);
    if !is_text_field(f) {
        lemma_word_bits_value(numeric_field(info, f), w);
    } else if 6 * text_field(info, f).len() <= w && sixbit_fits(text_field(info, f)) {
        lemma_sixbit_roundtrip(text_field(info, f), w);
    }
}

impl BoatInfo {
    /// The data given, each part missing taken as its defaults.
    pub fn new(
        static_data: Option<StaticData>,
        voyage_data: Option<VoyageData>,
        navigation_data: Option<NavigationData>,
    ) -> (r: Self)
        ensures
            r@.static_data == match static_data {
                Some(s) => s@,
                None => default_static_data(),
            },
            r@.voyage_data == match voyage_data {
                Some(v) => v@,
                None => default_voyage_data(),
            },
            r@.navigation_data == match navigation_data {
                Some(n) => n,
                None => default_navigation_data(),
            },
    {
        let s = match static_data {
            Some(s) => s,
            None => StaticData::new(None, None, None, None, None, None, None, None, None, None, None, None),
        };
        let v = match voyage_data {
            Some(v) => v,
            None => VoyageData::new(None, None, None, None, None, None, None, None),
        };
        let n = match navigation_data {
            Some(n) => n,
            None => NavigationData::new(None, None, None, None, None, None, None, None, None),
        };
        BoatInfo { static_data: s, voyage_data: v, navigation_data: n }
    }

    /// A copy of the static data.
    pub fn get_static_data(&self) -> (r: BoatInfoResult<StaticData>)
        ensures
            r matches Ok(s) && s@ == self@.static_data,
    {
        Ok(self.static_data.clone())
    }

    /// A copy of the voyage data.
    pub fn get_voyage_data(&self) -> (r: BoatInfoResult<VoyageData>)
        ensures
            r matches Ok(v) && v@ == self@.voyage_data,
    {
        Ok(self.voyage_data.clone())
    }

    /// The voyage data, to change in place.
    pub fn get_writeable_voyage_data(&mut self) -> (r: BoatInfoResult<&mut VoyageData>)
        ensures
            r matches Ok(v) && v@ == old(self)@.voyage_data && final(self)@ == (BoatInfoView {
                voyage_data: final(v)@,
                ..old(self)@
            }),
    {
        Ok(&mut self.voyage_data)
    }

    /// The navigation data, to change in place.
    pub fn get_writeable_navigation_data(&mut self) -> (r: BoatInfoResult<&mut NavigationData>)
        ensures
            r matches Ok(n) && *n == old(self)@.navigation_data && final(self)@ == (BoatInfoView {
                navigation_data: *final(n),
                ..old(self)@
            }),
    {
        Ok(&mut self.navigation_data)
    }

    /// A copy of the navigation data.
    pub fn get_navigation_data(&self) -> (r: BoatInfoResult<NavigationData>)
        ensures
            r == Ok::<NavigationData, BoatInfoError>(self@.navigation_data),
    {
        Ok(self.navigation_data)
    }

    /// Sets the status fields, each missing one to its "not available" value.
    pub fn update_status(
        &mut self,
        nav_status: Option<u8>,
        time_stamp: Option<u8>,
        special_maneuvre_indicator: Option<u8>,
    ) -> (r: BoatInfoResult<()>)
        ensures
            r is Ok,
            final(self)@ == (BoatInfoView {
                navigation_data: NavigationData {
                    navigational_status: nav_status.unwrap_or(15),
                    time_stamp: time_stamp.unwrap_or(63),
                    special_maneuvre_indicator: special_maneuvre_indicator.unwrap_or(0),
                    ..old(self)@.navigation_data
                },
                ..old(self)@
            }),
    {
        self.navigation_data.navigational_status = nav_status.unwrap_or(15);
        self.navigation_data.time_stamp = time_stamp.unwrap_or(63);
        self.navigation_data.special_maneuvre_indicator = special_maneuvre_indicator.unwrap_or(0);
        Ok(())
    }

    /// Sets the position, a missing coordinate to 0.
    pub fn update_positon(&mut self, lat: Option<u32>, lon: Option<u32>) -> (r: BoatInfoResult<()>)
        ensures
            r is Ok,
            final(self)@ == (BoatInfoView {
                navigation_data: NavigationData {
                    latitude: lat.unwrap_or(0),
                    longitude: lon.unwrap_or(0),
                    ..old(self)@.navigation_data
                },
                ..old(self)@
            }),
    {
        self.navigation_data.latitude = lat.unwrap_or(0);
        self.navigation_data.longitude = lon.unwrap_or(0);
        Ok(())
    }

    /// Sets the movement fields, each missing one to its "not available" value.
    pub fn update_movement(
        &mut self,
        course_over_ground: Option<u16>,
        speed_over_ground: Option<u16>,
        rate_of_turn: Option<i8>,
        true_heading: Option<u16>,
    ) -> (r: BoatInfoResult<()>)
        ensures
            r is Ok,
            final(self)@ == (BoatInfoView {
                navigation_data: NavigationData {
                    course_over_ground: course_over_ground.unwrap_or(3601),
                    speed_over_ground: speed_over_ground.unwrap_or(1023),
                    rate_of_turn: rate_of_turn.unwrap_or(-128i8),
                    true_heading: true_heading.unwrap_or(511),
                    ..old(self)@.navigation_data
                },
                ..old(self)@
            }),
    {
        self.navigation_data.course_over_ground = course_over_ground.unwrap_or(3601);
        self.navigation_data.speed_over_ground = speed_over_ground.unwrap_or(1023);
        self.navigation_data.rate_of_turn = rate_of_turn.unwrap_or(-128i8);
        self.navigation_data.true_heading = true_heading.unwrap_or(511);
        Ok(())
    }

    /// Sets the destination and the arrival time, each missing field to its
    /// default; the other voyage fields stay.
    pub fn update_voyage_data(
        &mut self,
        dest: Option<String>,
        eta_month: Option<u8>,
        eta_day: Option<u8>,
        eta_hour: Option<u8>,
        eta_min: Option<u8>,
    ) -> (r: BoatInfoResult<()>)
        ensures
            r is Ok,
            final(self)@ == (BoatInfoView {
                voyage_data: VoyageDataView {
                    destination: text_or_pad(dest, 20),
                    eta_month: eta_month.unwrap_or(0),
                    eta_day: eta_day.unwrap_or(0),
                    eta_hour: eta_hour.unwrap_or(24),
                    eta_minute: eta_min.unwrap_or(60),
                    ..old(self)@.voyage_data
                },
                ..old(self)@
            }),
    {
        self.voyage_data.destination = pad_text(dest, 20);
        self.voyage_data.eta_month = eta_month.unwrap_or(0);
        self.voyage_data.eta_day = eta_day.unwrap_or(0);
        self.voyage_data.eta_hour = eta_hour.unwrap_or(24);
        self.voyage_data.eta_minute = eta_min.unwrap_or(60);
        Ok(())
    }

    /// The bits of `field` in a message of type `msg_type`; see [`field_bits`].
    pub fn field_to_bits(&self, field: AisField, msg_type: u8) -> (r: BitPacker)
        ensures
            r.canonical(),
            r.nbits() == field_width(field, msg_type),
            r@ == field_bits(self@, field, msg_type),
    {
        match field {
            AisField::Mmsi => BitPacker::from_int(self.static_data.mmsi as u64, Some(30)),
            AisField::NavigationalStatus => BitPacker::from_int(self.navigation_data.navigational_status as u64, Some(4)),
            AisField::RateOfTurn => BitPacker::from_int(self.navigation_data.rate_of_turn as u8 as u64, Some(8)),
            AisField::SpeedOverGround => BitPacker::from_int(self.navigation_data.speed_over_ground as u64, Some(10)),
            AisField::PositionAccuracy => BitPacker::from_int(self.static_data.position_accuracy as u64, Some(1)),
            AisField::Longitude => BitPacker::from_int(self.navigation_data.longitude as u64, Some(28)),
            AisField::Latitude => BitPacker::from_int(self.navigation_data.latitude as u64, Some(27)),
            AisField::CourseOverGround => BitPacker::from_int(self.navigation_data.course_over_ground as u64, Some(12)),
            AisField::TrueHeading => BitPacker::from_int(self.navigation_data.true_heading as u64, Some(9)),
            AisField::TimeStamp => BitPacker::from_int(self.navigation_data.time_stamp as u64, Some(6)),
            AisField::SpecialManeuvreIndicator => BitPacker::from_int(self.navigation_data.special_maneuvre_indicator as u64, Some(2)),
            AisField::RaimFlag => BitPacker::from_int(self.voyage_data.raim_flag as u64, Some(1)),
            AisField::AisVersion => BitPacker::from_int(self.static_data.ais_version as u64, Some(2)),
            AisField::ImoNumber => BitPacker::from_int(self.static_data.imo_number as u64, Some(30)),
            AisField::TypeOfShipAndCargoType => BitPacker::from_int(self.static_data.type_of_ship_and_cargo_type as u64, Some(8)),
            AisField::B => BitPacker::from_int(self.static_data.b as u64, Some(9)),
            AisField::A => BitPacker::from_int(self.static_data.a as u64, Some(9)),
            AisField::C => BitPacker::from_int(self.static_data.c as u64, Some(6)),
            AisField::D => BitPacker::from_int(self.static_data.d as u64, Some(6)),
            AisField::TypeOfEpfDevice => BitPacker::from_int(self.static_data.type_of_epf_device as u64, Some(4)),
            AisField::EtaMonth => BitPacker::from_int(self.voyage_data.eta_month as u64, Some(4)),
            AisField::EtaDay => BitPacker::from_int(self.voyage_data.eta_day as u64, Some(5)),
            AisField::EtaHour => BitPacker::from_int(self.voyage_data.eta_hour as u64, Some(5)),
            AisField::EtaMinute => BitPacker::from_int(self.voyage_data.eta_minute as u64, Some(6)),
            AisField::MaximumPresentStaticDraught => BitPacker::from_int(self.voyage_data.maximum_present_static_draught as u64, Some(8)),
            AisField::Dte => BitPacker::from_int(self.voyage_data.dte as u64, Some(1)),
            AisField::Spare => BitPacker::from_int(
                self.static_data.spare as u64,
                Some(if msg_type == 5 { 1 } else { 3 }),
            ),
            AisField::CallSign => BitPacker::from_str(self.static_data.call_sign.as_str(), Some(42)),
            AisField::Name => BitPacker::from_str(self.static_data.name.as_str(), Some(120)),
            AisField::Destination => BitPacker::from_str(self.voyage_data.destination.as_str(), Some(120)),
        }
    }

    /// The bits of the field named `field` in a message of type `msg_type`
    /// (see [`field_bits`]); no bits for a name that denotes no field.
    pub fn to_bits(&self, field: &str, msg_type: u8) -> (r: BoatInfoResult<BitPacker>)
        ensures
            r matches Ok(p) && p.canonical() && match field_of_name(field@) {
                Some(f) => p.nbits() == field_width(f, msg_type) && p@ == field_bits(self@, f, msg_type),
                None => p.nbits() == 0,
            },
    {
        match AisField::from_name(field) {
            Some(f) => Ok(self.field_to_bits(f, msg_type)),
            None => Ok(BitPacker::from_int(0, None)),
        }
    }
}

} // verus!
