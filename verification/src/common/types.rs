use vstd::prelude::*;
use crate::bitpacker::BitPacker;
use crate::common::utils::str_eq;
use vstd::std_specs::convert::FromSpecImpl;

verus! {

/// A radio channel.
#[derive(Debug, Clone, Copy, PartialEq, Eq, Structural)]
pub enum Channel {
    C87B,
    C88B,
    GPS,
    SATCOM,
    Any,
}

/// The access scheme that a communication state describes.
#[derive(Debug, Clone, Copy, PartialEq, Eq, Structural)]
pub enum CSType {
    SOTDMA,
    ITDMA,
}

/// A message heard on, or sent to, a channel.
#[derive(Debug)]
pub struct AisPacket {
    pub channel: Channel,
    pub message: BitPacker,
}

impl AisPacket {
    pub fn from(msg: BitPacker, chn: Channel) -> (r: Self)
        ensures
            r.channel == chn,
            r.message == msg,
    {
        Self { channel: chn, message: msg }
    }
}

/// A field of an AIS message, named in snake case where a text names it.
#[derive(Debug, Clone, Copy, PartialEq, Eq, Structural)]
pub enum AisField {
    Mmsi,
    NavigationalStatus,
    RateOfTurn,
    SpeedOverGround,
    PositionAccuracy,
    Longitude,
    Latitude,
    CourseOverGround,
    TrueHeading,
    TimeStamp,
    SpecialManeuvreIndicator,
    RaimFlag,
    AisVersion,
    ImoNumber,
    TypeOfShipAndCargoType,
    B,
    A,
    C,
    D,
    TypeOfEpfDevice,
    EtaMonth,
    EtaDay,
    EtaHour,
    EtaMinute,
    MaximumPresentStaticDraught,
    Dte,
    Spare,
    CallSign,
    Name,
    Destination,
}

/// The field that a name denotes, if any.
pub open spec fn field_of_name(s: Seq<char>) -> Option<AisField> {
    if s == "mmsi"@ {
        Some(AisField::Mmsi)
    } else if s == "navigational_status"@ {
        Some(AisField::NavigationalStatus)
    } else if s == "rate_of_turn"@ {
        Some(AisField::RateOfTurn)
    } else if s == "speed_over_ground"@ {
        Some(AisField::SpeedOverGround)
    } else if s == "position_accuracy"@ {
        Some(AisField::PositionAccuracy)
    } else if s == "longitude"@ {
        Some(AisField::Longitude)
    } else if s == "latitude"@ {
        Some(AisField::Latitude)
    } else if s == "course_over_ground"@ {
        Some(AisField::CourseOverGround)
    } else if s == "true_heading"@ {
        Some(AisField::TrueHeading)
    } else if s == "time_stamp"@ {
        Some(AisField::TimeStamp)
    } else if s == "special_maneuvre_indicator"@ {
        Some(AisField::SpecialManeuvreIndicator)
    } else if s == "raim_flag"@ {
        Some(AisField::RaimFlag)
    } else if s == "ais_version"@ {
        Some(AisField::AisVersion)
    } else if s == "imo_number"@ {
        Some(AisField::ImoNumber)
    } else if s == "type_of_ship_and_cargo_type"@ {
        Some(AisField::TypeOfShipAndCargoType)
    } else if s == "b"@ {
        Some(AisField::B)
    } else if s == "a"@ {
        Some(AisField::A)
    } else if s == "c"@ {
        Some(AisField::C)
    } else if s == "d"@ {
        Some(AisField::D)
    } else if s == "type_of_epf_device"@ {
        Some(AisField::TypeOfEpfDevice)
    } else if s == "eta_month"@ {
        Some(AisField::EtaMonth)
    } else if s == "eta_day"@ {
        Some(AisField::EtaDay)
    } else if s == "eta_hour"@ {
        Some(AisField::EtaHour)
    } else if s == "eta_minute"@ {
        Some(AisField::EtaMinute)
    } else if s == "maximum_present_static_draught"@ {
        Some(AisField::MaximumPresentStaticDraught)
    } else if s == "dte"@ {
        Some(AisField::Dte)
    } else if s == "spare"@ {
        Some(AisField::Spare)
    } else if s == "call_sign"@ {
        Some(AisField::CallSign)
    } else if s == "name"@ {
        Some(AisField::Name)
    } else if s == "destination"@ {
        Some(AisField::Destination)
    } else {
        None
    }
}

impl AisField {
    /// The field that `name` denotes, if any.
    pub fn from_name(name: &str) -> (r: Option<Self>)
        ensures
            r == field_of_name(name@),
    {
        if str_eq(name, "mmsi") {
            return Some(AisField::Mmsi);
        }
        if str_eq(name, "navigational_status") {
            return Some(AisField::NavigationalStatus);
        }
        if str_eq(name, "rate_of_turn") {
            return Some(AisField::RateOfTurn);
        }
        if str_eq(name, "speed_over_ground") {
            return Some(AisField::SpeedOverGround);
        }
        if str_eq(name, "position_accuracy") {
            return Some(AisField::PositionAccuracy);
        }
        if str_eq(name, "longitude") {
            return Some(AisField::Longitude);
        }
        if str_eq(name, "latitude") {
            return Some(AisField::Latitude);
        }
        if str_eq(name, "course_over_ground") {
            return Some(AisField::CourseOverGround);
        }
        if str_eq(name, "true_heading") {
            return Some(AisField::TrueHeading);
        }
        if str_eq(name, "time_stamp") {
            return Some(AisField::TimeStamp);
        }
        if str_eq(name, "special_maneuvre_indicator") {
            return Some(AisField::SpecialManeuvreIndicator);
        }
        if str_eq(name, "raim_flag") {
            return Some(AisField::RaimFlag);
        }
        if str_eq(name, "ais_version") {
            return Some(AisField::AisVersion);
        }
        if str_eq(name, "imo_number") {
            return Some(AisField::ImoNumber);
        }
        if str_eq(name, "type_of_ship_and_cargo_type") {
            return Some(AisField::TypeOfShipAndCargoType);
        }
        if str_eq(name, "b") {
            return Some(AisField::B);
        }
        if str_eq(name, "a") {
            return Some(AisField::A);
        }
        if str_eq(name, "c") {
            return Some(AisField::C);
        }
        if str_eq(name, "d") {
            return Some(AisField::D);
        }
        if str_eq(name, "type_of_epf_device") {
            return Some(AisField::TypeOfEpfDevice);
        }
        if str_eq(name, "eta_month") {
            return Some(AisField::EtaMonth);
        }
        if str_eq(name, "eta_day") {
            return Some(AisField::EtaDay);
        }
        if str_eq(name, "eta_hour") {
            return Some(AisField::EtaHour);
        }
        if str_eq(name, "eta_minute") {
            return Some(AisField::EtaMinute);
        }
        if str_eq(name, "maximum_present_static_draught") {
            return Some(AisField::MaximumPresentStaticDraught);
        }
        if str_eq(name, "dte") {
            return Some(AisField::Dte);
        }
        if str_eq(name, "spare") {
            return Some(AisField::Spare);
        }
        if str_eq(name, "call_sign") {
            return Some(AisField::CallSign);
        }
        if str_eq(name, "name") {
            return Some(AisField::Name);
        }
        if str_eq(name, "destination") {
            return Some(AisField::Destination);
        }
        None
    }
}

/// The stage a voyage order has reached.
#[derive(Debug, Clone, Copy, PartialEq, Eq, Structural)]
pub enum VoyageStatus {
    Unassigned,
    UnderRevision,
    RevisionSubmitted,
    RevisionAccepted,
    RevisionRefused,
    InExecution,
    Completed,
    Finished,
    Aborted,
    Unknown,
}

/// The VoyageStatus that a byte codes; a byte with no meaning gives `Unknown`.
pub open spec fn voyage_status_from_u8(v: u8) -> VoyageStatus {
    match v {
        0 => VoyageStatus::Unassigned,
        1 => VoyageStatus::UnderRevision,
        2 => VoyageStatus::RevisionSubmitted,
        3 => VoyageStatus::RevisionAccepted,
        4 => VoyageStatus::RevisionRefused,
        5 => VoyageStatus::InExecution,
        6 => VoyageStatus::Completed,
        7 => VoyageStatus::Finished,
        8 => VoyageStatus::Aborted,
        _ => VoyageStatus::Unknown,
    }
}

/// The byte that codes a VoyageStatus.
pub open spec fn voyage_status_to_u8(v: VoyageStatus) -> u8 {
    match v {
        VoyageStatus::Unassigned => 0,
        VoyageStatus::UnderRevision => 1,
        VoyageStatus::RevisionSubmitted => 2,
        VoyageStatus::RevisionAccepted => 3,
        VoyageStatus::RevisionRefused => 4,
        VoyageStatus::InExecution => 5,
        VoyageStatus::Completed => 6,
        VoyageStatus::Finished => 7,
        VoyageStatus::Aborted => 8,
        VoyageStatus::Unknown => 9,
    }
}

impl From<u8> for VoyageStatus {
    fn from(v: u8) -> (r: Self) {
        match v {
            0 => VoyageStatus::Unassigned,
            1 => VoyageStatus::UnderRevision,
            2 => VoyageStatus::RevisionSubmitted,
            3 => VoyageStatus::RevisionAccepted,
            4 => VoyageStatus::RevisionRefused,
            5 => VoyageStatus::InExecution,
            6 => VoyageStatus::Completed,
            7 => VoyageStatus::Finished,
            8 => VoyageStatus::Aborted,
            _ => VoyageStatus::Unknown,
        }
    }
}

impl FromSpecImpl<u8> for VoyageStatus {
    open spec fn obeys_from_spec() -> bool {
        true
    }

    open spec fn from_spec(v: u8) -> Self {
        voyage_status_from_u8(v)
    }
}

impl From<VoyageStatus> for u8 {
    fn from(v: VoyageStatus) -> (r: u8) {
        match v {
            VoyageStatus::Unassigned => 0,
            VoyageStatus::UnderRevision => 1,
            VoyageStatus::RevisionSubmitted => 2,
            VoyageStatus::RevisionAccepted => 3,
            VoyageStatus::RevisionRefused => 4,
            VoyageStatus::InExecution => 5,
            VoyageStatus::Completed => 6,
            VoyageStatus::Finished => 7,
            VoyageStatus::Aborted => 8,
            VoyageStatus::Unknown => 9,
        }
    }
}

impl FromSpecImpl<VoyageStatus> for u8 {
    open spec fn obeys_from_spec() -> bool {
        true
    }

    open spec fn from_spec(v: VoyageStatus) -> u8 {
        voyage_status_to_u8(v)
    }
}

/// Coding a VoyageStatus as a byte and decoding the byte gives it back.
pub proof fn lemma_voyage_status_code_roundtrip(v: VoyageStatus)
    ensures
        voyage_status_from_u8(voyage_status_to_u8(v)) == v,
{
}

/// The kind of a satellite message exchanged about a voyage order.
#[derive(Debug, Clone, Copy, PartialEq, Eq, Structural)]
pub enum SatComMessageType {
    Offer,
    Acknowledgement,
    InitialRevision,
    RevisionAcceptation,
    RevisionRefusal,
    RevisionRequest,
    ExecutingLastAgreedRevision,
    Aborting,
    NoticeOfReadiness,
    EndOfVoyage,
    Unknown,
}

/// The SatComMessageType that a byte codes; a byte with no meaning gives `Unknown`.
pub open spec fn sat_com_message_type_from_u8(v: u8) -> SatComMessageType {
    match v {
        0 => SatComMessageType::Offer,
        1 => SatComMessageType::Acknowledgement,
        2 => SatComMessageType::InitialRevision,
        3 => SatComMessageType::RevisionAcceptation,
        4 => SatComMessageType::RevisionRefusal,
        5 => SatComMessageType::RevisionRequest,
        6 => SatComMessageType::ExecutingLastAgreedRevision,
        7 => SatComMessageType::Aborting,
        8 => SatComMessageType::NoticeOfReadiness,
        9 => SatComMessageType::EndOfVoyage,
        _ => SatComMessageType::Unknown,
    }
}

/// The byte that codes a SatComMessageType.
pub open spec fn sat_com_message_type_to_u8(v: SatComMessageType) -> u8 {
    match v {
        SatComMessageType::Offer => 0,
        SatComMessageType::Acknowledgement => 1,
        SatComMessageType::InitialRevision => 2,
        SatComMessageType::RevisionAcceptation => 3,
        SatComMessageType::RevisionRefusal => 4,
        SatComMessageType::RevisionRequest => 5,
        SatComMessageType::ExecutingLastAgreedRevision => 6,
        SatComMessageType::Aborting => 7,
        SatComMessageType::NoticeOfReadiness => 8,
        SatComMessageType::EndOfVoyage => 9,
        SatComMessageType::Unknown => u8::MAX,
    }
}

impl From<u8> for SatComMessageType {
    fn from(v: u8) -> (r: Self) {
        match v {
            0 => SatComMessageType::Offer,
            1 => SatComMessageType::Acknowledgement,
            2 => SatComMessageType::InitialRevision,
            3 => SatComMessageType::RevisionAcceptation,
            4 => SatComMessageType::RevisionRefusal,
            5 => SatComMessageType::RevisionRequest,
            6 => SatComMessageType::ExecutingLastAgreedRevision,
            7 => SatComMessageType::Aborting,
            8 => SatComMessageType::NoticeOfReadiness,
            9 => SatComMessageType::EndOfVoyage,
            _ => SatComMessageType::Unknown,
        }
    }
}

impl FromSpecImpl<u8> for SatComMessageType {
    open spec fn obeys_from_spec() -> bool {
        true
    }

    open spec fn from_spec(v: u8) -> Self {
        sat_com_message_type_from_u8(v)
    }
}

impl From<SatComMessageType> for u8 {
    fn from(v: SatComMessageType) -> (r: u8) {
        match v {
            SatComMessageType::Offer => 0,
            SatComMessageType::Acknowledgement => 1,
            SatComMessageType::InitialRevision => 2,
            SatComMessageType::RevisionAcceptation => 3,
            SatComMessageType::RevisionRefusal => 4,
            SatComMessageType::RevisionRequest => 5,
            SatComMessageType::ExecutingLastAgreedRevision => 6,
            SatComMessageType::Aborting => 7,
            SatComMessageType::NoticeOfReadiness => 8,
            SatComMessageType::EndOfVoyage => 9,
            SatComMessageType::Unknown => u8::MAX,
        }
    }
}

impl FromSpecImpl<SatComMessageType> for u8 {
    open spec fn obeys_from_spec() -> bool {
        true
    }

    open spec fn from_spec(v: SatComMessageType) -> u8 {
        sat_com_message_type_to_u8(v)
    }
}

/// Coding a SatComMessageType as a byte and decoding the byte gives it back.
pub proof fn lemma_sat_com_message_type_code_roundtrip(v: SatComMessageType)
    ensures
        sat_com_message_type_from_u8(sat_com_message_type_to_u8(v)) == v,
{
}

/// The type of ship and cargo, as coded in AIS message 5.
#[derive(Debug, Clone, Copy, PartialEq, Eq, Structural)]
pub enum ShipType {
    ScientificResearch,
    TrainingShip,
    GovernmentVessel,
    Icebreaker,
    BuoyTender,
    CableLayer,
    PipeLayer,
    SpecialPurposeNoInfo,
    Fpso,
    FactoryShip,
    FishFarmSupport,
    OffshoreSupport,
    ConstructionVessel,
    Crewboat,
    SupportVesselNoInfo,
    WigAll,
    WigHazardousCatX,
    WigHazardousCatY,
    WigHazardousCatZ,
    WigHazardousCatOs,
    WigNoInfo,
    FishingVessel,
    Tug,
    LargeTug,
    Dredger,
    DiveVessel,
    MilitaryNavalAuxiliary,
    SailingVessel,
    PleasureCraftMotor,
    Trawler,
    PatrolVessel,
    HscAll,
    HscHazardousCatX,
    HscHazardousCatY,
    HscHazardousCatZ,
    HscHazardousCatOs,
    HscPassenger,
    HscRoRo,
    HscNoInfo,
    PilotBoat,
    SarVessel,
    Tugs,
    PortFishingTender,
    AntiPollutionFireVessel,
    LawEnforcement,
    LocalVessel1,
    LocalVessel2,
    MedicalTransport,
    NonBelligerentState,
    PassengerAll,
    PassengerHazardousCatX,
    PassengerHazardousCatY,
    PassengerHazardousCatZ,
    PassengerHazardousCatOs,
    PassengerCruise,
    PassengerFerry,
    PassengerExcursion,
    PassengerNoInfo,
    CargoAll,
    CargoHazardousCatX,
    CargoHazardousCatY,
    CargoHazardousCatZ,
    CargoHazardousCatOs,
    CargoBulk,
    CargoContainer,
    CargoRoRo,
    CargoLandingCraft,
    CargoNoInfo,
    TankerAll,
    TankerHazardousCatX,
    TankerHazardousCatY,
    TankerHazardousCatZ,
    TankerHazardousCatOs,
    TankerNonHazardous,
    TankerArticulatedTugBarge,
    TankerNoInfo,
    OtherAll,
    OtherHazardousCatX,
    OtherHazardousCatY,
    OtherHazardousCatZ,
    OtherHazardousCatOs,
    OtherNoInfo,
    Unknown,
}

/// The ShipType that a byte codes; a byte with no meaning gives `Unknown`.
pub open spec fn ship_type_from_u8(v: u8) -> ShipType {
    match v {
        1 => ShipType::ScientificResearch,
        2 => ShipType::TrainingShip,
        3 => ShipType::GovernmentVessel,
        4 => ShipType::Icebreaker,
        5 => ShipType::BuoyTender,
        6 => ShipType::CableLayer,
        7 => ShipType::PipeLayer,
        9 => ShipType::SpecialPurposeNoInfo,
        11 => ShipType::Fpso,
        12 => ShipType::FactoryShip,
        13 => ShipType::FishFarmSupport,
        14 => ShipType::OffshoreSupport,
        17 => ShipType::ConstructionVessel,
        18 => ShipType::Crewboat,
        19 => ShipType::SupportVesselNoInfo,
        20 => ShipType::WigAll,
        21 => ShipType::WigHazardousCatX,
        22 => ShipType::WigHazardousCatY,
        23 => ShipType::WigHazardousCatZ,
        24 => ShipType::WigHazardousCatOs,
        29 => ShipType::WigNoInfo,
        30 => ShipType::FishingVessel,
        31 => ShipType::Tug,
        32 => ShipType::LargeTug,
        33 => ShipType::Dredger,
        34 => ShipType::DiveVessel,
        35 => ShipType::MilitaryNavalAuxiliary,
        36 => ShipType::SailingVessel,
        37 => ShipType::PleasureCraftMotor,
        38 => ShipType::Trawler,
        39 => ShipType::PatrolVessel,
        40 => ShipType::HscAll,
        41 => ShipType::HscHazardousCatX,
        42 => ShipType::HscHazardousCatY,
        43 => ShipType::HscHazardousCatZ,
        44 => ShipType::HscHazardousCatOs,
        45 => ShipType::HscPassenger,
        46 => ShipType::HscRoRo,
        49 => ShipType::HscNoInfo,
        50 => ShipType::PilotBoat,
        51 => ShipType::SarVessel,
        52 => ShipType::Tugs,
        53 => ShipType::PortFishingTender,
        54 => ShipType::AntiPollutionFireVessel,
        55 => ShipType::LawEnforcement,
        56 => ShipType::LocalVessel1,
        57 => ShipType::LocalVessel2,
        58 => ShipType::MedicalTransport,
        59 => ShipType::NonBelligerentState,
        60 => ShipType::PassengerAll,
        61 => ShipType::PassengerHazardousCatX,
        62 => ShipType::PassengerHazardousCatY,
        63 => ShipType::PassengerHazardousCatZ,
        64 => ShipType::PassengerHazardousCatOs,
        65 => ShipType::PassengerCruise,
        66 => ShipType::PassengerFerry,
        67 => ShipType::PassengerExcursion,
        69 => ShipType::PassengerNoInfo,
        70 => ShipType::CargoAll,
        71 => ShipType::CargoHazardousCatX,
        72 => ShipType::CargoHazardousCatY,
        73 => ShipType::CargoHazardousCatZ,
        74 => ShipType::CargoHazardousCatOs,
        75 => ShipType::CargoBulk,
        76 => ShipType::CargoContainer,
        77 => ShipType::CargoRoRo,
        78 => ShipType::CargoLandingCraft,
        79 => ShipType::CargoNoInfo,
        80 => ShipType::TankerAll,
        81 => ShipType::TankerHazardousCatX,
        82 => ShipType::TankerHazardousCatY,
        83 => ShipType::TankerHazardousCatZ,
        84 => ShipType::TankerHazardousCatOs,
        85 => ShipType::TankerNonHazardous,
        86 => ShipType::TankerArticulatedTugBarge,
        89 => ShipType::TankerNoInfo,
        90 => ShipType::OtherAll,
        91 => ShipType::OtherHazardousCatX,
        92 => ShipType::OtherHazardousCatY,
        93 => ShipType::OtherHazardousCatZ,
        94 => ShipType::OtherHazardousCatOs,
        99 => ShipType::OtherNoInfo,
        _ => ShipType::Unknown,
    }
}

/// The byte that codes a ShipType.
pub open spec fn ship_type_to_u8(v: ShipType) -> u8 {
    match v {
        ShipType::ScientificResearch => 1,
        ShipType::TrainingShip => 2,
        ShipType::GovernmentVessel => 3,
        ShipType::Icebreaker => 4,
        ShipType::BuoyTender => 5,
        ShipType::CableLayer => 6,
        ShipType::PipeLayer => 7,
        ShipType::SpecialPurposeNoInfo => 9,
        ShipType::Fpso => 11,
        ShipType::FactoryShip => 12,
        ShipType::FishFarmSupport => 13,
        ShipType::OffshoreSupport => 14,
        ShipType::ConstructionVessel => 17,
        ShipType::Crewboat => 18,
        ShipType::SupportVesselNoInfo => 19,
        ShipType::WigAll => 20,
        ShipType::WigHazardousCatX => 21,
        ShipType::WigHazardousCatY => 22,
        ShipType::WigHazardousCatZ => 23,
        ShipType::WigHazardousCatOs => 24,
        ShipType::WigNoInfo => 29,
        ShipType::FishingVessel => 30,
        ShipType::Tug => 31,
        ShipType::LargeTug => 32,
        ShipType::Dredger => 33,
        ShipType::DiveVessel => 34,
        ShipType::MilitaryNavalAuxiliary => 35,
        ShipType::SailingVessel => 36,
        ShipType::PleasureCraftMotor => 37,
        ShipType::Trawler => 38,
        ShipType::PatrolVessel => 39,
        ShipType::HscAll => 40,
        ShipType::HscHazardousCatX => 41,
        ShipType::HscHazardousCatY => 42,
        ShipType::HscHazardousCatZ => 43,
        ShipType::HscHazardousCatOs => 44,
        ShipType::HscPassenger => 45,
        ShipType::HscRoRo => 46,
        ShipType::HscNoInfo => 49,
        ShipType::PilotBoat => 50,
        ShipType::SarVessel => 51,
        ShipType::Tugs => 52,
        ShipType::PortFishingTender => 53,
        ShipType::AntiPollutionFireVessel => 54,
        ShipType::LawEnforcement => 55,
        ShipType::LocalVessel1 => 56,
        ShipType::LocalVessel2 => 57,
        ShipType::MedicalTransport => 58,
        ShipType::NonBelligerentState => 59,
        ShipType::PassengerAll => 60,
        ShipType::PassengerHazardousCatX => 61,
        ShipType::PassengerHazardousCatY => 62,
        ShipType::PassengerHazardousCatZ => 63,
        ShipType::PassengerHazardousCatOs => 64,
        ShipType::PassengerCruise => 65,
        ShipType::PassengerFerry => 66,
        ShipType::PassengerExcursion => 67,
        ShipType::PassengerNoInfo => 69,
        ShipType::CargoAll => 70,
        ShipType::CargoHazardousCatX => 71,
        ShipType::CargoHazardousCatY => 72,
        ShipType::CargoHazardousCatZ => 73,
        ShipType::CargoHazardousCatOs => 74,
        ShipType::CargoBulk => 75,
        ShipType::CargoContainer => 76,
        ShipType::CargoRoRo => 77,
        ShipType::CargoLandingCraft => 78,
        ShipType::CargoNoInfo => 79,
        ShipType::TankerAll => 80,
        ShipType::TankerHazardousCatX => 81,
        ShipType::TankerHazardousCatY => 82,
        ShipType::TankerHazardousCatZ => 83,
        ShipType::TankerHazardousCatOs => 84,
        ShipType::TankerNonHazardous => 85,
        ShipType::TankerArticulatedTugBarge => 86,
        ShipType::TankerNoInfo => 89,
        ShipType::OtherAll => 90,
        ShipType::OtherHazardousCatX => 91,
        ShipType::OtherHazardousCatY => 92,
        ShipType::OtherHazardousCatZ => 93,
        ShipType::OtherHazardousCatOs => 94,
        ShipType::OtherNoInfo => 99,
        ShipType::Unknown => u8::MAX,
    }
}

impl From<u8> for ShipType {
    fn from(v: u8) -> (r: Self) {
        match v {
            1 => ShipType::ScientificResearch,
            2 => ShipType::TrainingShip,
            3 => ShipType::GovernmentVessel,
            4 => ShipType::Icebreaker,
            5 => ShipType::BuoyTender,
            6 => ShipType::CableLayer,
            7 => ShipType::PipeLayer,
            9 => ShipType::SpecialPurposeNoInfo,
            11 => ShipType::Fpso,
            12 => ShipType::FactoryShip,
            13 => ShipType::FishFarmSupport,
            14 => ShipType::OffshoreSupport,
            17 => ShipType::ConstructionVessel,
            18 => ShipType::Crewboat,
            19 => ShipType::SupportVesselNoInfo,
            20 => ShipType::WigAll,
            21 => ShipType::WigHazardousCatX,
            22 => ShipType::WigHazardousCatY,
            23 => ShipType::WigHazardousCatZ,
            24 => ShipType::WigHazardousCatOs,
            29 => ShipType::WigNoInfo,
            30 => ShipType::FishingVessel,
            31 => ShipType::Tug,
            32 => ShipType::LargeTug,
            33 => ShipType::Dredger,
            34 => ShipType::DiveVessel,
            35 => ShipType::MilitaryNavalAuxiliary,
            36 => ShipType::SailingVessel,
            37 => ShipType::PleasureCraftMotor,
            38 => ShipType::Trawler,
            39 => ShipType::PatrolVessel,
            40 => ShipType::HscAll,
            41 => ShipType::HscHazardousCatX,
            42 => ShipType::HscHazardousCatY,
            43 => ShipType::HscHazardousCatZ,
            44 => ShipType::HscHazardousCatOs,
            45 => ShipType::HscPassenger,
            46 => ShipType::HscRoRo,
            49 => ShipType::HscNoInfo,
            50 => ShipType::PilotBoat,
            51 => ShipType::SarVessel,
            52 => ShipType::Tugs,
            53 => ShipType::PortFishingTender,
            54 => ShipType::AntiPollutionFireVessel,
            55 => ShipType::LawEnforcement,
            56 => ShipType::LocalVessel1,
            57 => ShipType::LocalVessel2,
            58 => ShipType::MedicalTransport,
            59 => ShipType::NonBelligerentState,
            60 => ShipType::PassengerAll,
            61 => ShipType::PassengerHazardousCatX,
            62 => ShipType::PassengerHazardousCatY,
            63 => ShipType::PassengerHazardousCatZ,
            64 => ShipType::PassengerHazardousCatOs,
            65 => ShipType::PassengerCruise,
            66 => ShipType::PassengerFerry,
            67 => ShipType::PassengerExcursion,
            69 => ShipType::PassengerNoInfo,
            70 => ShipType::CargoAll,
            71 => ShipType::CargoHazardousCatX,
            72 => ShipType::CargoHazardousCatY,
            73 => ShipType::CargoHazardousCatZ,
            74 => ShipType::CargoHazardousCatOs,
            75 => ShipType::CargoBulk,
            76 => ShipType::CargoContainer,
            77 => ShipType::CargoRoRo,
            78 => ShipType::CargoLandingCraft,
            79 => ShipType::CargoNoInfo,
            80 => ShipType::TankerAll,
            81 => ShipType::TankerHazardousCatX,
            82 => ShipType::TankerHazardousCatY,
            83 => ShipType::TankerHazardousCatZ,
            84 => ShipType::TankerHazardousCatOs,
            85 => ShipType::TankerNonHazardous,
            86 => ShipType::TankerArticulatedTugBarge,
            89 => ShipType::TankerNoInfo,
            90 => ShipType::OtherAll,
            91 => ShipType::OtherHazardousCatX,
            92 => ShipType::OtherHazardousCatY,
            93 => ShipType::OtherHazardousCatZ,
            94 => ShipType::OtherHazardousCatOs,
            99 => ShipType::OtherNoInfo,
            _ => ShipType::Unknown,
        }
    }
}

impl FromSpecImpl<u8> for ShipType {
    open spec fn obeys_from_spec() -> bool {
        true
    }

    open spec fn from_spec(v: u8) -> Self {
        ship_type_from_u8(v)
    }
}

impl From<ShipType> for u8 {
    fn from(v: ShipType) -> (r: u8) {
        match v {
            ShipType::ScientificResearch => 1,
            ShipType::TrainingShip => 2,
            ShipType::GovernmentVessel => 3,
            ShipType::Icebreaker => 4,
            ShipType::BuoyTender => 5,
            ShipType::CableLayer => 6,
            ShipType::PipeLayer => 7,
            ShipType::SpecialPurposeNoInfo => 9,
            ShipType::Fpso => 11,
            ShipType::FactoryShip => 12,
            ShipType::FishFarmSupport => 13,
            ShipType::OffshoreSupport => 14,
            ShipType::ConstructionVessel => 17,
            ShipType::Crewboat => 18,
            ShipType::SupportVesselNoInfo => 19,
            ShipType::WigAll => 20,
            ShipType::WigHazardousCatX => 21,
            ShipType::WigHazardousCatY => 22,
            ShipType::WigHazardousCatZ => 23,
            ShipType::WigHazardousCatOs => 24,
            ShipType::WigNoInfo => 29,
            ShipType::FishingVessel => 30,
            ShipType::Tug => 31,
            ShipType::LargeTug => 32,
            ShipType::Dredger => 33,
            ShipType::DiveVessel => 34,
            ShipType::MilitaryNavalAuxiliary => 35,
            ShipType::SailingVessel => 36,
            ShipType::PleasureCraftMotor => 37,
            ShipType::Trawler => 38,
            ShipType::PatrolVessel => 39,
            ShipType::HscAll => 40,
            ShipType::HscHazardousCatX => 41,
            ShipType::HscHazardousCatY => 42,
            ShipType::HscHazardousCatZ => 43,
            ShipType::HscHazardousCatOs => 44,
            ShipType::HscPassenger => 45,
            ShipType::HscRoRo => 46,
            ShipType::HscNoInfo => 49,
            ShipType::PilotBoat => 50,
            ShipType::SarVessel => 51,
            ShipType::Tugs => 52,
            ShipType::PortFishingTender => 53,
            ShipType::AntiPollutionFireVessel => 54,
            ShipType::LawEnforcement => 55,
            ShipType::LocalVessel1 => 56,
            ShipType::LocalVessel2 => 57,
            ShipType::MedicalTransport => 58,
            ShipType::NonBelligerentState => 59,
            ShipType::PassengerAll => 60,
            ShipType::PassengerHazardousCatX => 61,
            ShipType::PassengerHazardousCatY => 62,
            ShipType::PassengerHazardousCatZ => 63,
            ShipType::PassengerHazardousCatOs => 64,
            ShipType::PassengerCruise => 65,
            ShipType::PassengerFerry => 66,
            ShipType::PassengerExcursion => 67,
            ShipType::PassengerNoInfo => 69,
            ShipType::CargoAll => 70,
            ShipType::CargoHazardousCatX => 71,
            ShipType::CargoHazardousCatY => 72,
            ShipType::CargoHazardousCatZ => 73,
            ShipType::CargoHazardousCatOs => 74,
            ShipType::CargoBulk => 75,
            ShipType::CargoContainer => 76,
            ShipType::CargoRoRo => 77,
            ShipType::CargoLandingCraft => 78,
            ShipType::CargoNoInfo => 79,
            ShipType::TankerAll => 80,
            ShipType::TankerHazardousCatX => 81,
            ShipType::TankerHazardousCatY => 82,
            ShipType::TankerHazardousCatZ => 83,
            ShipType::TankerHazardousCatOs => 84,
            ShipType::TankerNonHazardous => 85,
            ShipType::TankerArticulatedTugBarge => 86,
            ShipType::TankerNoInfo => 89,
            ShipType::OtherAll => 90,
            ShipType::OtherHazardousCatX => 91,
            ShipType::OtherHazardousCatY => 92,
            ShipType::OtherHazardousCatZ => 93,
            ShipType::OtherHazardousCatOs => 94,
            ShipType::OtherNoInfo => 99,
            ShipType::Unknown => u8::MAX,
        }
    }
}

impl FromSpecImpl<ShipType> for u8 {
    open spec fn obeys_from_spec() -> bool {
        true
    }

    open spec fn from_spec(v: ShipType) -> u8 {
        ship_type_to_u8(v)
    }
}

/// Coding a ShipType as a byte and decoding the byte gives it back.
pub proof fn lemma_ship_type_code_roundtrip(v: ShipType)
    ensures
        ship_type_from_u8(ship_type_to_u8(v)) == v,
{
}

/// The kind of unit on the network.
#[derive(Debug, Clone, Copy, PartialEq, Eq, Structural)]
pub enum UnitType {
    Server,
    Harbourmaster,
    Boat,
    Unkown,
}

/// The UnitType that a byte codes; a byte with no meaning gives `Unkown`.
pub open spec fn unit_type_from_u8(v: u8) -> UnitType {
    match v {
        0 => UnitType::Server,
        1 => UnitType::Harbourmaster,
        2 => UnitType::Boat,
        _ => UnitType::Unkown,
    }
}

/// The byte that codes a UnitType.
pub open spec fn unit_type_to_u8(v: UnitType) -> u8 {
    match v {
        UnitType::Server => 0,
        UnitType::Harbourmaster => 1,
        UnitType::Boat => 2,
        UnitType::Unkown => u8::MAX,
    }
}

impl From<u8> for UnitType {
    fn from(v: u8) -> (r: Self) {
        match v {
            0 => UnitType::Server,
            1 => UnitType::Harbourmaster,
            2 => UnitType::Boat,
            _ => UnitType::Unkown,
        }
    }
}

impl FromSpecImpl<u8> for UnitType {
    open spec fn obeys_from_spec() -> bool {
        true
    }

    open spec fn from_spec(v: u8) -> Self {
        unit_type_from_u8(v)
    }
}

impl From<UnitType> for u8 {
    fn from(v: UnitType) -> (r: u8) {
        match v {
            UnitType::Server => 0,
            UnitType::Harbourmaster => 1,
            UnitType::Boat => 2,
            UnitType::Unkown => u8::MAX,
        }
    }
}

impl FromSpecImpl<UnitType> for u8 {
    open spec fn obeys_from_spec() -> bool {
        true
    }

    open spec fn from_spec(v: UnitType) -> u8 {
        unit_type_to_u8(v)
    }
}

/// Coding a UnitType as a byte and decoding the byte gives it back.
pub proof fn lemma_unit_type_code_roundtrip(v: UnitType)
    ensures
        unit_type_from_u8(unit_type_to_u8(v)) == v,
{
}

/// How fast a voyage is to be sailed.
#[derive(Debug, Clone, Copy, PartialEq, Eq, Structural)]
pub enum SpeedProfile {
    Economic,
    Classic,
    Fast,
    Unknown,
}

/// The SpeedProfile that a byte codes; a byte with no meaning gives `Unknown`.
pub open spec fn speed_profile_from_u8(v: u8) -> SpeedProfile {
    match v {
        0 => SpeedProfile::Economic,
        1 => SpeedProfile::Classic,
        2 => SpeedProfile::Fast,
        _ => SpeedProfile::Unknown,
    }
}

/// The byte that codes a SpeedProfile.
pub open spec fn speed_profile_to_u8(v: SpeedProfile) -> u8 {
    match v {
        SpeedProfile::Economic => 0,
        SpeedProfile::Classic => 1,
        SpeedProfile::Fast => 2,
        SpeedProfile::Unknown => u8::MAX,
    }
}

impl From<u8> for SpeedProfile {
    fn from(v: u8) -> (r: Self) {
        match v {
            0 => SpeedProfile::Economic,
            1 => SpeedProfile::Classic,
            2 => SpeedProfile::Fast,
            _ => SpeedProfile::Unknown,
        }
    }
}

impl FromSpecImpl<u8> for SpeedProfile {
    open spec fn obeys_from_spec() -> bool {
        true
    }

    open spec fn from_spec(v: u8) -> Self {
        speed_profile_from_u8(v)
    }
}

impl From<SpeedProfile> for u8 {
    fn from(v: SpeedProfile) -> (r: u8) {
        match v {
            SpeedProfile::Economic => 0,
            SpeedProfile::Classic => 1,
            SpeedProfile::Fast => 2,
            SpeedProfile::Unknown => u8::MAX,
        }
    }
}

impl FromSpecImpl<SpeedProfile> for u8 {
    open spec fn obeys_from_spec() -> bool {
        true
    }

    open spec fn from_spec(v: SpeedProfile) -> u8 {
        speed_profile_to_u8(v)
    }
}

/// Coding a SpeedProfile as a byte and decoding the byte gives it back.
pub proof fn lemma_speed_profile_code_roundtrip(v: SpeedProfile)
    ensures
        speed_profile_from_u8(speed_profile_to_u8(v)) == v,
{
}

} // verus!
