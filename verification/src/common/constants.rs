use vstd::prelude::*;
use crate::common::types::AisField;

verus! {

/// AIS slots per minute on each channel.
pub const SLOTS_PER_MINUTE: u16 = 2250;

/// AIS message types whose communication state is SOTDMA, in increasing order.
pub const SOTDMA_CS_MSGS: [u8; 7] = [1, 2, 4, 9, 11, 18, 26];

/// AIS message types whose communication state is ITDMA, in increasing order.
pub const ITDMA_CS_MSGS: [u8; 4] = [3, 9, 18, 26];

/// AIS message types without a communication state, in increasing order.
pub const NO_CS_MSGS: [u8; 19] = [
    5,
    6,
    7,
    8,
    10,
    12,
    13,
    14,
    15,
    16,
    17,
    19,
    20,
    21,
    22,
    23,
    24,
    25,
    27,
];

/// AIS message types that are decoded and built, in increasing order.
pub const IMPLEMENTED_MSGS: [u8; 4] = [1, 2, 3, 5];

/// The fields of a position report (types 1 to 3), from the least
/// significant bits up.
pub const MSG123_FIELDS: [AisField; 13] = [
    AisField::Mmsi,
    AisField::NavigationalStatus,
    AisField::RateOfTurn,
    AisField::SpeedOverGround,
    AisField::PositionAccuracy,
    AisField::Longitude,
    AisField::Latitude,
    AisField::CourseOverGround,
    AisField::TrueHeading,
    AisField::TimeStamp,
    AisField::SpecialManeuvreIndicator,
    AisField::Spare,
    AisField::RaimFlag,
];

/// The fields of a static and voyage report (type 5), from the least
/// significant bits up.
pub const MSG5_FIELDS: [AisField; 19] = [
    AisField::Mmsi,
    AisField::AisVersion,
    AisField::ImoNumber,
    AisField::CallSign,
    AisField::Name,
    AisField::TypeOfShipAndCargoType,
    AisField::A,
    AisField::B,
    AisField::C,
    AisField::D,
    AisField::TypeOfEpfDevice,
    AisField::EtaMinute,
    AisField::EtaHour,
    AisField::EtaDay,
    AisField::EtaMonth,
    AisField::MaximumPresentStaticDraught,
    AisField::Destination,
    AisField::Dte,
    AisField::Spare,
];

pub const C87B_TO_SERVER_PORT: u16 = 4444;

pub const C87B_FROM_SERVER_PORT: u16 = 5555;

pub const C88B_TO_SERVER_PORT: u16 = 6666;

pub const C88B_FROM_SERVER_PORT: u16 = 7777;

pub const GPS_TO_SERVER_PORT: u16 = 8888;

pub const GPS_FROM_SERVER_PORT: u16 = 9999;

pub const SATCOM_TO_SERVER_PORT: u16 = 8989;

pub const SATCOM_FROM_SERVER_PORT: u16 = 9898;

/// The MMSI of the harbourmaster: thirty set bits.
pub const HARBOURMASTER_MMSI: u32 = 0x3FFF_FFFF;

pub const FMS_UPDATE_SECS_INTERVAL: u64 = 30;

} // verus!
