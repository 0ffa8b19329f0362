//! Verified core of an autonomous maritime platform: bit-level packing of
//! AIS and satellite messages, the AIS slot map and a boat's SOTDMA
//! schedule, voyage orders and the protocol that hands them to boats, the
//! data a boat broadcasts about itself and the integer parts of steering.

pub mod common;
pub mod bitpacker;
pub mod voyage_order;
pub mod satcom_message;
pub mod slot;
pub mod slots_map;
pub mod boat_info;
pub mod ais_message;
pub mod voyage;
pub mod boats_registry;
pub mod ais_reception;
pub mod fms;
pub mod board_computer;
pub mod sotdma;
pub mod navigation;
pub mod antenna;
pub mod fleet_api;
pub mod relay;
