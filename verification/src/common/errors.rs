use vstd::prelude::*;
use std::time::SystemTimeError;
use vstd::std_specs::convert::FromSpecImpl;

verus! {

/// The error of std's clock when a time lies before the epoch.
#[verifier::external_type_specification]
#[verifier::external_body]
pub struct ExSystemTimeError(SystemTimeError);

/// Errors of the AIS clock.
#[derive(Debug)]
pub enum ClockError {
    SystemTime(SystemTimeError),
    SlotOvershoot,
    /// The system clock cannot be read as a time after the Unix epoch.
    Unreadable,
}

/// Errors of the bit packer.
#[derive(Debug, Clone, Copy, PartialEq, Eq, Structural)]
pub enum BitPackerError {
    IndexOutOfBounds,
}

/// Errors when the data of a boat cannot be read.
#[derive(Debug, Clone, Copy, PartialEq, Eq, Structural)]
pub enum BoatInfoError {
    StaticDataPoisoned,
    VoyageDataPoisoned,
    NavigationDataPoisoned,
}

/// Errors when the slot map cannot be read.
#[derive(Debug, Clone, Copy, PartialEq, Eq, Structural)]
pub enum SlotsMapError {
    SlotsMapPoisoned,
    /// The current slot was needed and the system clock cannot be read.
    ClockUnreadable,
}

/// Errors of an AIS communication state.
#[derive(Debug, Clone, Copy, PartialEq, Eq, Structural)]
pub enum CommunicationStateError {
    NoSotdmaTimeout,
    NoSotdmaSlotOffset,
    NoUtcHour,
    NoUtcMinute,
    NoItdmaSlotNumber,
    NoSotdmaReceivedStations,
    NoItdmaKeepFlag,
    NoItdmaSlotIncrement,
    NoItdmaNumberOfSlots,
    UnkownSotdmaTimeout,
    UnknownMessageType,
    BitPacker(BitPackerError),
    /// The time of the clock was needed and the system clock cannot be read.
    ClockUnreadable,
}

/// Errors of an AIS message.
#[derive(Debug, Clone, Copy, PartialEq, Eq, Structural)]
pub enum AisMessageError {
    MessageTypeNotImplemented,
    UnkownSotdmaTimeout,
    CrcMismatch,
    NoCommunicationState,
    BitPacker(BitPackerError),
    CommunicationState(CommunicationStateError),
    BoatInfo(BoatInfoError),
}

/// Errors of the AIS link of a boat or of the harbourmaster.
#[derive(Debug)]
pub enum AisError {
    SelfEmittedMessage,
    NoFreeSlot,
    NoOwnedSlot,
    NoValidSlotSelection,
    SotdmaInitFailed,
    CommunicationState(CommunicationStateError),
    AisMessage(AisMessageError),
    Clock(ClockError),
    BoatInfo(BoatInfoError),
    SlotsMap(SlotsMapError),
    BoatsRegistry(BoatsRegistryError),
    SendError,
}

/// Errors of the board computer.
#[derive(Debug, Clone, Copy, PartialEq, Eq, Structural)]
pub enum BoardComputerError {
    NoVoyageOrder,
    NoVoyageOrderRevision,
    SendError,
    BoatInfo(BoatInfoError),
}

/// Errors of a voyage order.
#[derive(Debug, Clone, Copy, PartialEq, Eq, Structural)]
pub enum VoyageOrderError {
    MalformedVoyageOrder,
    BitPacker(BitPackerError),
}

/// Errors of a satellite message.
#[derive(Debug, Clone, Copy, PartialEq, Eq, Structural)]
pub enum SatComMessageError {
    UnknownSatComMessageType,
    BitPacker(BitPackerError),
    VoyageOrder(VoyageOrderError),
}

/// Errors of the satellite link.
#[derive(Debug, Clone, Copy, PartialEq, Eq, Structural)]
pub enum SatComError {
    UnknownMessageType,
    SatComMessage(SatComMessageError),
}

/// Errors when the registry of clients cannot be read.
#[derive(Debug, Clone, Copy, PartialEq, Eq, Structural)]
pub enum ClientsRegistryError {
    ClientsRegistryPoisoned,
}

/// Errors of the registry of boats.
#[derive(Debug, Clone, Copy, PartialEq, Eq, Structural)]
pub enum BoatsRegistryError {
    UnkownMmsi,
    MmsiAlreadyRegistered,
    BoatInfo(BoatInfoError),
}

/// Errors of a radio frequency relay.
#[derive(Debug, Clone, Copy, PartialEq, Eq, Structural)]
pub enum RadioFrequencyError {
    SendError,
    ClientsRegistry(ClientsRegistryError),
    BitPacker(BitPackerError),
}

/// Errors of a GPS reply.
#[derive(Debug, Clone, Copy, PartialEq, Eq, Structural)]
pub enum GpsError {
    MalformedResponse,
    BitPacker(BitPackerError),
}

impl From<BitPackerError> for CommunicationStateError {
    fn from(e: BitPackerError) -> (r: Self) {
        CommunicationStateError::BitPacker(e)
    }
}

impl FromSpecImpl<BitPackerError> for CommunicationStateError {
    open spec fn obeys_from_spec() -> bool {
        true
    }

    open spec fn from_spec(e: BitPackerError) -> Self {
        CommunicationStateError::BitPacker(e)
    }
}

impl From<BitPackerError> for AisMessageError {
    fn from(e: BitPackerError) -> (r: Self) {
        AisMessageError::BitPacker(e)
    }
}

impl FromSpecImpl<BitPackerError> for AisMessageError {
    open spec fn obeys_from_spec() -> bool {
        true
    }

    open spec fn from_spec(e: BitPackerError) -> Self {
        AisMessageError::BitPacker(e)
    }
}

impl From<CommunicationStateError> for AisMessageError {
    fn from(e: CommunicationStateError) -> (r: Self) {
        AisMessageError::CommunicationState(e)
    }
}

impl FromSpecImpl<CommunicationStateError> for AisMessageError {
    open spec fn obeys_from_spec() -> bool {
        true
    }

    open spec fn from_spec(e: CommunicationStateError) -> Self {
        AisMessageError::CommunicationState(e)
    }
}

impl From<BoatInfoError> for AisMessageError {
    fn from(e: BoatInfoError) -> (r: Self) {
        AisMessageError::BoatInfo(e)
    }
}

impl FromSpecImpl<BoatInfoError> for AisMessageError {
    open spec fn obeys_from_spec() -> bool {
        true
    }

    open spec fn from_spec(e: BoatInfoError) -> Self {
        AisMessageError::BoatInfo(e)
    }
}

impl From<BitPackerError> for VoyageOrderError {
    fn from(e: BitPackerError) -> (r: Self) {
        VoyageOrderError::BitPacker(e)
    }
}

impl FromSpecImpl<BitPackerError> for VoyageOrderError {
    open spec fn obeys_from_spec() -> bool {
        true
    }

    open spec fn from_spec(e: BitPackerError) -> Self {
        VoyageOrderError::BitPacker(e)
    }
}

impl From<BitPackerError> for SatComMessageError {
    fn from(e: BitPackerError) -> (r: Self) {
        SatComMessageError::BitPacker(e)
    }
}

impl FromSpecImpl<BitPackerError> for SatComMessageError {
    open spec fn obeys_from_spec() -> bool {
        true
    }

    open spec fn from_spec(e: BitPackerError) -> Self {
        SatComMessageError::BitPacker(e)
    }
}

impl From<VoyageOrderError> for SatComMessageError {
    fn from(e: VoyageOrderError) -> (r: Self) {
        SatComMessageError::VoyageOrder(e)
    }
}

impl FromSpecImpl<VoyageOrderError> for SatComMessageError {
    open spec fn obeys_from_spec() -> bool {
        true
    }

    open spec fn from_spec(e: VoyageOrderError) -> Self {
        SatComMessageError::VoyageOrder(e)
    }
}

impl From<SatComMessageError> for SatComError {
    fn from(e: SatComMessageError) -> (r: Self) {
        SatComError::SatComMessage(e)
    }
}

impl FromSpecImpl<SatComMessageError> for SatComError {
    open spec fn obeys_from_spec() -> bool {
        true
    }

    open spec fn from_spec(e: SatComMessageError) -> Self {
        SatComError::SatComMessage(e)
    }
}

impl From<BoatInfoError> for BoatsRegistryError {
    fn from(e: BoatInfoError) -> (r: Self) {
        BoatsRegistryError::BoatInfo(e)
    }
}

impl FromSpecImpl<BoatInfoError> for BoatsRegistryError {
    open spec fn obeys_from_spec() -> bool {
        true
    }

    open spec fn from_spec(e: BoatInfoError) -> Self {
        BoatsRegistryError::BoatInfo(e)
    }
}

impl From<ClientsRegistryError> for RadioFrequencyError {
    fn from(e: ClientsRegistryError) -> (r: Self) {
        RadioFrequencyError::ClientsRegistry(e)
    }
}

impl FromSpecImpl<ClientsRegistryError> for RadioFrequencyError {
    open spec fn obeys_from_spec() -> bool {
        true
    }

    open spec fn from_spec(e: ClientsRegistryError) -> Self {
        RadioFrequencyError::ClientsRegistry(e)
    }
}

impl From<BitPackerError> for RadioFrequencyError {
    fn from(e: BitPackerError) -> (r: Self) {
        RadioFrequencyError::BitPacker(e)
    }
}

impl FromSpecImpl<BitPackerError> for RadioFrequencyError {
    open spec fn obeys_from_spec() -> bool {
        true
    }

    open spec fn from_spec(e: BitPackerError) -> Self {
        RadioFrequencyError::BitPacker(e)
    }
}

impl From<BitPackerError> for GpsError {
    fn from(e: BitPackerError) -> (r: Self) {
        GpsError::BitPacker(e)
    }
}

impl FromSpecImpl<BitPackerError> for GpsError {
    open spec fn obeys_from_spec() -> bool {
        true
    }

    open spec fn from_spec(e: BitPackerError) -> Self {
        GpsError::BitPacker(e)
    }
}

pub type ClockResult<T> = Result<T, ClockError>;
pub type BitPackerResult<T> = Result<T, BitPackerError>;
pub type AisResult<T> = Result<T, AisError>;
pub type BoardComputerResult<T> = Result<T, BoardComputerError>;
pub type AisMessageResult<T> = Result<T, AisMessageError>;
pub type CommunicationStateResult<T> = Result<T, CommunicationStateError>;
pub type VoyageOrderResult<T> = Result<T, VoyageOrderError>;
pub type SatComResult<T> = Result<T, SatComError>;
pub type SatComMessageResult<T> = Result<T, SatComMessageError>;
pub type ClientsRegistryResult<T> = Result<T, ClientsRegistryError>;
pub type BoatsRegistryResult<T> = Result<T, BoatsRegistryError>;
pub type RadioFrequencyResult<T> = Result<T, RadioFrequencyError>;
pub type BoatInfoResult<T> = Result<T, BoatInfoError>;
pub type SlotsMapResult<T> = Result<T, SlotsMapError>;
pub type GpsResult<T> = Result<T, GpsError>;

} // verus!
