use vstd::prelude::*;

verus! {

/// What a request for the versions of voyage orders filters on: an order,
/// a version number, either or neither.
#[derive(Debug, Clone, Copy, PartialEq, Eq, Structural)]
pub struct GetVoyageOrderVersionsFilterParams {
    pub order_id: Option<i32>,
    pub version_number: Option<i32>,
}

/// A request for a new voyage order: where to, for which kind of ship, at
/// which speed profile.
#[derive(Debug, Clone, Copy, PartialEq, Eq, Structural)]
pub struct CreateVoyageOrderPayload {
    pub destination_id: i32,
    pub ship_type: u8,
    pub speed_profile: u8,
}

/// The counts the fleet operator's statistics give.
#[derive(Debug, Clone, Copy, PartialEq, Eq, Structural)]
pub struct StatisticsResult {
    pub boats_nbr: usize,
    pub active_boats_nbr: usize,
    pub unresponding_boats_nbr: usize,
    pub orders_nbr: usize,
    pub free_orders_nbr: usize,
}

} // verus!
