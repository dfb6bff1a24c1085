use vstd::prelude::*;

verus! {

/// A connect-time header: the identity a unit presents to the coordinator.
#[derive(Clone, Copy, Debug)]
pub struct Header {
    pub key: &'static str,
    pub value: &'static str,
}

/// Name of the header that carries the declared identity.
pub const CLIENT_ID_HEADER: &'static str = "x-client-id";

/// Floor unit to coordinator: a vehicle arrived on a spot.
pub const CAR_ARRIVED_EVENT: &'static str = "car_arrived";

/// Floor unit to coordinator: a vehicle departed from a spot.
pub const CAR_DEPARTED_EVENT: &'static str = "car_departed";

/// Coordinator to a floor's group: that floor's occupancy row.
pub const FLOOR_STATE_EVENT: &'static str = "floor_state";

/// Coordinator to the console's group: the full converged snapshot.
pub const PARKING_LOT_STATE_EVENT: &'static str = "parking_lot_state";

/// Close side-signal for one floor; also the console's close command.
pub const CLOSE_FLOOR_EVENT: &'static str = "close_floor";

/// Open side-signal for one floor; also the console's open command.
pub const OPEN_FLOOR_EVENT: &'static str = "open_floor";

/// Close side-signal for the lot; also the console's close command.
pub const CLOSE_PARKING_LOT_EVENT: &'static str = "close_parking_lot";

/// Open side-signal for the lot; also the console's open command.
pub const OPEN_PARKING_LOT_EVENT: &'static str = "open_parking_lot";

/// Console to coordinator: wipe the ledger back to its fresh state.
pub const RESET_DATABASE_EVENT: &'static str = "reset_database";

} // verus!
