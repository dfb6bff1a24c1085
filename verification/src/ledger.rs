use vstd::prelude::*;
use crate::parking_lot::{
    occupied_count, occupied_indices, lemma_occupied_count_bounds,
    lemma_occupied_count_is_occupied_indices, lemma_occupied_count_zero, Floor, Spot, Vehicle,
    FLOOR_COUNT, LOT_CAPACITY, SPOTS_PER_FLOOR,
};
use crate::payloads::{
    FloorDataPayload, ParkingLotDataPayload, SpotDataPayload, VehicleDataPayload,
};

verus! {

/// Why the ledger refused an operation. Refusals are no-ops: the ledger is
/// left exactly as it was, and nothing is broadcast for them.
#[derive(PartialEq, Eq, Structural, Clone, Copy, Debug)]
pub enum LedgerError {
    /// The floor index names no floor of the garage.
    InvalidFloor,
    /// The spot index names no spot of a floor.
    InvalidSpot,
    /// An arrival was reported for a spot that already holds a vehicle.
    SpotOccupied,
    /// A departure was reported for a spot that holds no vehicle.
    SpotEmpty,
    /// The whole `i32` range of vehicle ids has been handed out.
    VehicleIdsExhausted,
}

/// The coordinator's authoritative occupancy ledger: per-floor spot rows, the
/// open/closed flags, the append-only exit history, and the counter from
/// which vehicle ids are handed out (only here, never on a floor unit).
pub struct Ledger {
    pub is_closed: bool,
    pub floors: Vec<Floor>,
    pub floors_closed: Vec<bool>,
    pub exited_vehicles: Vec<VehicleDataPayload>,
    pub next_vehicle_id: i32,
}

impl Ledger {
    pub open spec fn spot_at(self, f: int, s: int) -> Spot {
        self.floors@[f].spots@[s]
    }

    pub open spec fn spot_occupied(self, f: int, s: int) -> bool {
        self.spot_at(f, s).is_occupied()
    }

    /// Occupied spots on floor `f`.
    pub open spec fn floor_occupied(self, f: int) -> int {
        occupied_count(self.floors@[f].spots@)
    }

    /// Occupied spots over the whole garage.
    pub open spec fn total_occupied(self) -> int {
        self.floor_occupied(0) + self.floor_occupied(1) + self.floor_occupied(2)
    }

    /// Every parked vehicle has an id the counter has already passed.
    pub open spec fn parked_ids_valid(self) -> bool {
        forall|f: int, s: int|
            0 <= f < self.floors@.len() && 0 <= s < self.floors@[f].spots@.len()
                && (#[trigger] self.floors@[f].spots@[s]).parked_vehicle is Some
                ==> 1 <= self.floors@[f].spots@[s].parked_vehicle.unwrap().id
                    < self.next_vehicle_id
    }

    /// No two spots hold the same vehicle.
    pub open spec fn parked_ids_unique(self) -> bool {
        forall|f1: int, s1: int, f2: int, s2: int|
            0 <= f1 < self.floors@.len() && 0 <= s1 < self.floors@[f1].spots@.len()
                && 0 <= f2 < self.floors@.len() && 0 <= s2 < self.floors@[f2].spots@.len()
                && !(f1 == f2 && s1 == s2)
                && (#[trigger] self.floors@[f1].spots@[s1]).parked_vehicle is Some
                && (#[trigger] self.floors@[f2].spots@[s2]).parked_vehicle is Some
                ==> self.floors@[f1].spots@[s1].parked_vehicle.unwrap().id
                    != self.floors@[f2].spots@[s2].parked_vehicle.unwrap().id
    }

    /// Exit records carry an exit time and an id the counter has passed.
    pub open spec fn exited_wf(self) -> bool {
        forall|i: int|
            0 <= i < self.exited_vehicles@.len()
                ==> (#[trigger] self.exited_vehicles@[i]).exit_time is Some
                    && 1 <= self.exited_vehicles@[i].id < self.next_vehicle_id
    }

    /// A vehicle exits at most once: no id appears twice in the history.
    pub open spec fn exited_unique(self) -> bool {
        forall|i: int, j: int|
            0 <= i < self.exited_vehicles@.len() && 0 <= j < self.exited_vehicles@.len() && i != j
                ==> (#[trigger] self.exited_vehicles@[i]).id
                    != (#[trigger] self.exited_vehicles@[j]).id
    }

    /// A spot holds a vehicle only while that vehicle has no exit record.
    pub open spec fn parked_not_exited(self) -> bool {
        forall|f: int, s: int, i: int|
            0 <= f < self.floors@.len() && 0 <= s < self.floors@[f].spots@.len()
                && 0 <= i < self.exited_vehicles@.len()
                && (#[trigger] self.floors@[f].spots@[s]).parked_vehicle is Some
                ==> self.floors@[f].spots@[s].parked_vehicle.unwrap().id
                    != (#[trigger] self.exited_vehicles@[i]).id
    }

    /// Well-formed ledger: the fixed garage shape, and the vehicle-id
    /// lifecycle invariants (ids are handed out once, never reused, and a
    /// vehicle is parked or exited, never both).
    pub open spec fn wf(self) -> bool {
        &&& self.floors@.len() == FLOOR_COUNT
        &&& self.floors_closed@.len() == FLOOR_COUNT
        &&& forall|f: int|
            0 <= f < self.floors@.len() ==> (#[trigger] self.floors@[f]).wf()
                && self.floors@[f].floor_number == f
        &&& 1 <= self.next_vehicle_id
        &&& self.parked_ids_valid()
        &&& self.parked_ids_unique()
        &&& self.exited_wf()
        &&& self.exited_unique()
        &&& self.parked_not_exited()
    }

    /// The fresh garage: everything open and empty, ids starting at 1.
    pub open spec fn is_initial(self) -> bool {
        &&& !self.is_closed
        &&& forall|f: int| 0 <= f < self.floors_closed@.len() ==> !(#[trigger] self.floors_closed@[f])
        &&& forall|f: int, s: int|
            0 <= f < self.floors@.len() && 0 <= s < self.floors@[f].spots@.len()
                ==> !(#[trigger] self.floors@[f].spots@[s]).is_occupied()
        &&& forall|f: int| 0 <= f < FLOOR_COUNT ==> #[trigger] self.floor_occupied(f) == 0
        &&& self.total_occupied() == 0
        &&& self.exited_vehicles@.len() == 0
        &&& self.next_vehicle_id == 1
    }

    pub fn new() -> (r: Ledger)
        ensures
            r.wf(),
            r.is_initial(),
    {
        let mut floors: Vec<Floor> = Vec::new();
        let mut floors_closed: Vec<bool> = Vec::new();
        let mut f: usize = 0;
        while f < FLOOR_COUNT
            invariant
                f <= FLOOR_COUNT,
                floors@.len() == f,
                floors_closed@.len() == f,
                forall|k: int|
                    0 <= k < f ==> (#[trigger] floors@[k]).wf() && floors@[k].floor_number == k,
                forall|k: int| 0 <= k < f ==> !(#[trigger] floors_closed@[k]),
                forall|k: int, s: int|
                    0 <= k < f && 0 <= s < floors@[k].spots@.len()
                        ==> !(#[trigger] floors@[k].spots@[s]).is_occupied(),
            decreases FLOOR_COUNT - f,
        {
            floors.push(Floor::new(f as i32));
            floors_closed.push(false);
            f += 1;
        }
        let ledger = Ledger {
            is_closed: false,
            floors,
            floors_closed,
            exited_vehicles: Vec::new(),
            next_vehicle_id: 1,
        };
        proof {
            assert forall|g: int| 0 <= g < FLOOR_COUNT implies #[trigger] ledger.floor_occupied(g)
                == 0 by {
                lemma_occupied_count_zero(ledger.floors@[g].spots@);
            }
        }
        ledger
    }

    /// The garage shape (floor count, spot rows, numbering, categories) of
    /// `b` is that of `a`.
    pub open spec fn same_shape(a: Ledger, b: Ledger) -> bool {
        &&& b.floors@.len() == a.floors@.len()
        &&& forall|f: int|
            0 <= f < a.floors@.len() ==> (#[trigger] b.floors@[f]).floor_number
                == a.floors@[f].floor_number && b.floors@[f].spots@.len()
                == a.floors@[f].spots@.len()
    }

    /// Every spot of `b` other than `(fe, se)` is exactly as in `a`.
    pub open spec fn spots_equal_except(a: Ledger, b: Ledger, fe: int, se: int) -> bool {
        forall|f: int, s: int|
            0 <= f < a.floors@.len() && 0 <= s < a.floors@[f].spots@.len() && !(f == fe && s == se)
                ==> (#[trigger] b.floors@[f].spots@[s]) == a.floors@[f].spots@[s]
    }

    /// Why an arrival on `(floor_number, spot_number)` would be refused, if
    /// it would be.
    pub open spec fn spec_park_err(self, floor_number: i32, spot_number: i32) -> Option<
        LedgerError,
    > {
        if !(0 <= floor_number < FLOOR_COUNT as i32) {
            Some(LedgerError::InvalidFloor)
        } else if !(0 <= spot_number < SPOTS_PER_FLOOR as i32) {
            Some(LedgerError::InvalidSpot)
        } else if self.spot_occupied(floor_number as int, spot_number as int) {
            Some(LedgerError::SpotOccupied)
        } else if self.next_vehicle_id == i32::MAX {
            Some(LedgerError::VehicleIdsExhausted)
        } else {
            None
        }
    }

    /// Why a departure from `(floor_number, spot_number)` would be refused,
    /// if it would be.
    pub open spec fn spec_unpark_err(self, floor_number: i32, spot_number: i32) -> Option<
        LedgerError,
    > {
        if !(0 <= floor_number < FLOOR_COUNT as i32) {
            Some(LedgerError::InvalidFloor)
        } else if !(0 <= spot_number < SPOTS_PER_FLOOR as i32) {
            Some(LedgerError::InvalidSpot)
        } else if !self.spot_occupied(floor_number as int, spot_number as int) {
            Some(LedgerError::SpotEmpty)
        } else {
            None
        }
    }

    /// Parks a newly arrived vehicle: hands out the next id and records it on
    /// the spot. Refused — leaving the ledger untouched — exactly when the
    /// indices are out of range, the spot is already occupied, or the id
    /// space is spent.
    pub fn park_vehicle(
        &mut self,
        vehicle_entry_time: i64,
        floor_number: i32,
        spot_number: i32,
    ) -> (r: Result<i32, LedgerError>)
        requires
            old(self).wf(),
        ensures
            final(self).wf(),
            r is Err ==> *final(self) == *old(self),
            r matches Err(e) ==> old(self).spec_park_err(floor_number, spot_number) == Some(e),
            r is Ok <==> old(self).spec_park_err(floor_number, spot_number) is None,
            r matches Ok(id) ==> {
                &&& id == old(self).next_vehicle_id
                &&& final(self).next_vehicle_id == old(self).next_vehicle_id + 1
                &&& final(self).spot_at(floor_number as int, spot_number as int).parked_vehicle
                    == Some(Vehicle { id, entry_time: vehicle_entry_time })
                &&& final(self).spot_at(floor_number as int, spot_number as int).spot_number
                    == spot_number
                &&& final(self).spot_at(floor_number as int, spot_number as int).spot_type
                    == old(self).spot_at(floor_number as int, spot_number as int).spot_type
                &&& Ledger::same_shape(*old(self), *final(self))
                &&& Ledger::spots_equal_except(
                    *old(self),
                    *final(self),
                    floor_number as int,
                    spot_number as int,
                )
                &&& final(self).is_closed == old(self).is_closed
                &&& final(self).floors_closed@ == old(self).floors_closed@
                &&& final(self).exited_vehicles@ == old(self).exited_vehicles@
            },
    {
        if floor_number < 0 || floor_number >= FLOOR_COUNT as i32 {
            return Err(LedgerError::InvalidFloor);
        }
        if spot_number < 0 || spot_number >= SPOTS_PER_FLOOR as i32 {
            return Err(LedgerError::InvalidSpot);
        }
        let f_idx = floor_number as usize;
        let s_idx = spot_number as usize;
        if self.floors[f_idx].spots[s_idx].parked_vehicle.is_some() {
            return Err(LedgerError::SpotOccupied);
        }
        if self.next_vehicle_id == i32::MAX {
            return Err(LedgerError::VehicleIdsExhausted);
        }
        let id = self.next_vehicle_id;
        let spot_type = self.floors[f_idx].spots[s_idx].spot_type;
        let floor = &mut self.floors[f_idx];
        let spot = &mut floor.spots[s_idx];
        *spot = Spot {
            spot_number,
            spot_type,
            parked_vehicle: Some(Vehicle { id, entry_time: vehicle_entry_time }),
        };
        self.next_vehicle_id = id + 1;
        Ok(id)
    }

    /// Removes a departing vehicle from its spot and appends its exit record
    /// (fee data: id, entry and exit time) to the history. Refused — leaving
    /// the ledger untouched — exactly when the indices are out of range or
    /// the spot is already empty.
    pub fn unpark_vehicle(
        &mut self,
        floor_number: i32,
        spot_number: i32,
        exit_time: i64,
    ) -> (r: Result<(), LedgerError>)
        requires
            old(self).wf(),
        ensures
            final(self).wf(),
            r is Err ==> *final(self) == *old(self),
            r matches Err(e) ==> old(self).spec_unpark_err(floor_number, spot_number) == Some(e),
            r is Ok <==> old(self).spec_unpark_err(floor_number, spot_number) is None,
            r is Ok ==> {
                &&& final(self).spot_at(floor_number as int, spot_number as int).parked_vehicle
                    is None
                &&& final(self).spot_at(floor_number as int, spot_number as int).spot_number
                    == spot_number
                &&& final(self).spot_at(floor_number as int, spot_number as int).spot_type
                    == old(self).spot_at(floor_number as int, spot_number as int).spot_type
                &&& Ledger::same_shape(*old(self), *final(self))
                &&& Ledger::spots_equal_except(
                    *old(self),
                    *final(self),
                    floor_number as int,
                    spot_number as int,
                )
                &&& final(self).exited_vehicles@ == old(self).exited_vehicles@.push(
                    VehicleDataPayload {
                        id: old(self).spot_at(
                            floor_number as int,
                            spot_number as int,
                        ).parked_vehicle.unwrap().id,
                        entry_time: old(self).spot_at(
                            floor_number as int,
                            spot_number as int,
                        ).parked_vehicle.unwrap().entry_time,
                        exit_time: Some(exit_time),
                    },
                )
                &&& final(self).is_closed == old(self).is_closed
                &&& final(self).floors_closed@ == old(self).floors_closed@
                &&& final(self).next_vehicle_id == old(self).next_vehicle_id
            },
    {
        if floor_number < 0 || floor_number >= FLOOR_COUNT as i32 {
            return Err(LedgerError::InvalidFloor);
        }
        if spot_number < 0 || spot_number >= SPOTS_PER_FLOOR as i32 {
            return Err(LedgerError::InvalidSpot);
        }
        let f_idx = floor_number as usize;
        let s_idx = spot_number as usize;
        let vehicle = match self.floors[f_idx].spots[s_idx].parked_vehicle {
            Some(vehicle) => vehicle,
            None => {
                return Err(LedgerError::SpotEmpty);
            },
        };
        let spot_type = self.floors[f_idx].spots[s_idx].spot_type;
        let floor = &mut self.floors[f_idx];
        let spot = &mut floor.spots[s_idx];
        *spot = Spot { spot_number, spot_type, parked_vehicle: None };
        self.exited_vehicles.push(
            VehicleDataPayload {
                id: vehicle.id,
                entry_time: vehicle.entry_time,
                exit_time: Some(exit_time),
            },
        );
        Ok(())
    }

    /// Whether every spot of the floor is occupied; `false` for an index that
    /// names no floor (an empty row of spots).
    pub fn floor_is_full(&self, floor_number: i32) -> (r: bool)
        requires
            self.wf(),
        ensures
            r == (0 <= floor_number < FLOOR_COUNT as i32 && self.floor_occupied(floor_number as int)
                >= SPOTS_PER_FLOOR as int),
    {
        if floor_number < 0 || floor_number >= FLOOR_COUNT as i32 {
            return false;
        }
        let count = self.floors[floor_number as usize].count_occupied();
        count >= SPOTS_PER_FLOOR
    }

    /// Whether the whole garage is at capacity.
    pub fn parking_lot_is_full(&self) -> (r: bool)
        requires
            self.wf(),
        ensures
            r == (self.total_occupied() >= LOT_CAPACITY as int),
    {
        proof {
            lemma_occupied_count_bounds(self.floors@[0].spots@);
            lemma_occupied_count_bounds(self.floors@[1].spots@);
            lemma_occupied_count_bounds(self.floors@[2].spots@);
        }
        let count = self.floors[0].count_occupied() + self.floors[1].count_occupied()
            + self.floors[2].count_occupied();
        count >= LOT_CAPACITY
    }

    pub fn is_floor_closed(&self, floor_number: i32) -> (r: Result<bool, LedgerError>)
        requires
            self.wf(),
        ensures
            r matches Ok(c) ==> 0 <= floor_number < FLOOR_COUNT as i32 && c
                == self.floors_closed@[floor_number as int],
            r is Err <==> !(0 <= floor_number < FLOOR_COUNT as i32),
            r matches Err(e) ==> e == LedgerError::InvalidFloor,
    {
        if floor_number < 0 || floor_number >= FLOOR_COUNT as i32 {
            return Err(LedgerError::InvalidFloor);
        }
        Ok(self.floors_closed[floor_number as usize])
    }

    pub fn is_parking_lot_closed(&self) -> (r: bool)
        ensures
            r == self.is_closed,
    {
        self.is_closed
    }

    /// Marks a floor closed (an operator override, or the capacity policy).
    pub fn close_floor(&mut self, floor_number: i32) -> (r: Result<(), LedgerError>)
        requires
            old(self).wf(),
        ensures
            final(self).wf(),
            r is Err ==> *final(self) == *old(self),
            r is Err <==> !(0 <= floor_number < FLOOR_COUNT as i32),
            r matches Err(e) ==> e == LedgerError::InvalidFloor,
            r is Ok ==> final(self).floors_closed@ == old(self).floors_closed@.update(
                floor_number as int,
                true,
            ),
            r is Ok ==> Ledger::only_floor_flags_changed(*old(self), *final(self)),
    {
        if floor_number < 0 || floor_number >= FLOOR_COUNT as i32 {
            return Err(LedgerError::InvalidFloor);
        }
        let flag = &mut self.floors_closed[floor_number as usize];
        *flag = true;
        Ok(())
    }

    /// Marks a floor open again.
    pub fn open_floor(&mut self, floor_number: i32) -> (r: Result<(), LedgerError>)
        requires
            old(self).wf(),
        ensures
            final(self).wf(),
            r is Err ==> *final(self) == *old(self),
            r is Err <==> !(0 <= floor_number < FLOOR_COUNT as i32),
            r matches Err(e) ==> e == LedgerError::InvalidFloor,
            r is Ok ==> final(self).floors_closed@ == old(self).floors_closed@.update(
                floor_number as int,
                false,
            ),
            r is Ok ==> Ledger::only_floor_flags_changed(*old(self), *final(self)),
    {
        if floor_number < 0 || floor_number >= FLOOR_COUNT as i32 {
            return Err(LedgerError::InvalidFloor);
        }
        let flag = &mut self.floors_closed[floor_number as usize];
        *flag = false;
        Ok(())
    }

    /// Everything but the per-floor closed flags is exactly as before.
    pub open spec fn only_floor_flags_changed(a: Ledger, b: Ledger) -> bool {
        &&& b.floors@ == a.floors@
        &&& b.is_closed == a.is_closed
        &&& b.exited_vehicles@ == a.exited_vehicles@
        &&& b.next_vehicle_id == a.next_vehicle_id
        &&& b.floors_closed@.len() == a.floors_closed@.len()
    }

    /// Everything but the lot-level closed flag is exactly as before.
    pub open spec fn only_lot_flag_changed(a: Ledger, b: Ledger) -> bool {
        &&& b.floors@ == a.floors@
        &&& b.floors_closed@ == a.floors_closed@
        &&& b.exited_vehicles@ == a.exited_vehicles@
        &&& b.next_vehicle_id == a.next_vehicle_id
    }

    /// Marks the whole lot closed.
    pub fn close_parking_lot(&mut self)
        requires
            old(self).wf(),
        ensures
            final(self).wf(),
            final(self).is_closed,
            Ledger::only_lot_flag_changed(*old(self), *final(self)),
    {
        self.is_closed = true;
    }

    /// Marks the whole lot open again.
    pub fn open_parking_lot(&mut self)
        requires
            old(self).wf(),
        ensures
            final(self).wf(),
            !final(self).is_closed,
            Ledger::only_lot_flag_changed(*old(self), *final(self)),
    {
        self.is_closed = false;
    }

    /// A copy of one floor's row of spots, as the coordinator reports it.
    pub fn get_floor(&self, floor_number: i32) -> (r: Result<Floor, LedgerError>)
        requires
            self.wf(),
        ensures
            r is Err <==> !(0 <= floor_number < FLOOR_COUNT as i32),
            r matches Err(e) ==> e == LedgerError::InvalidFloor,
            r matches Ok(floor) ==> floor.floor_number == floor_number && floor.spots@
                == self.floors@[floor_number as int].spots@,
    {
        if floor_number < 0 || floor_number >= FLOOR_COUNT as i32 {
            return Err(LedgerError::InvalidFloor);
        }
        let source = &self.floors[floor_number as usize];
        let mut spots: Vec<Spot> = Vec::new();
        let mut j: usize = 0;
        while j < source.spots.len()
            invariant
                j <= source.spots@.len(),
                spots@ == source.spots@.take(j as int),
            decreases source.spots@.len() - j,
        {
            proof {
                assert(source.spots@.take(j + 1) =~= source.spots@.take(j as int).push(
                    source.spots@[j as int],
                ));
            }
            spots.push(source.spots[j]);
            j += 1;
        }
        proof {
            assert(source.spots@.take(source.spots@.len() as int) =~= source.spots@);
        }
        Ok(Floor { floor_number, spots })
    }

    /// The spot a floor unit's event names, with whatever vehicle it holds.
    pub fn get_spot(&self, floor_number: i32, spot_number: i32) -> (r: Result<Spot, LedgerError>)
        requires
            self.wf(),
        ensures
            r matches Ok(spot) ==> 0 <= floor_number < FLOOR_COUNT as i32 && 0 <= spot_number
                < SPOTS_PER_FLOOR as i32 && spot == self.spot_at(
                floor_number as int,
                spot_number as int,
            ),
            r is Err <==> !(0 <= floor_number < FLOOR_COUNT as i32 && 0 <= spot_number
                < SPOTS_PER_FLOOR as i32),
            r matches Err(e) ==> (e == LedgerError::InvalidFloor <==> !(0 <= floor_number
                < FLOOR_COUNT as i32)) && (e == LedgerError::InvalidSpot <==> (0 <= floor_number
                < FLOOR_COUNT as i32 && !(0 <= spot_number < SPOTS_PER_FLOOR as i32))),
    {
        if floor_number < 0 || floor_number >= FLOOR_COUNT as i32 {
            return Err(LedgerError::InvalidFloor);
        }
        if spot_number < 0 || spot_number >= SPOTS_PER_FLOOR as i32 {
            return Err(LedgerError::InvalidSpot);
        }
        Ok(self.floors[floor_number as usize].spots[spot_number as usize])
    }

    /// The exit history, most recent exit first.
    pub fn get_exited_vehicles(&self) -> (r: Vec<VehicleDataPayload>)
        ensures
            r@ == self.exited_vehicles@.reverse(),
    {
        let mut out: Vec<VehicleDataPayload> = Vec::new();
        let mut i: usize = self.exited_vehicles.len();
        while i > 0
            invariant
                i <= self.exited_vehicles@.len(),
                out@.len() == self.exited_vehicles@.len() - i,
                forall|k: int|
                    0 <= k < out@.len() ==> #[trigger] out@[k] == self.exited_vehicles@[
                        self.exited_vehicles@.len() - 1 - k
                    ],
            decreases i,
        {
            i -= 1;
            out.push(self.exited_vehicles[i]);
        }
        proof {
            assert(out@ =~= self.exited_vehicles@.reverse());
        }
        out
    }

    /// The payload `p` is exactly the converged snapshot of ledger `l`:
    /// same flags, same occupancy spot by spot, same exit history (most
    /// recent first). This is what `parking_lot_state` broadcasts carry.
    pub open spec fn spec_lot_state_of(l: Ledger, p: ParkingLotDataPayload) -> bool {
        &&& p.is_closed == l.is_closed
        &&& p.floors@.len() == FLOOR_COUNT
        &&& forall|f: int|
            0 <= f < p.floors@.len() ==> (#[trigger] p.floors@[f]).is_closed
                == l.floors_closed@[f] && p.floors@[f].spots@.len() == l.floors@[f].spots@.len()
        &&& forall|f: int, s: int|
            0 <= f < p.floors@.len() && 0 <= s < p.floors@[f].spots@.len()
                ==> (#[trigger] p.floors@[f].spots@[s]).spot_type
                    == l.spot_at(f, s).spot_type.spec_code()
                    && p.floors@[f].spots@[s].parked_vehicle == match l.spot_at(
                    f,
                    s,
                ).parked_vehicle {
                    Some(v) => Some(
                        VehicleDataPayload {
                            id: v.id,
                            entry_time: v.entry_time,
                            exit_time: None,
                        },
                    ),
                    None => None,
                }
        &&& p.exited_vehicles@ == l.exited_vehicles@.reverse()
    }

    /// The full converged snapshot: flags, per-spot occupancy, exit history.
    pub fn get_parking_lot_state(&self) -> (r: ParkingLotDataPayload)
        requires
            self.wf(),
        ensures
            Ledger::spec_lot_state_of(*self, r),
            r.wf_shape(),
    {
        let mut floors: Vec<FloorDataPayload> = Vec::new();
        let mut f: usize = 0;
        while f < FLOOR_COUNT
            invariant
                self.wf(),
                f <= FLOOR_COUNT,
                floors@.len() == f,
                forall|k: int|
                    0 <= k < f ==> (#[trigger] floors@[k]).is_closed == self.floors_closed@[k]
                        && floors@[k].spots@.len() == self.floors@[k].spots@.len(),
                forall|k: int, s: int|
                    0 <= k < f && 0 <= s < floors@[k].spots@.len()
                        ==> (#[trigger] floors@[k].spots@[s]).spot_type == self.spot_at(
                        k,
                        s,
                    ).spot_type.spec_code() && floors@[k].spots@[s].parked_vehicle == match self
                        .spot_at(k, s).parked_vehicle {
                        Some(v) => Some(
                            VehicleDataPayload {
                                id: v.id,
                                entry_time: v.entry_time,
                                exit_time: None,
                            },
                        ),
                        None => None,
                    },
            decreases FLOOR_COUNT - f,
        {
            let source = &self.floors[f];
            let mut spots: Vec<SpotDataPayload> = Vec::new();
            let mut s: usize = 0;
            while s < source.spots.len()
                invariant
                    s <= source.spots@.len(),
                    spots@.len() == s,
                    forall|k: int|
                        0 <= k < s ==> (#[trigger] spots@[k]).spot_type
                            == source.spots@[k].spot_type.spec_code() && spots@[k].parked_vehicle
                            == match source.spots@[k].parked_vehicle {
                            Some(v) => Some(
                                VehicleDataPayload {
                                    id: v.id,
                                    entry_time: v.entry_time,
                                    exit_time: None,
                                },
                            ),
                            None => None,
                        },
                decreases source.spots@.len() - s,
            {
                let spot = &source.spots[s];
                let parked_vehicle = match spot.parked_vehicle {
                    Some(v) => Some(
                        VehicleDataPayload {
                            id: v.id,
                            entry_time: v.entry_time,
                            exit_time: None,
                        },
                    ),
                    None => None,
                };
                spots.push(SpotDataPayload { spot_type: spot.spot_type.to_code(), parked_vehicle });
                s += 1;
            }
            floors.push(
                FloorDataPayload { spots, is_closed: self.floors_closed[f] },
            );
            f += 1;
        }
        ParkingLotDataPayload {
            floors,
            exited_vehicles: self.get_exited_vehicles(),
            is_closed: self.is_closed,
        }
    }

    /// Returns the garage to its fresh state in one stroke: every spot
    /// empty, every floor and the lot open, the exit history erased, the id
    /// counter back at its start.
    pub fn reset_parking_lot(&mut self)
        requires
            old(self).wf(),
        ensures
            final(self).wf(),
            final(self).is_initial(),
    {
        let fresh = Ledger::new();
        *self = fresh;
    }
}

/// In any well-formed ledger, a floor's occupied count is exactly the number
/// of its non-empty spots, never above the spots per floor, and the garage
/// total never above the lot capacity. Every ledger the operations produce
/// is well-formed, so this holds along every event sequence.
pub proof fn lemma_ledger_occupancy_bounds(l: Ledger)
    requires
        l.wf(),
    ensures
        forall|f: int|
            0 <= f < FLOOR_COUNT ==> #[trigger] l.floor_occupied(f) == occupied_indices(
                l.floors@[f].spots@,
            ).len(),
        forall|f: int|
            0 <= f < FLOOR_COUNT ==> 0 <= #[trigger] l.floor_occupied(f) <= SPOTS_PER_FLOOR as int,
        0 <= l.total_occupied() <= LOT_CAPACITY as int,
{
    assert forall|f: int|
        0 <= f < FLOOR_COUNT implies #[trigger] l.floor_occupied(f) == occupied_indices(
        l.floors@[f].spots@,
    ).len() && 0 <= l.floor_occupied(f) <= SPOTS_PER_FLOOR as int by {
        lemma_occupied_count_bounds(l.floors@[f].spots@);
        lemma_occupied_count_is_occupied_indices(l.floors@[f].spots@);
    }
    assert(l.floor_occupied(0) + l.floor_occupied(1) + l.floor_occupied(2) <= LOT_CAPACITY as int);
}

} // verus!
