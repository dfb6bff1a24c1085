use vstd::prelude::*;
use crate::parking_lot::{FLOOR_COUNT, SPOTS_PER_FLOOR};

verus! {

/// Body of a `car_arrived` / `car_departed` event: which spot changed and
/// when. The floor itself is derived from the sender's registered identity.
#[derive(PartialEq, Eq, Structural, Clone, Copy, Debug)]
pub struct ParkingSpaceModifiedPayload {
    pub parking_space: i32,
    pub timestamp: i64,
}

/// A vehicle as reported to the console: still parked (`exit_time` is `None`)
/// or already gone.
#[derive(Clone, Copy, Debug)]
pub struct VehicleDataPayload {
    pub id: i32,
    pub entry_time: i64,
    pub exit_time: Option<i64>,
}

/// Whole minutes between entry and exit; times are epoch seconds, so they are
/// non-negative and exit never precedes entry.
pub open spec fn spec_fee_tenths(entry_time: i64, exit_time: i64) -> int {
    (exit_time - entry_time) / 60
}

impl VehicleDataPayload {
    /// The exit time this record is charged to: its own, or `now` while the
    /// vehicle is still parked.
    pub open spec fn spec_charged_exit(self, now: i64) -> i64 {
        match self.exit_time {
            Some(exit_time) => exit_time,
            None => now,
        }
    }

    /// Whether the fee of this record is meaningful: timestamps are epoch
    /// seconds and the charged interval is not negative.
    pub open spec fn spec_chargeable(self, now: i64) -> bool {
        0 <= self.entry_time <= self.spec_charged_exit(now)
    }

    pub fn is_chargeable(&self, now: i64) -> (r: bool)
        ensures
            r == self.spec_chargeable(now),
    {
        let exit_time = match self.exit_time {
            Some(exit_time) => exit_time,
            None => now,
        };
        0 <= self.entry_time && self.entry_time <= exit_time
    }

    /// Parking fee in tenths of a currency unit: one tenth per whole minute
    /// between entry and exit (truncating, so 59 seconds cost nothing).
    pub fn fee_tenths(&self, now: i64) -> (r: i64)
        requires
            self.spec_chargeable(now),
        ensures
            r == spec_fee_tenths(self.entry_time, self.spec_charged_exit(now)),
            0 <= r,
    {
        let exit_time = match self.exit_time {
            Some(exit_time) => exit_time,
            None => now,
        };
        (exit_time - self.entry_time) / 60
    }
}

/// One spot as reported to the console: its category code and the parked
/// vehicle, if any.
#[derive(Clone, Debug)]
pub struct SpotDataPayload {
    pub spot_type: i32,
    pub parked_vehicle: Option<VehicleDataPayload>,
}

impl SpotDataPayload {
    /// An empty spot of the given category.
    pub fn new(spot_type: i32) -> (r: SpotDataPayload)
        ensures
            r.spot_type == spot_type,
            r.parked_vehicle is None,
    {
        SpotDataPayload { spot_type, parked_vehicle: None }
    }
}

/// One floor as reported to the console.
#[derive(Clone, Debug)]
pub struct FloorDataPayload {
    pub spots: Vec<SpotDataPayload>,
    pub is_closed: bool,
}

impl FloorDataPayload {
    /// An open floor with the full row of empty spots, all of the normal
    /// category; the console starts from this before the first snapshot.
    pub fn new() -> (r: FloorDataPayload)
        ensures
            !r.is_closed,
            r.spots@.len() == SPOTS_PER_FLOOR,
            forall|j: int|
                0 <= j < r.spots@.len() ==> (#[trigger] r.spots@[j]).spot_type == 0
                    && r.spots@[j].parked_vehicle is None,
    {
        let mut spots: Vec<SpotDataPayload> = Vec::new();
        let mut j: usize = 0;
        while j < SPOTS_PER_FLOOR
            invariant
                j <= SPOTS_PER_FLOOR,
                spots@.len() == j,
                forall|k: int|
                    0 <= k < j ==> (#[trigger] spots@[k]).spot_type == 0
                        && spots@[k].parked_vehicle is None,
            decreases SPOTS_PER_FLOOR - j,
        {
            spots.push(SpotDataPayload::new(0));
            j += 1;
        }
        FloorDataPayload { spots, is_closed: false }
    }
}

/// The coordinator's full converged snapshot, as pushed to the console.
#[derive(Clone, Debug)]
pub struct ParkingLotDataPayload {
    pub floors: Vec<FloorDataPayload>,
    pub exited_vehicles: Vec<VehicleDataPayload>,
    pub is_closed: bool,
}

/// Occupied spots in one reported floor.
pub open spec fn spec_floor_occupied(spots: Seq<SpotDataPayload>) -> int
    decreases spots.len(),
{
    if spots.len() == 0 {
        0
    } else {
        spec_floor_occupied(spots.drop_last()) + if spots.last().parked_vehicle is Some {
            1int
        } else {
            0int
        }
    }
}

/// Free spots of one category code in one reported floor.
pub open spec fn spec_floor_free_of_type(spots: Seq<SpotDataPayload>, code: i32) -> int
    decreases spots.len(),
{
    if spots.len() == 0 {
        0
    } else {
        spec_floor_free_of_type(spots.drop_last(), code) + if spots.last().spot_type == code
            && spots.last().parked_vehicle is None {
            1int
        } else {
            0int
        }
    }
}

/// Sum of the fees of a list of reported vehicles.
pub open spec fn spec_total_fee_tenths(vehicles: Seq<VehicleDataPayload>, now: i64) -> int
    decreases vehicles.len(),
{
    if vehicles.len() == 0 {
        0
    } else {
        spec_total_fee_tenths(vehicles.drop_last(), now) + spec_fee_tenths(
            vehicles.last().entry_time,
            vehicles.last().spec_charged_exit(now),
        )
    }
}

impl ParkingLotDataPayload {
    /// An empty snapshot: the standard number of open floors, no exit history.
    pub fn new() -> (r: ParkingLotDataPayload)
        ensures
            !r.is_closed,
            r.exited_vehicles@.len() == 0,
            r.floors@.len() == FLOOR_COUNT,
            forall|f: int|
                0 <= f < r.floors@.len() ==> !(#[trigger] r.floors@[f]).is_closed
                    && r.floors@[f].spots@.len() == SPOTS_PER_FLOOR,
    {
        let mut floors: Vec<FloorDataPayload> = Vec::new();
        let mut f: usize = 0;
        while f < FLOOR_COUNT
            invariant
                f <= FLOOR_COUNT,
                floors@.len() == f,
                forall|k: int|
                    0 <= k < f ==> !(#[trigger] floors@[k]).is_closed
                        && floors@[k].spots@.len() == SPOTS_PER_FLOOR,
            decreases FLOOR_COUNT - f,
        {
            floors.push(FloorDataPayload::new());
            f += 1;
        }
        ParkingLotDataPayload { floors, exited_vehicles: Vec::new(), is_closed: false }
    }

    /// A snapshot with the standard shape: the full set of floors, each with
    /// the full row of spots. Snapshots the coordinator builds always have it;
    /// the console checks it on anything that arrives over the wire.
    pub open spec fn wf_shape(self) -> bool {
        &&& self.floors@.len() == FLOOR_COUNT
        &&& forall|f: int|
            0 <= f < self.floors@.len() ==> (#[trigger] self.floors@[f]).spots@.len()
                == SPOTS_PER_FLOOR
    }

    pub fn has_standard_shape(&self) -> (r: bool)
        ensures
            r == self.wf_shape(),
    {
        if self.floors.len() != FLOOR_COUNT {
            return false;
        }
        let mut f: usize = 0;
        while f < self.floors.len()
            invariant
                f <= self.floors@.len(),
                forall|k: int|
                    0 <= k < f ==> (#[trigger] self.floors@[k]).spots@.len() == SPOTS_PER_FLOOR,
            decreases self.floors@.len() - f,
        {
            if self.floors[f].spots.len() != SPOTS_PER_FLOOR {
                return false;
            }
            f += 1;
        }
        true
    }

    /// Occupied spots over the whole snapshot.
    pub open spec fn spec_occupied_total(self) -> int {
        spec_occupied_upto(self.floors@, self.floors@.len() as int)
    }

    /// Occupied spots reported by the first `f` floors.
    pub fn occupied_spots(&self) -> (r: u16)
        requires
            self.wf_shape(),
        ensures
            r == self.spec_occupied_total(),
            r <= LOT_CAPACITY_U16,
    {
        let mut total: u16 = 0;
        let mut f: usize = 0;
        while f < self.floors.len()
            invariant
                self.wf_shape(),
                f <= self.floors@.len(),
                total == spec_occupied_upto(self.floors@, f as int),
                total <= f * SPOTS_PER_FLOOR,
            decreases self.floors@.len() - f,
        {
            let spots = &self.floors[f].spots;
            let mut count: u16 = 0;
            let mut j: usize = 0;
            while j < spots.len()
                invariant
                    spots@.len() == SPOTS_PER_FLOOR,
                    j <= spots@.len(),
                    count == spec_floor_occupied(spots@.take(j as int)),
                    count <= j,
                decreases spots@.len() - j,
            {
                proof {
                    assert(spots@.take(j + 1).drop_last() =~= spots@.take(j as int));
                }
                if spots[j].parked_vehicle.is_some() {
                    count += 1;
                }
                j += 1;
            }
            proof {
                assert(spots@.take(spots@.len() as int) =~= spots@);
            }
            total += count;
            f += 1;
        }
        total
    }

    /// Free spots of one category code over the whole snapshot; the console
    /// shows this for the handicapped and elderly categories.
    pub open spec fn spec_free_of_type(self, code: i32) -> int {
        spec_free_of_type_upto(self.floors@, self.floors@.len() as int, code)
    }

    pub fn count_free_of_type(&self, code: i32) -> (r: u16)
        requires
            self.wf_shape(),
        ensures
            r == self.spec_free_of_type(code),
    {
        let mut total: u16 = 0;
        let mut f: usize = 0;
        while f < self.floors.len()
            invariant
                self.wf_shape(),
                f <= self.floors@.len(),
                total == spec_free_of_type_upto(self.floors@, f as int, code),
                total <= f * SPOTS_PER_FLOOR,
            decreases self.floors@.len() - f,
        {
            let spots = &self.floors[f].spots;
            let mut count: u16 = 0;
            let mut j: usize = 0;
            while j < spots.len()
                invariant
                    spots@.len() == SPOTS_PER_FLOOR,
                    j <= spots@.len(),
                    count == spec_floor_free_of_type(spots@.take(j as int), code),
                    count <= j,
                decreases spots@.len() - j,
            {
                proof {
                    assert(spots@.take(j + 1).drop_last() =~= spots@.take(j as int));
                }
                if spots[j].spot_type == code && spots[j].parked_vehicle.is_none() {
                    count += 1;
                }
                j += 1;
            }
            proof {
                assert(spots@.take(spots@.len() as int) =~= spots@);
            }
            total += count;
            f += 1;
        }
        total
    }

    /// Whether every exit record can be charged a fee against `now`.
    pub open spec fn spec_all_chargeable(self, now: i64) -> bool {
        forall|i: int|
            0 <= i < self.exited_vehicles@.len() ==> (#[trigger] self.exited_vehicles@[i])
                .spec_chargeable(now)
    }

    pub fn all_chargeable(&self, now: i64) -> (r: bool)
        ensures
            r == self.spec_all_chargeable(now),
    {
        let mut i: usize = 0;
        while i < self.exited_vehicles.len()
            invariant
                i <= self.exited_vehicles@.len(),
                forall|k: int|
                    0 <= k < i ==> (#[trigger] self.exited_vehicles@[k]).spec_chargeable(now),
            decreases self.exited_vehicles@.len() - i,
        {
            if !self.exited_vehicles[i].is_chargeable(now) {
                return false;
            }
            i += 1;
        }
        true
    }

    /// Total of the fees of all exit records, in tenths of a currency unit.
    pub fn total_fee_tenths(&self, now: i64) -> (r: i128)
        requires
            self.spec_all_chargeable(now),
        ensures
            r == spec_total_fee_tenths(self.exited_vehicles@, now),
    {
        let mut total: i128 = 0;
        let mut i: usize = 0;
        while i < self.exited_vehicles.len()
            invariant
                self.spec_all_chargeable(now),
                i <= self.exited_vehicles@.len(),
                total == spec_total_fee_tenths(self.exited_vehicles@.take(i as int), now),
                total <= i * MAX_SINGLE_FEE,
                0 <= total,
            decreases self.exited_vehicles@.len() - i,
        {
            proof {
                assert(self.exited_vehicles@.take(i + 1).drop_last() =~= self.exited_vehicles@
                    .take(i as int));
                lemma_fee_bounded(
                    self.exited_vehicles@[i as int].entry_time,
                    self.exited_vehicles@[i as int].spec_charged_exit(now),
                );
            }
            let fee = self.exited_vehicles[i].fee_tenths(now);
            total += fee as i128;
            i += 1;
        }
        proof {
            assert(self.exited_vehicles@.take(self.exited_vehicles@.len() as int)
                =~= self.exited_vehicles@);
        }
        total
    }
}

/// Largest fee one record can carry: the whole `i64` range of seconds, in
/// minutes (`i64::MAX / 60`).
pub const MAX_SINGLE_FEE: i128 = 153_722_867_280_912_930;

/// Lot capacity with the type the console counts in.
pub const LOT_CAPACITY_U16: u16 = 24;

/// A chargeable record's fee lies between 0 and the largest representable
/// number of minutes.
proof fn lemma_fee_bounded(entry_time: i64, exit_time: i64)
    requires
        0 <= entry_time <= exit_time,
    ensures
        0 <= spec_fee_tenths(entry_time, exit_time) <= MAX_SINGLE_FEE,
{
    let diff = exit_time - entry_time;
    assert(0 <= diff <= i64::MAX);
    vstd::arithmetic::div_mod::lemma_div_is_ordered(0, diff as int, 60);
    vstd::arithmetic::div_mod::lemma_div_is_ordered(diff as int, i64::MAX as int, 60);
}

/// Occupied spots reported by the first `f` floors of a snapshot.
pub open spec fn spec_occupied_upto(floors: Seq<FloorDataPayload>, f: int) -> int
    decreases f,
{
    if f <= 0 {
        0
    } else {
        spec_occupied_upto(floors, f - 1) + spec_floor_occupied(floors[f - 1].spots@)
    }
}

/// Free spots of one category code in the first `f` floors of a snapshot.
pub open spec fn spec_free_of_type_upto(floors: Seq<FloorDataPayload>, f: int, code: i32) -> int
    decreases f,
{
    if f <= 0 {
        0
    } else {
        spec_free_of_type_upto(floors, f - 1, code) + spec_floor_free_of_type(
            floors[f - 1].spots@,
            code,
        )
    }
}

/// Per-floor occupancy never exceeds the number of spots.
pub proof fn lemma_floor_occupied_bounds(spots: Seq<SpotDataPayload>)
    ensures
        0 <= spec_floor_occupied(spots) <= spots.len(),
    decreases spots.len(),
{
    if spots.len() > 0 {
        lemma_floor_occupied_bounds(spots.drop_last());
    }
}

/// Free-spot counts per floor never exceed the number of spots.
pub proof fn lemma_floor_free_of_type_bounds(spots: Seq<SpotDataPayload>, code: i32)
    ensures
        0 <= spec_floor_free_of_type(spots, code) <= spots.len(),
    decreases spots.len(),
{
    if spots.len() > 0 {
        lemma_floor_free_of_type_bounds(spots.drop_last(), code);
    }
}

} // verus!
