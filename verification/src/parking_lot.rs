use vstd::prelude::*;

verus! {

/// Spots per floor; a floor closes when all of them are occupied.
pub const SPOTS_PER_FLOOR: usize = 8;

/// Floors in the garage.
pub const FLOOR_COUNT: usize = 3;

/// Total capacity; the lot closes when every spot is occupied.
pub const LOT_CAPACITY: usize = 24;

/// Category of a parking spot; fixed when the garage is laid out.
#[derive(PartialEq, Eq, Structural, Clone, Copy, Debug)]
pub enum SpotType {
    Normal,
    Handicapped,
    Elderly,
}

impl SpotType {
    /// Numeric code used on the wire and in persistent storage.
    pub open spec fn spec_code(self) -> i32 {
        match self {
            SpotType::Normal => 0,
            SpotType::Handicapped => 1,
            SpotType::Elderly => 2,
        }
    }

    pub fn to_code(&self) -> (r: i32)
        ensures
            r == self.spec_code(),
    {
        match self {
            SpotType::Normal => 0,
            SpotType::Handicapped => 1,
            SpotType::Elderly => 2,
        }
    }

    /// Reads a stored numeric code back; any other value is rejected.
    pub fn from_code(code: i64) -> (r: Option<SpotType>)
        ensures
            r matches Some(t) ==> t.spec_code() == code,
            r is None <==> !(0 <= code <= 2),
    {
        match code {
            0 => Some(SpotType::Normal),
            1 => Some(SpotType::Handicapped),
            2 => Some(SpotType::Elderly),
            _ => None,
        }
    }
}

/// Layout of spot categories within every floor: the first spot is reserved
/// for handicapped drivers, the next two for the elderly, the rest are normal.
pub open spec fn standard_spot_type(j: int) -> SpotType {
    if j == 0 {
        SpotType::Handicapped
    } else if 1 <= j <= 2 {
        SpotType::Elderly
    } else {
        SpotType::Normal
    }
}

/// A parked vehicle: id handed out by the coordinator, entry time from the
/// floor unit's event.
#[derive(PartialEq, Eq, Structural, Clone, Copy, Debug)]
pub struct Vehicle {
    pub id: i32,
    pub entry_time: i64,
}

/// One parking position; `parked_vehicle` is `Some` exactly while a vehicle
/// occupies it.
#[derive(Clone, Copy, Debug)]
pub struct Spot {
    pub spot_number: i32,
    pub spot_type: SpotType,
    pub parked_vehicle: Option<Vehicle>,
}

impl Spot {
    pub open spec fn is_occupied(self) -> bool {
        self.parked_vehicle is Some
    }
}

/// Number of occupied spots in a row of spots.
pub open spec fn occupied_count(spots: Seq<Spot>) -> int
    decreases spots.len(),
{
    if spots.len() == 0 {
        0
    } else {
        occupied_count(spots.drop_last()) + if spots.last().is_occupied() {
            1int
        } else {
            0int
        }
    }
}

/// The occupied count of a row of spots lies between 0 and the number of
/// spots: occupancy can never exceed capacity.
pub proof fn lemma_occupied_count_bounds(spots: Seq<Spot>)
    ensures
        0 <= occupied_count(spots) <= spots.len(),
    decreases spots.len(),
{
    if spots.len() > 0 {
        lemma_occupied_count_bounds(spots.drop_last());
    }
}

/// The indices of the occupied spots in a row.
pub open spec fn occupied_indices(spots: Seq<Spot>) -> Set<int> {
    Set::new(|j: int| 0 <= j < spots.len() && spots[j].is_occupied())
}

/// The occupied count is exactly the number of non-empty spots: the derived
/// count and the spots themselves can never disagree.
pub proof fn lemma_occupied_count_is_occupied_indices(spots: Seq<Spot>)
    ensures
        occupied_indices(spots).finite(),
        occupied_count(spots) == occupied_indices(spots).len(),
    decreases spots.len(),
{
    if spots.len() == 0 {
        assert(occupied_indices(spots) =~= Set::empty());
    } else {
        let prefix = spots.drop_last();
        let last = spots.len() - 1;
        lemma_occupied_count_is_occupied_indices(prefix);
        if spots.last().is_occupied() {
            assert(!occupied_indices(prefix).contains(last));
            assert(occupied_indices(spots) =~= occupied_indices(prefix).insert(last));
        } else {
            assert(occupied_indices(spots) =~= occupied_indices(prefix));
        }
    }
}

/// A row with no occupied spot counts zero.
pub proof fn lemma_occupied_count_zero(spots: Seq<Spot>)
    requires
        forall|j: int| 0 <= j < spots.len() ==> !(#[trigger] spots[j]).is_occupied(),
    ensures
        occupied_count(spots) == 0,
    decreases spots.len(),
{
    if spots.len() > 0 {
        lemma_occupied_count_zero(spots.drop_last());
    }
}

/// Replacing one spot changes the occupied count exactly by the difference
/// that spot contributes.
pub proof fn lemma_occupied_count_update(spots: Seq<Spot>, j: int, s: Spot)
    requires
        0 <= j < spots.len(),
    ensures
        occupied_count(spots.update(j, s)) == occupied_count(spots)
            + (if s.is_occupied() { 1int } else { 0int })
            - (if spots[j].is_occupied() { 1int } else { 0int }),
    decreases spots.len(),
{
    let updated = spots.update(j, s);
    if j == spots.len() - 1 {
        assert(updated.drop_last() =~= spots.drop_last());
    } else {
        assert(updated.drop_last() =~= spots.drop_last().update(j, s));
        assert(updated.last() == spots.last());
        lemma_occupied_count_update(spots.drop_last(), j, s);
    }
}

/// A floor of the garage as the coordinator reports it: its index and its row
/// of spots.
#[derive(Clone, Debug)]
pub struct Floor {
    pub floor_number: i32,
    pub spots: Vec<Spot>,
}

impl Floor {
    /// A well-laid-out floor: the full row of spots, numbered in order, with
    /// the standard category layout.
    pub open spec fn wf(self) -> bool {
        &&& self.spots@.len() == SPOTS_PER_FLOOR
        &&& forall|j: int|
            0 <= j < self.spots@.len() ==> (#[trigger] self.spots@[j]).spot_number == j
        &&& forall|j: int|
            0 <= j < self.spots@.len() ==> (#[trigger] self.spots@[j]).spot_type
                == standard_spot_type(j)
    }

    /// An empty floor with the standard spot layout.
    pub fn new(floor_number: i32) -> (r: Floor)
        ensures
            r.wf(),
            r.floor_number == floor_number,
            forall|j: int| 0 <= j < r.spots@.len() ==> !(#[trigger] r.spots@[j]).is_occupied(),
    {
        let mut spots: Vec<Spot> = Vec::new();
        let mut j: usize = 0;
        while j < SPOTS_PER_FLOOR
            invariant
                j <= SPOTS_PER_FLOOR,
                spots@.len() == j,
                forall|k: int| 0 <= k < j ==> (#[trigger] spots@[k]).spot_number == k,
                forall|k: int|
                    0 <= k < j ==> (#[trigger] spots@[k]).spot_type == standard_spot_type(k),
                forall|k: int| 0 <= k < j ==> !(#[trigger] spots@[k]).is_occupied(),
            decreases SPOTS_PER_FLOOR - j,
        {
            let spot_type = if j == 0 {
                SpotType::Handicapped
            } else if j <= 2 {
                SpotType::Elderly
            } else {
                SpotType::Normal
            };
            spots.push(Spot { spot_number: j as i32, spot_type, parked_vehicle: None });
            j += 1;
        }
        Floor { floor_number, spots }
    }

    /// The floor's occupancy snapshot: one flag per spot, `true` where a
    /// vehicle is parked. This is what `floor_state` broadcasts carry.
    pub fn as_bool_vec(&self) -> (r: Vec<bool>)
        ensures
            r@.len() == self.spots@.len(),
            forall|j: int|
                0 <= j < r@.len() ==> r@[j] == (#[trigger] self.spots@[j]).is_occupied(),
    {
        let mut occupancy: Vec<bool> = Vec::new();
        let mut j: usize = 0;
        while j < self.spots.len()
            invariant
                j <= self.spots@.len(),
                occupancy@.len() == j,
                forall|k: int|
                    0 <= k < j ==> occupancy@[k] == (#[trigger] self.spots@[k]).is_occupied(),
            decreases self.spots@.len() - j,
        {
            occupancy.push(self.spots[j].parked_vehicle.is_some());
            j += 1;
        }
        occupancy
    }

    /// Occupied spots on this floor.
    pub fn count_occupied(&self) -> (r: usize)
        ensures
            r == occupied_count(self.spots@),
    {
        let mut count: usize = 0;
        let mut j: usize = 0;
        while j < self.spots.len()
            invariant
                j <= self.spots@.len(),
                count == occupied_count(self.spots@.take(j as int)),
                count <= j,
            decreases self.spots@.len() - j,
        {
            proof {
                assert(self.spots@.take(j + 1).drop_last() =~= self.spots@.take(j as int));
                assert(self.spots@.take(j + 1).last() == self.spots@[j as int]);
            }
            if self.spots[j].parked_vehicle.is_some() {
                count += 1;
            }
            j += 1;
        }
        proof {
            assert(self.spots@.take(self.spots@.len() as int) =~= self.spots@);
        }
        count
    }
}

} // verus!
