use vstd::prelude::*;
use crate::parking_lot::SPOTS_PER_FLOOR;

verus! {

/// A car as the standalone single-floor unit records it; in the full
/// system vehicle ids come from the coordinator instead.
#[derive(PartialEq, Eq, Structural, Clone, Copy, Debug)]
pub struct Car {
    pub id: i32,
    pub entry_time: i64,
}

/// Category of a space on the standalone unit's floor.
#[derive(PartialEq, Eq, Structural, Clone, Copy, Debug)]
pub enum ParkingSpaceType {
    Normal,
    Elderly,
    Handicapped,
}

/// One space and the car in it, if any.
#[derive(PartialEq, Eq, Structural, Clone, Copy, Debug)]
pub struct ParkingSpace {
    pub space_type: ParkingSpaceType,
    pub car: Option<Car>,
}

/// The standalone unit's whole floor: the full row of typed spaces.
#[derive(Clone, Debug)]
pub struct ParkingLot {
    pub spaces: Vec<ParkingSpace>,
}

impl ParkingLot {
    /// An empty floor: one handicapped space, two elderly spaces, and the
    /// rest normal, in that order.
    pub fn new() -> (r: ParkingLot)
        ensures
            r.spaces@.len() == SPOTS_PER_FLOOR,
            forall|j: int| 0 <= j < r.spaces@.len() ==> (#[trigger] r.spaces@[j]).car is None,
            r.spaces@[0].space_type == ParkingSpaceType::Handicapped,
            forall|j: int|
                1 <= j <= 2 ==> (#[trigger] r.spaces@[j]).space_type == ParkingSpaceType::Elderly,
            forall|j: int|
                3 <= j < r.spaces@.len() ==> (#[trigger] r.spaces@[j]).space_type
                    == ParkingSpaceType::Normal,
    {
        let mut spaces: Vec<ParkingSpace> = Vec::new();
        spaces.push(ParkingSpace { space_type: ParkingSpaceType::Handicapped, car: None });
        let mut j: usize = 0;
        while j < 2
            invariant
                j <= 2,
                spaces@.len() == 1 + j,
                spaces@[0].space_type == ParkingSpaceType::Handicapped,
                forall|k: int|
                    1 <= k < spaces@.len() ==> (#[trigger] spaces@[k]).space_type
                        == ParkingSpaceType::Elderly,
                forall|k: int| 0 <= k < spaces@.len() ==> (#[trigger] spaces@[k]).car is None,
            decreases 2 - j,
        {
            spaces.push(ParkingSpace { space_type: ParkingSpaceType::Elderly, car: None });
            j += 1;
        }
        let mut k: usize = 0;
        while k < 5
            invariant
                k <= 5,
                spaces@.len() == 3 + k,
                spaces@[0].space_type == ParkingSpaceType::Handicapped,
                forall|m: int|
                    1 <= m <= 2 ==> (#[trigger] spaces@[m]).space_type == ParkingSpaceType::Elderly,
                forall|m: int|
                    3 <= m < spaces@.len() ==> (#[trigger] spaces@[m]).space_type
                        == ParkingSpaceType::Normal,
                forall|m: int| 0 <= m < spaces@.len() ==> (#[trigger] spaces@[m]).car is None,
            decreases 5 - k,
        {
            spaces.push(ParkingSpace { space_type: ParkingSpaceType::Normal, car: None });
            k += 1;
        }
        ParkingLot { spaces }
    }
}

} // verus!
