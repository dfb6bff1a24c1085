use vstd::prelude::*;
use crate::corridor::{Transit, TransitDirection};
use crate::parking_lot::SPOTS_PER_FLOOR;
use crate::payloads::ParkingSpaceModifiedPayload;

verus! {

/// Which way a vehicle crossed the floor's corridor, as the floor unit
/// interprets it: towards the spots, or away from them.
#[derive(PartialEq, Eq, Structural, Clone, Copy, Debug)]
pub enum Direction {
    Entering,
    Leaving,
}

/// What kind of occupancy change a scan revealed.
#[derive(PartialEq, Eq, Structural, Clone, Copy, Debug)]
pub enum ParkingEventKind {
    Arrived,
    Departed,
}

/// One semantic occupancy event, timestamped when the transit that triggered
/// the scan was resolved.
#[derive(PartialEq, Eq, Structural, Clone, Copy, Debug)]
pub struct ParkingEvent {
    pub kind: ParkingEventKind,
    pub spot_index: i32,
    pub timestamp: i64,
}

impl ParkingEvent {
    /// The wire body for this event; its kind travels as the event name.
    pub fn to_payload(&self) -> (r: ParkingSpaceModifiedPayload)
        ensures
            r.parking_space == self.spot_index,
            r.timestamp == self.timestamp,
    {
        ParkingSpaceModifiedPayload { parking_space: self.spot_index, timestamp: self.timestamp }
    }
}

/// How the corridor's geometric direction reads on this floor: sensor A
/// stands at the outer end, so passing A first means driving in.
pub fn direction_of_transit(transit: &Transit) -> (r: Direction)
    ensures
        r == (match transit.direction {
            TransitDirection::AToB => Direction::Entering,
            TransitDirection::BToA => Direction::Leaving,
        }),
{
    match transit.direction {
        TransitDirection::AToB => Direction::Entering,
        TransitDirection::BToA => Direction::Leaving,
    }
}

/// The two snapshots disagree on spot `j` and nowhere else: the scan pair
/// shows a single flipped spot, there.
pub open spec fn single_flip_at(old_s: Seq<bool>, new_s: Seq<bool>, j: int) -> bool {
    &&& 0 <= j < old_s.len()
    &&& old_s[j] != new_s[j]
    &&& forall|k: int| 0 <= k < old_s.len() && k != j ==> old_s[k] == #[trigger] new_s[k]
}

/// The flip at `j` has the polarity the direction calls for: a spot becomes
/// occupied while a vehicle is entering, or free while one is leaving.
pub open spec fn flip_matches(old_s: Seq<bool>, new_s: Seq<bool>, j: int, direction: Direction) -> bool {
    match direction {
        Direction::Entering => !old_s[j] && new_s[j],
        Direction::Leaving => old_s[j] && !new_s[j],
    }
}

/// The event kind a direction of travel produces.
pub open spec fn spec_kind_of(direction: Direction) -> ParkingEventKind {
    match direction {
        Direction::Entering => ParkingEventKind::Arrived,
        Direction::Leaving => ParkingEventKind::Departed,
    }
}

/// Number of spots on which the two snapshots disagree, over the first `n`.
pub open spec fn diff_count(old_s: Seq<bool>, new_s: Seq<bool>, n: int) -> int
    decreases n,
{
    if n <= 0 {
        0
    } else {
        diff_count(old_s, new_s, n - 1) + if old_s[n - 1] != new_s[n - 1] {
            1int
        } else {
            0int
        }
    }
}

/// The occupancy model a floor unit keeps: one flag per spot, the diff
/// baseline for successive sensor scans.
pub struct ParkingLot {
    pub spaces: Vec<bool>,
}

impl ParkingLot {
    /// All spots free.
    pub fn new() -> (r: ParkingLot)
        ensures
            r.spaces@.len() == SPOTS_PER_FLOOR,
            forall|j: int| 0 <= j < r.spaces@.len() ==> !(#[trigger] r.spaces@[j]),
    {
        let mut spaces: Vec<bool> = Vec::new();
        let mut j: usize = 0;
        while j < SPOTS_PER_FLOOR
            invariant
                j <= SPOTS_PER_FLOOR,
                spaces@.len() == j,
                forall|k: int| 0 <= k < j ==> !(#[trigger] spaces@[k]),
            decreases SPOTS_PER_FLOOR - j,
        {
            spaces.push(false);
            j += 1;
        }
        ParkingLot { spaces }
    }

    /// Overwrites the model with a row pushed by the coordinator (a
    /// `floor_state` broadcast): spot for spot, the first full row of the
    /// argument.
    pub fn update_spaces(&mut self, spaces: &Vec<bool>)
        requires
            old(self).spaces@.len() == SPOTS_PER_FLOOR,
            spaces@.len() >= SPOTS_PER_FLOOR,
        ensures
            final(self).spaces@.len() == SPOTS_PER_FLOOR,
            forall|j: int|
                0 <= j < SPOTS_PER_FLOOR ==> #[trigger] final(self).spaces@[j] == spaces@[j],
    {
        let mut j: usize = 0;
        while j < SPOTS_PER_FLOOR
            invariant
                j <= SPOTS_PER_FLOOR,
                self.spaces@.len() == SPOTS_PER_FLOOR,
                spaces@.len() >= SPOTS_PER_FLOOR,
                forall|k: int| 0 <= k < j ==> #[trigger] self.spaces@[k] == spaces@[k],
                forall|k: int|
                    j <= k < SPOTS_PER_FLOOR ==> #[trigger] self.spaces@[k] == old(
                        self,
                    ).spaces@[k],
            decreases SPOTS_PER_FLOOR - j,
        {
            let slot = &mut self.spaces[j];
            *slot = spaces[j];
            j += 1;
        }
    }

    /// Diffs a fresh scan against the kept baseline. Exactly one spot
    /// flipping, with the polarity the direction of travel calls for, yields
    /// one event and moves the baseline to the new scan; zero flips, several
    /// flips, or a flip against the direction yield no event and leave the
    /// baseline alone — an ambiguous scan is not an error, it self-corrects
    /// on a later clean one.
    pub fn on_scan_result(&mut self, new_scan: &Vec<bool>, timestamp: i64, direction: Direction) -> (r: Option<ParkingEvent>)
        requires
            old(self).spaces@.len() == SPOTS_PER_FLOOR,
            new_scan@.len() == SPOTS_PER_FLOOR,
        ensures
            final(self).spaces@.len() == SPOTS_PER_FLOOR,
            forall|j: int|
                single_flip_at(old(self).spaces@, new_scan@, j) && flip_matches(
                    old(self).spaces@,
                    new_scan@,
                    j,
                    direction,
                ) ==> r == Some(
                    ParkingEvent {
                        kind: spec_kind_of(direction),
                        spot_index: j as i32,
                        timestamp,
                    },
                ),
            r matches Some(ev) ==> {
                &&& single_flip_at(old(self).spaces@, new_scan@, ev.spot_index as int)
                &&& flip_matches(old(self).spaces@, new_scan@, ev.spot_index as int, direction)
                &&& ev.kind == spec_kind_of(direction)
                &&& ev.timestamp == timestamp
                &&& final(self).spaces@ == new_scan@
            },
            r is None ==> final(self).spaces@ == old(self).spaces@,
    {
        let ghost baseline = self.spaces@;
        let mut flips: usize = 0;
        let mut flip_idx: usize = 0;
        let ghost mut d1: int = 0;
        let ghost mut d2: int = 0;
        let mut j: usize = 0;
        while j < SPOTS_PER_FLOOR
            invariant
                j <= SPOTS_PER_FLOOR,
                self.spaces@ == baseline,
                baseline.len() == SPOTS_PER_FLOOR,
                new_scan@.len() == SPOTS_PER_FLOOR,
                flips <= j,
                flips == diff_count(baseline, new_scan@, j as int),
                flips >= 1 ==> 0 <= d1 < j && baseline[d1] != new_scan@[d1],
                flips >= 2 ==> 0 <= d2 < j && baseline[d2] != new_scan@[d2] && d2 != d1,
                flips == 1 ==> d1 == flip_idx && (forall|k: int|
                    0 <= k < j && k != d1 ==> baseline[k] == #[trigger] new_scan@[k]),
                flips == 0 ==> forall|k: int|
                    0 <= k < j ==> baseline[k] == #[trigger] new_scan@[k],
            decreases SPOTS_PER_FLOOR - j,
        {
            if self.spaces[j] != new_scan[j] {
                proof {
                    if flips == 0 {
                        d1 = j as int;
                    } else {
                        d2 = j as int;
                    }
                }
                flips += 1;
                flip_idx = j;
            }
            j += 1;
        }
        if flips == 1 {
            let was_occupied = self.spaces[flip_idx];
            let now_occupied = new_scan[flip_idx];
            let kind = match direction {
                Direction::Entering => {
                    if !was_occupied && now_occupied {
                        Some(ParkingEventKind::Arrived)
                    } else {
                        None
                    }
                },
                Direction::Leaving => {
                    if was_occupied && !now_occupied {
                        Some(ParkingEventKind::Departed)
                    } else {
                        None
                    }
                },
            };
            match kind {
                Some(kind) => {
                    self.update_spaces(new_scan);
                    proof {
                        assert(self.spaces@ =~= new_scan@);
                    }
                    return Some(
                        ParkingEvent { kind, spot_index: flip_idx as i32, timestamp },
                    );
                },
                None => {
                    proof {
                        assert forall|j2: int|
                            !(single_flip_at(baseline, new_scan@, j2) && flip_matches(
                                baseline,
                                new_scan@,
                                j2,
                                direction,
                            )) by {
                            if single_flip_at(baseline, new_scan@, j2) {
                                assert(j2 == d1);
                            }
                        }
                    }
                    return None;
                },
            }
        }
        proof {
            assert forall|j2: int| !single_flip_at(baseline, new_scan@, j2) by {
                if single_flip_at(baseline, new_scan@, j2) {
                    if flips == 0 {
                        assert(baseline[j2] == new_scan@[j2]);
                    } else {
                        assert(flips >= 2);
                        if j2 != d1 {
                            assert(baseline[d1] == new_scan@[d1]);
                        } else {
                            assert(baseline[d2] == new_scan@[d2]);
                        }
                    }
                }
            }
        }
        None
    }
}

} // verus!
