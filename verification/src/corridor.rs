use vstd::prelude::*;

verus! {

/// The two edge-triggered sensors at the ends of a bidirectional corridor.
#[derive(PartialEq, Eq, Structural, Clone, Copy, Debug)]
pub enum EdgeSensor {
    A,
    B,
}

/// Direction of travel through the corridor, resolved purely from the order
/// in which the two edge sensors fired — never from absolute timing.
#[derive(PartialEq, Eq, Structural, Clone, Copy, Debug)]
pub enum TransitDirection {
    /// The vehicle passed sensor A first, then sensor B.
    AToB,
    /// The vehicle passed sensor B first, then sensor A.
    BToA,
}

/// One completed passage through the corridor.
#[derive(PartialEq, Eq, Structural, Clone, Copy, Debug)]
pub struct Transit {
    pub direction: TransitDirection,
    pub timestamp: i64,
}

/// Disambiguates direction of travel from the relative firing order of the
/// corridor's two edge sensors. Each sensor has a single-bit flag, default
/// low; a lone edge raises its own flag, and the matching edge on the other
/// sensor completes the transit and clears both.
#[derive(PartialEq, Eq, Structural, Clone, Copy, Debug)]
pub struct CorridorEventResolver {
    pub a_flag: bool,
    pub b_flag: bool,
}

impl CorridorEventResolver {
    /// Both flags low: no partial transit pending.
    pub fn new() -> (r: CorridorEventResolver)
        ensures
            !r.a_flag,
            !r.b_flag,
    {
        CorridorEventResolver { a_flag: false, b_flag: false }
    }

    /// A rising edge on one sensor. If the other sensor's flag is still low
    /// the vehicle is only entering the corridor: that sensor's own flag is
    /// raised and no event is emitted. If the other flag is high the vehicle
    /// has passed both sensors: both flags are cleared and one transit is
    /// emitted, directed from the sensor that fired first to this one.
    pub fn on_edge(&mut self, sensor: EdgeSensor, timestamp: i64) -> (r: Option<Transit>)
        ensures
            match sensor {
                EdgeSensor::A => {
                    if old(self).b_flag {
                        &&& r == Some(
                            Transit { direction: TransitDirection::BToA, timestamp },
                        )
                        &&& !final(self).a_flag
                        &&& !final(self).b_flag
                    } else {
                        &&& r is None
                        &&& final(self).a_flag
                        &&& final(self).b_flag == old(self).b_flag
                    }
                },
                EdgeSensor::B => {
                    if old(self).a_flag {
                        &&& r == Some(
                            Transit { direction: TransitDirection::AToB, timestamp },
                        )
                        &&& !final(self).a_flag
                        &&& !final(self).b_flag
                    } else {
                        &&& r is None
                        &&& final(self).b_flag
                        &&& final(self).a_flag == old(self).a_flag
                    }
                },
            },
    {
        match sensor {
            EdgeSensor::A => {
                if self.b_flag {
                    self.a_flag = false;
                    self.b_flag = false;
                    Some(Transit { direction: TransitDirection::BToA, timestamp })
                } else {
                    self.a_flag = true;
                    None
                }
            },
            EdgeSensor::B => {
                if self.a_flag {
                    self.a_flag = false;
                    self.b_flag = false;
                    Some(Transit { direction: TransitDirection::AToB, timestamp })
                } else {
                    self.b_flag = true;
                    None
                }
            },
        }
    }
}

} // verus!
