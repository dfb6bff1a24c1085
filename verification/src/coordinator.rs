use vstd::prelude::*;
use crate::client::ClientId;
use crate::ledger::{Ledger, LedgerError};
use crate::parking_lot::{
    lemma_occupied_count_update, Vehicle, FLOOR_COUNT, LOT_CAPACITY, SPOTS_PER_FLOOR,
};
use crate::payloads::{ParkingSpaceModifiedPayload, VehicleDataPayload};
use crate::registry::ConnectionRegistry;

verus! {

/// One planned emission: which group it goes to and what it carries. The
/// coordinator hands these out; the transport layer performs them, after the
/// state producing them is durable.
#[derive(Clone, Debug)]
pub enum Broadcast {
    /// A floor's occupancy snapshot, to that floor's group.
    FloorState { target: ClientId, occupancy: Vec<bool> },
    /// Barrier signal: the floor reached capacity, to that floor's group.
    CloseFloor { target: ClientId },
    /// Barrier signal: the floor is open again, to that floor's group.
    OpenFloor { target: ClientId },
    /// Barrier signal: the lot reached capacity, to the ground floor's group.
    CloseParkingLot,
    /// Barrier signal: the lot is open again, to the ground floor's group.
    OpenParkingLot,
    /// The full converged snapshot, to the monitoring console's group.
    ParkingLotState { snapshot: crate::payloads::ParkingLotDataPayload },
}

impl Broadcast {
    /// The group this emission is scoped to.
    pub open spec fn spec_target(self) -> ClientId {
        match self {
            Broadcast::FloorState { target, .. } => target,
            Broadcast::CloseFloor { target } => target,
            Broadcast::OpenFloor { target } => target,
            Broadcast::CloseParkingLot => ClientId::GroundFloor,
            Broadcast::OpenParkingLot => ClientId::GroundFloor,
            Broadcast::ParkingLotState { .. } => ClientId::App,
        }
    }

    pub fn target(&self) -> (r: ClientId)
        ensures
            r == self.spec_target(),
    {
        match self {
            Broadcast::FloorState { target, .. } => *target,
            Broadcast::CloseFloor { target } => *target,
            Broadcast::OpenFloor { target } => *target,
            Broadcast::CloseParkingLot => ClientId::GroundFloor,
            Broadcast::OpenParkingLot => ClientId::GroundFloor,
            Broadcast::ParkingLotState { .. } => ClientId::App,
        }
    }

    /// The wire event this emission is sent as.
    pub open spec fn spec_event_name(self) -> Seq<char> {
        match self {
            Broadcast::FloorState { .. } => "floor_state"@,
            Broadcast::CloseFloor { .. } => "close_floor"@,
            Broadcast::OpenFloor { .. } => "open_floor"@,
            Broadcast::CloseParkingLot => "close_parking_lot"@,
            Broadcast::OpenParkingLot => "open_parking_lot"@,
            Broadcast::ParkingLotState { .. } => "parking_lot_state"@,
        }
    }

    pub fn event_name(&self) -> (r: &'static str)
        ensures
            r@ == self.spec_event_name(),
    {
        match self {
            Broadcast::FloorState { .. } => "floor_state",
            Broadcast::CloseFloor { .. } => "close_floor",
            Broadcast::OpenFloor { .. } => "open_floor",
            Broadcast::CloseParkingLot => "close_parking_lot",
            Broadcast::OpenParkingLot => "open_parking_lot",
            Broadcast::ParkingLotState { .. } => "parking_lot_state",
        }
    }
}

/// Why the coordinator refused to act on a message.
#[derive(PartialEq, Eq, Structural, Clone, Copy, Debug)]
pub enum HandlerError {
    /// The sending connection never registered a valid identity.
    UnknownConnection,
    /// A parking event came from the console, which owns no floor.
    NotAFloorUnit,
    /// The ledger refused the operation.
    Ledger(LedgerError),
}

/// Sole authoritative owner of the occupancy ledger: validates incoming
/// events against the registered connection identities, applies the capacity
/// policy, and plans the broadcasts that republish converged state.
pub struct Coordinator {
    pub ledger: Ledger,
    pub clients: ConnectionRegistry,
}

/// What an accepted arrival does to the ledger: the spot gains the newly
/// numbered vehicle, counts rise by one, the floor closes exactly if it is
/// now at capacity, the lot closes exactly if it is now at capacity, and
/// nothing else changes.
pub open spec fn arrival_effect(pre: Ledger, post: Ledger, f: int, s: int, timestamp: i64) -> bool {
    &&& post.spot_at(f, s).parked_vehicle == Some(
        Vehicle { id: pre.next_vehicle_id, entry_time: timestamp },
    )
    &&& post.next_vehicle_id == pre.next_vehicle_id + 1
    &&& Ledger::same_shape(pre, post)
    &&& Ledger::spots_equal_except(pre, post, f, s)
    &&& post.floor_occupied(f) == pre.floor_occupied(f) + 1
    &&& forall|g: int|
        0 <= g < FLOOR_COUNT && g != f ==> #[trigger] post.floor_occupied(g)
            == pre.floor_occupied(g)
    &&& post.total_occupied() == pre.total_occupied() + 1
    &&& post.floors_closed@.len() == FLOOR_COUNT
    &&& post.floors_closed@[f] == (pre.floors_closed@[f] || post.floor_occupied(f)
        == SPOTS_PER_FLOOR as int)
    &&& forall|g: int|
        0 <= g < FLOOR_COUNT && g != f ==> #[trigger] post.floors_closed@[g]
            == pre.floors_closed@[g]
    &&& post.is_closed == (pre.is_closed || post.total_occupied() == LOT_CAPACITY as int)
    &&& post.exited_vehicles@ == pre.exited_vehicles@
}

/// What an accepted departure does to the ledger: the spot is cleared, its
/// vehicle's exit record is appended, counts drop by one, the floor reopens
/// exactly if it was at capacity, the lot reopens exactly if it was at
/// capacity, and nothing else changes.
pub open spec fn departure_effect(
    pre: Ledger,
    post: Ledger,
    f: int,
    s: int,
    timestamp: i64,
) -> bool {
    &&& post.spot_at(f, s).parked_vehicle is None
    &&& Ledger::same_shape(pre, post)
    &&& Ledger::spots_equal_except(pre, post, f, s)
    &&& post.floor_occupied(f) == pre.floor_occupied(f) - 1
    &&& forall|g: int|
        0 <= g < FLOOR_COUNT && g != f ==> #[trigger] post.floor_occupied(g)
            == pre.floor_occupied(g)
    &&& post.total_occupied() == pre.total_occupied() - 1
    &&& post.floors_closed@.len() == FLOOR_COUNT
    &&& post.floors_closed@[f] == (pre.floors_closed@[f] && pre.floor_occupied(f)
        != SPOTS_PER_FLOOR as int)
    &&& forall|g: int|
        0 <= g < FLOOR_COUNT && g != f ==> #[trigger] post.floors_closed@[g]
            == pre.floors_closed@[g]
    &&& post.is_closed == (pre.is_closed && pre.total_occupied() != LOT_CAPACITY as int)
    &&& post.exited_vehicles@ == pre.exited_vehicles@.push(
        VehicleDataPayload {
            id: pre.spot_at(f, s).parked_vehicle.unwrap().id,
            entry_time: pre.spot_at(f, s).parked_vehicle.unwrap().entry_time,
            exit_time: Some(timestamp),
        },
    )
    &&& post.next_vehicle_id == pre.next_vehicle_id
}

/// The broadcasts an accepted arrival publishes, in order: the floor's close
/// signal exactly when the floor just filled, the lot's close signal exactly
/// when the lot just filled, and always the converged snapshot last.
pub open spec fn arrival_broadcasts(bs: Seq<Broadcast>, client: ClientId, post: Ledger, f: int) -> bool {
    let closes_floor = post.floor_occupied(f) == SPOTS_PER_FLOOR as int;
    let closes_lot = post.total_occupied() == LOT_CAPACITY as int;
    &&& bs.len() == 1 + (if closes_floor { 1int } else { 0int }) + (if closes_lot {
        1int
    } else {
        0int
    })
    &&& closes_floor ==> bs[0] == Broadcast::CloseFloor { target: client }
    &&& closes_lot ==> bs[if closes_floor { 1int } else { 0int }] == Broadcast::CloseParkingLot
    &&& bs.last() matches Broadcast::ParkingLotState { snapshot } && Ledger::spec_lot_state_of(
        post,
        snapshot,
    )
}

/// The broadcasts an accepted departure publishes, in order: the lot's open
/// signal exactly when the lot was at capacity, the floor's open signal
/// exactly when the floor was at capacity, and always the converged snapshot
/// last.
pub open spec fn departure_broadcasts(
    bs: Seq<Broadcast>,
    client: ClientId,
    pre: Ledger,
    post: Ledger,
    f: int,
) -> bool {
    let opens_lot = pre.total_occupied() == LOT_CAPACITY as int;
    let opens_floor = pre.floor_occupied(f) == SPOTS_PER_FLOOR as int;
    &&& bs.len() == 1 + (if opens_lot { 1int } else { 0int }) + (if opens_floor {
        1int
    } else {
        0int
    })
    &&& opens_lot ==> bs[0] == Broadcast::OpenParkingLot
    &&& opens_floor ==> bs[if opens_lot { 1int } else { 0int }] == Broadcast::OpenFloor {
        target: client,
    }
    &&& bs.last() matches Broadcast::ParkingLotState { snapshot } && Ledger::spec_lot_state_of(
        post,
        snapshot,
    )
}

/// Everything `accept_arrival` promises, for a given identity: refusals are
/// no-ops with the exact refusal reason, and an acceptance has exactly the
/// arrival effect and the arrival broadcasts.
pub open spec fn arrival_outcome(
    pre: Coordinator,
    post: Coordinator,
    client: ClientId,
    parking_space: i32,
    timestamp: i64,
    r: Result<Vec<Broadcast>, HandlerError>,
) -> bool {
    &&& post.clients == pre.clients
    &&& (r is Err ==> post == pre)
    &&& (!client.is_floor() ==> r == Err::<Vec<Broadcast>, HandlerError>(
        HandlerError::NotAFloorUnit,
    ))
    &&& (client.is_floor() ==> match pre.ledger.spec_park_err(client.spec_index(), parking_space) {
        Some(e) => r == Err::<Vec<Broadcast>, HandlerError>(HandlerError::Ledger(e)),
        None => r matches Ok(bs) && arrival_effect(
            pre.ledger,
            post.ledger,
            client.spec_index() as int,
            parking_space as int,
            timestamp,
        ) && arrival_broadcasts(bs@, client, post.ledger, client.spec_index() as int),
    })
}

/// Everything `accept_departure` promises, for a given identity.
pub open spec fn departure_outcome(
    pre: Coordinator,
    post: Coordinator,
    client: ClientId,
    parking_space: i32,
    timestamp: i64,
    r: Result<Vec<Broadcast>, HandlerError>,
) -> bool {
    &&& post.clients == pre.clients
    &&& (r is Err ==> post == pre)
    &&& (!client.is_floor() ==> r == Err::<Vec<Broadcast>, HandlerError>(
        HandlerError::NotAFloorUnit,
    ))
    &&& (client.is_floor() ==> match pre.ledger.spec_unpark_err(
        client.spec_index(),
        parking_space,
    ) {
        Some(e) => r == Err::<Vec<Broadcast>, HandlerError>(HandlerError::Ledger(e)),
        None => r matches Ok(bs) && departure_effect(
            pre.ledger,
            post.ledger,
            client.spec_index() as int,
            parking_space as int,
            timestamp,
        ) && departure_broadcasts(
            bs@,
            client,
            pre.ledger,
            post.ledger,
            client.spec_index() as int,
        ),
    })
}

/// What a unit is pushed on every (re)connect: the console gets the full
/// snapshot; a floor unit gets its own occupancy row (spot for spot the
/// ledger's committed state), any active close side-signal, and the snapshot
/// refresh for the console group.
pub open spec fn connect_broadcasts(bs: Seq<Broadcast>, client: ClientId, l: Ledger) -> bool {
    if client == ClientId::App {
        &&& bs.len() == 1
        &&& bs[0] matches Broadcast::ParkingLotState { snapshot } && Ledger::spec_lot_state_of(
            l,
            snapshot,
        )
    } else {
        let f = client.spec_index() as int;
        let warns_lot = client == ClientId::GroundFloor && l.total_occupied() >= LOT_CAPACITY as int;
        let warns_floor = !warns_lot && l.floor_occupied(f) >= SPOTS_PER_FLOOR as int;
        &&& bs.len() == 2 + (if warns_lot || warns_floor { 1int } else { 0int })
        &&& bs[0] matches Broadcast::FloorState { target, occupancy } && target == client
            && occupancy@.len() == l.floors@[f].spots@.len() && (forall|j: int|
            0 <= j < occupancy@.len() ==> #[trigger] occupancy@[j] == l.spot_occupied(f, j))
        &&& warns_lot ==> bs[1] == Broadcast::CloseParkingLot
        &&& warns_floor ==> bs[1] == Broadcast::CloseFloor { target: client }
        &&& bs.last() matches Broadcast::ParkingLotState { snapshot } && Ledger::spec_lot_state_of(
            l,
            snapshot,
        )
    }
}

impl Coordinator {
    pub open spec fn wf(self) -> bool {
        self.ledger.wf()
    }

    pub fn new() -> (r: Coordinator)
        ensures
            r.wf(),
            r.ledger.is_initial(),
            forall|sid: Seq<char>| #[trigger] r.clients.lookup(sid) is None,
    {
        Coordinator { ledger: Ledger::new(), clients: ConnectionRegistry::new() }
    }

    /// Registers a connecting unit under the identity its header declares.
    /// A missing or unrecognized identity is refused and nothing is recorded
    /// (fail-closed); the caller then drops the connection.
    pub fn save_connection(&mut self, sid: String, client_id_header: Option<&str>) -> (r: bool)
        requires
            old(self).wf(),
        ensures
            final(self).wf(),
            final(self).ledger == old(self).ledger,
            r == (client_id_header matches Some(h) && ClientId::spec_from_str(h@) is Some),
            !r ==> final(self).clients == old(self).clients,
            client_id_header matches Some(h) ==> (ClientId::spec_from_str(h@) matches Some(c)
                ==> {
                &&& final(self).clients.lookup(sid@) == Some(c)
                &&& forall|k: Seq<char>|
                    k != sid@ ==> #[trigger] final(self).clients.lookup(k) == old(
                        self,
                    ).clients.lookup(k)
            }),
    {
        match client_id_header {
            Some(header) => match ClientId::from_str(header) {
                Some(client) => {
                    self.clients.insert(sid, client);
                    true
                },
                None => false,
            },
            None => false,
        }
    }

    /// Forgets a connection's registration when it goes away.
    pub fn handle_disconnect(&mut self, sid: &String) -> (r: Option<ClientId>)
        requires
            old(self).wf(),
        ensures
            final(self).wf(),
            final(self).ledger == old(self).ledger,
            r == old(self).clients.lookup(sid@),
            final(self).clients.lookup(sid@) is None,
            forall|k: Seq<char>|
                k != sid@ ==> #[trigger] final(self).clients.lookup(k) == old(
                    self,
                ).clients.lookup(k),
    {
        self.clients.remove(sid)
    }

    /// The push made to a unit right after it (re)connects: its full current
    /// snapshot plus any active close side-signal, so reconnection is a full
    /// resync with no delta replay.
    pub fn send_floor_state(&self, sid: &String) -> (r: Result<Vec<Broadcast>, HandlerError>)
        requires
            self.wf(),
        ensures
            r is Err <==> self.clients.lookup(sid@) is None,
            r matches Err(e) ==> e == HandlerError::UnknownConnection,
            self.clients.lookup(sid@) matches Some(c) ==> r matches Ok(bs) && connect_broadcasts(
                bs@,
                c,
                self.ledger,
            ),
    {
        let client = match self.clients.get(sid) {
            Some(client) => client,
            None => {
                return Err(HandlerError::UnknownConnection);
            },
        };
        let mut broadcasts: Vec<Broadcast> = Vec::new();
        if client.to_index() < FLOOR_COUNT as i32 {
            let floor = match self.ledger.get_floor(client.to_index()) {
                Ok(floor) => floor,
                Err(_) => {
                    return Err(HandlerError::UnknownConnection);
                },
            };
            broadcasts.push(
                Broadcast::FloorState { target: client, occupancy: floor.as_bool_vec() },
            );
            if client == ClientId::GroundFloor && self.ledger.parking_lot_is_full() {
                broadcasts.push(Broadcast::CloseParkingLot);
            } else if self.ledger.floor_is_full(client.to_index()) {
                broadcasts.push(Broadcast::CloseFloor { target: client });
            }
        }
        broadcasts.push(Broadcast::ParkingLotState { snapshot: self.ledger.get_parking_lot_state() });
        Ok(broadcasts)
    }

    /// Ingests a floor unit's arrival event: validates it, commits it to the
    /// ledger, applies the close-at-capacity policy, and plans the
    /// broadcasts. A refusal changes nothing and broadcasts nothing.
    pub fn accept_arrival(&mut self, client: ClientId, parking_space: i32, timestamp: i64) -> (r:
        Result<Vec<Broadcast>, HandlerError>)
        requires
            old(self).wf(),
        ensures
            final(self).wf(),
            arrival_outcome(*old(self), *final(self), client, parking_space, timestamp, r),
    {
        let f = client.to_index();
        if f >= FLOOR_COUNT as i32 {
            return Err(HandlerError::NotAFloorUnit);
        }
        let (closed_floor, closed_lot) = match commit_arrival(
            &mut self.ledger,
            f,
            parking_space,
            timestamp,
        ) {
            Ok(flags) => flags,
            Err(e) => {
                return Err(HandlerError::Ledger(e));
            },
        };
        let mut broadcasts: Vec<Broadcast> = Vec::new();
        if closed_floor {
            broadcasts.push(Broadcast::CloseFloor { target: client });
        }
        if closed_lot {
            broadcasts.push(Broadcast::CloseParkingLot);
        }
        let snapshot = self.ledger.get_parking_lot_state();
        broadcasts.push(Broadcast::ParkingLotState { snapshot });
        Ok(broadcasts)
    }

    /// Ingests a floor unit's departure event: validates it (a departure
    /// from an empty spot is refused with nothing changed and nothing
    /// broadcast), applies the reopen-below-capacity policy, commits the
    /// exit, and plans the broadcasts.
    #[verifier::rlimit(50)]
    pub fn accept_departure(&mut self, client: ClientId, parking_space: i32, timestamp: i64) -> (r:
        Result<Vec<Broadcast>, HandlerError>)
        requires
            old(self).wf(),
        ensures
            final(self).wf(),
            departure_outcome(*old(self), *final(self), client, parking_space, timestamp, r),
    {
        let f = client.to_index();
        if f >= FLOOR_COUNT as i32 {
            return Err(HandlerError::NotAFloorUnit);
        }
        match self.ledger.get_spot(f, parking_space) {
            Ok(spot) => {
                if spot.parked_vehicle.is_none() {
                    return Err(HandlerError::Ledger(LedgerError::SpotEmpty));
                }
            },
            Err(e) => {
                return Err(HandlerError::Ledger(e));
            },
        }
        let ghost pre = self.ledger;
        proof {
            crate::ledger::lemma_ledger_occupancy_bounds(pre);
        }
        let mut broadcasts: Vec<Broadcast> = Vec::new();
        if self.ledger.parking_lot_is_full() {
            self.ledger.open_parking_lot();
            broadcasts.push(Broadcast::OpenParkingLot);
        }
        if self.ledger.floor_is_full(f) {
            let _ = self.ledger.open_floor(f);
            broadcasts.push(Broadcast::OpenFloor { target: client });
        }
        let ghost mid = self.ledger;
        match self.ledger.unpark_vehicle(f, parking_space, timestamp) {
            Ok(_) => (),
            Err(_) => {
                // Unreachable: the spot was checked to be occupied and the
                // flag updates touch no spots.
                return Err(HandlerError::Ledger(LedgerError::SpotEmpty));
            },
        }
        proof {
            let fi = f as int;
            let si = parking_space as int;
            assert(self.ledger.floors@[fi].spots@ =~= mid.floors@[fi].spots@.update(
                si,
                self.ledger.floors@[fi].spots@[si],
            ));
            lemma_occupied_count_update(
                mid.floors@[fi].spots@,
                si,
                self.ledger.floors@[fi].spots@[si],
            );
            assert forall|g: int|
                0 <= g < FLOOR_COUNT && g != fi implies #[trigger] self.ledger.floor_occupied(g)
                == pre.floor_occupied(g) by {
                assert(self.ledger.floors@[g].spots@ =~= pre.floors@[g].spots@);
            }
            assert(mid.floors@[fi].spots@ == pre.floors@[fi].spots@);
        }
        let snapshot = self.ledger.get_parking_lot_state();
        broadcasts.push(Broadcast::ParkingLotState { snapshot });
        Ok(broadcasts)
    }

    /// An arrival event from a live connection: the floor is the sender's
    /// registered identity, never the payload.
    pub fn handle_car_arrived(&mut self, sid: &String, payload: &ParkingSpaceModifiedPayload) -> (r:
        Result<Vec<Broadcast>, HandlerError>)
        requires
            old(self).wf(),
        ensures
            final(self).wf(),
            old(self).clients.lookup(sid@) is None ==> r == Err::<Vec<Broadcast>, HandlerError>(
                HandlerError::UnknownConnection,
            ) && *final(self) == *old(self),
            old(self).clients.lookup(sid@) matches Some(c) ==> arrival_outcome(
                *old(self),
                *final(self),
                c,
                payload.parking_space,
                payload.timestamp,
                r,
            ),
    {
        let client = match self.clients.get(sid) {
            Some(client) => client,
            None => {
                return Err(HandlerError::UnknownConnection);
            },
        };
        self.accept_arrival(client, payload.parking_space, payload.timestamp)
    }

    /// A departure event from a live connection.
    pub fn handle_car_departed(&mut self, sid: &String, payload: &ParkingSpaceModifiedPayload) -> (
        r: Result<Vec<Broadcast>, HandlerError>)
        requires
            old(self).wf(),
        ensures
            final(self).wf(),
            old(self).clients.lookup(sid@) is None ==> r == Err::<Vec<Broadcast>, HandlerError>(
                HandlerError::UnknownConnection,
            ) && *final(self) == *old(self),
            old(self).clients.lookup(sid@) matches Some(c) ==> departure_outcome(
                *old(self),
                *final(self),
                c,
                payload.parking_space,
                payload.timestamp,
                r,
            ),
    {
        let client = match self.clients.get(sid) {
            Some(client) => client,
            None => {
                return Err(HandlerError::UnknownConnection);
            },
        };
        self.accept_departure(client, payload.parking_space, payload.timestamp)
    }

    /// Operator command: close one floor, whatever its occupancy (an
    /// override), and signal that floor's group.
    pub fn handle_close_floor(&mut self, floor_number: i32) -> (r: Result<
        Vec<Broadcast>,
        HandlerError,
    >)
        requires
            old(self).wf(),
        ensures
            final(self).wf(),
            final(self).clients == old(self).clients,
            r is Err <==> !(0 <= floor_number < FLOOR_COUNT as i32),
            r is Err ==> *final(self) == *old(self) && r == Err::<Vec<Broadcast>, HandlerError>(
                HandlerError::Ledger(LedgerError::InvalidFloor),
            ),
            r matches Ok(bs) ==> {
                &&& final(self).ledger.floors_closed@ == old(self).ledger.floors_closed@.update(
                    floor_number as int,
                    true,
                )
                &&& Ledger::only_floor_flags_changed(old(self).ledger, final(self).ledger)
                &&& bs@.len() == 2
                &&& bs@[0] matches Broadcast::CloseFloor { target } && target.spec_index()
                    == floor_number
                &&& bs@[1] matches Broadcast::ParkingLotState { snapshot }
                    && Ledger::spec_lot_state_of(final(self).ledger, snapshot)
            },
    {
        if floor_number < 0 || floor_number >= FLOOR_COUNT as i32 {
            return Err(HandlerError::Ledger(LedgerError::InvalidFloor));
        }
        let target = match ClientId::from_index(floor_number) {
            Some(client) => client,
            None => {
                return Err(HandlerError::Ledger(LedgerError::InvalidFloor));
            },
        };
        let _ = self.ledger.close_floor(floor_number);
        let mut broadcasts: Vec<Broadcast> = Vec::new();
        broadcasts.push(Broadcast::CloseFloor { target });
        broadcasts.push(
            Broadcast::ParkingLotState { snapshot: self.ledger.get_parking_lot_state() },
        );
        Ok(broadcasts)
    }

    /// Operator command: reopen one floor and signal that floor's group.
    pub fn handle_open_floor(&mut self, floor_number: i32) -> (r: Result<
        Vec<Broadcast>,
        HandlerError,
    >)
        requires
            old(self).wf(),
        ensures
            final(self).wf(),
            final(self).clients == old(self).clients,
            r is Err <==> !(0 <= floor_number < FLOOR_COUNT as i32),
            r is Err ==> *final(self) == *old(self) && r == Err::<Vec<Broadcast>, HandlerError>(
                HandlerError::Ledger(LedgerError::InvalidFloor),
            ),
            r matches Ok(bs) ==> {
                &&& final(self).ledger.floors_closed@ == old(self).ledger.floors_closed@.update(
                    floor_number as int,
                    false,
                )
                &&& Ledger::only_floor_flags_changed(old(self).ledger, final(self).ledger)
                &&& bs@.len() == 2
                &&& bs@[0] matches Broadcast::OpenFloor { target } && target.spec_index()
                    == floor_number
                &&& bs@[1] matches Broadcast::ParkingLotState { snapshot }
                    && Ledger::spec_lot_state_of(final(self).ledger, snapshot)
            },
    {
        if floor_number < 0 || floor_number >= FLOOR_COUNT as i32 {
            return Err(HandlerError::Ledger(LedgerError::InvalidFloor));
        }
        let target = match ClientId::from_index(floor_number) {
            Some(client) => client,
            None => {
                return Err(HandlerError::Ledger(LedgerError::InvalidFloor));
            },
        };
        let _ = self.ledger.open_floor(floor_number);
        let mut broadcasts: Vec<Broadcast> = Vec::new();
        broadcasts.push(Broadcast::OpenFloor { target });
        broadcasts.push(
            Broadcast::ParkingLotState { snapshot: self.ledger.get_parking_lot_state() },
        );
        Ok(broadcasts)
    }

    /// Operator command: close the whole lot and signal the ground floor's
    /// group, which owns the entry barrier.
    pub fn handle_close_parking_lot(&mut self) -> (bs: Vec<Broadcast>)
        requires
            old(self).wf(),
        ensures
            final(self).wf(),
            final(self).clients == old(self).clients,
            final(self).ledger.is_closed,
            Ledger::only_lot_flag_changed(old(self).ledger, final(self).ledger),
            bs@.len() == 2,
            bs@[0] == Broadcast::CloseParkingLot,
            bs@[1] matches Broadcast::ParkingLotState { snapshot } && Ledger::spec_lot_state_of(
                final(self).ledger,
                snapshot,
            ),
    {
        self.ledger.close_parking_lot();
        let mut broadcasts: Vec<Broadcast> = Vec::new();
        broadcasts.push(Broadcast::CloseParkingLot);
        broadcasts.push(
            Broadcast::ParkingLotState { snapshot: self.ledger.get_parking_lot_state() },
        );
        broadcasts
    }

    /// Operator command: reopen the whole lot.
    pub fn handle_open_parking_lot(&mut self) -> (bs: Vec<Broadcast>)
        requires
            old(self).wf(),
        ensures
            final(self).wf(),
            final(self).clients == old(self).clients,
            !final(self).ledger.is_closed,
            Ledger::only_lot_flag_changed(old(self).ledger, final(self).ledger),
            bs@.len() == 2,
            bs@[0] == Broadcast::OpenParkingLot,
            bs@[1] matches Broadcast::ParkingLotState { snapshot } && Ledger::spec_lot_state_of(
                final(self).ledger,
                snapshot,
            ),
    {
        self.ledger.open_parking_lot();
        let mut broadcasts: Vec<Broadcast> = Vec::new();
        broadcasts.push(Broadcast::OpenParkingLot);
        broadcasts.push(
            Broadcast::ParkingLotState { snapshot: self.ledger.get_parking_lot_state() },
        );
        broadcasts
    }

    /// Operator command: wipe the ledger back to its fresh state — every
    /// spot empty, every floor and the lot open, the exit history erased —
    /// whatever state it was in, and republish that to every group: each
    /// floor gets an all-empty occupancy row and an open signal, the ground
    /// floor the lot's open signal, the console the fresh snapshot.
    pub fn handle_reset_database(&mut self) -> (bs: Vec<Broadcast>)
        requires
            old(self).wf(),
        ensures
            final(self).wf(),
            final(self).clients == old(self).clients,
            final(self).ledger.is_initial(),
            bs@.len() == 8,
            forall|k: int|
                0 <= k < FLOOR_COUNT ==> ((#[trigger] bs@[2 * k]) matches Broadcast::FloorState {
                    target,
                    occupancy,
                } && target.spec_index() == k && target.is_floor() && occupancy@.len()
                    == SPOTS_PER_FLOOR && (forall|j: int|
                    0 <= j < occupancy@.len() ==> !(#[trigger] occupancy@[j]))),
            forall|k: int|
                0 <= k < FLOOR_COUNT ==> ((#[trigger] bs@[2 * k + 1]) matches Broadcast::OpenFloor {
                    target,
                } && target.spec_index() == k),
            bs@[6] == Broadcast::OpenParkingLot,
            bs@[7] matches Broadcast::ParkingLotState { snapshot } && Ledger::spec_lot_state_of(
                final(self).ledger,
                snapshot,
            ),
    {
        self.ledger.reset_parking_lot();
        let mut broadcasts: Vec<Broadcast> = Vec::new();
        let empty_row_0 = empty_occupancy_row();
        let empty_row_1 = empty_occupancy_row();
        let empty_row_2 = empty_occupancy_row();
        broadcasts.push(
            Broadcast::FloorState { target: ClientId::GroundFloor, occupancy: empty_row_0 },
        );
        broadcasts.push(Broadcast::OpenFloor { target: ClientId::GroundFloor });
        broadcasts.push(
            Broadcast::FloorState { target: ClientId::FirstFloor, occupancy: empty_row_1 },
        );
        broadcasts.push(Broadcast::OpenFloor { target: ClientId::FirstFloor });
        broadcasts.push(
            Broadcast::FloorState { target: ClientId::SecondFloor, occupancy: empty_row_2 },
        );
        broadcasts.push(Broadcast::OpenFloor { target: ClientId::SecondFloor });
        broadcasts.push(Broadcast::OpenParkingLot);
        broadcasts.push(
            Broadcast::ParkingLotState { snapshot: self.ledger.get_parking_lot_state() },
        );
        broadcasts
    }
}

/// Commits an accepted arrival to the ledger and applies the
/// close-at-capacity policy; reports whether the floor and the lot just
/// filled, so the caller can plan the close signals.
fn commit_arrival(l: &mut Ledger, floor_number: i32, parking_space: i32, timestamp: i64) -> (r:
    Result<(bool, bool), LedgerError>)
    requires
        old(l).wf(),
        0 <= floor_number < FLOOR_COUNT as i32,
    ensures
        final(l).wf(),
        r is Err ==> *final(l) == *old(l),
        r matches Err(e) ==> old(l).spec_park_err(floor_number, parking_space) == Some(e),
        r is Ok <==> old(l).spec_park_err(floor_number, parking_space) is None,
        r matches Ok(flags) ==> {
            &&& arrival_effect(*old(l), *final(l), floor_number as int, parking_space as int, timestamp)
            &&& flags.0 == (final(l).floor_occupied(floor_number as int) == SPOTS_PER_FLOOR as int)
            &&& flags.1 == (final(l).total_occupied() == LOT_CAPACITY as int)
        },
{
    let ghost pre = *l;
    match l.park_vehicle(timestamp, floor_number, parking_space) {
        Ok(_) => (),
        Err(e) => {
            return Err(e);
        },
    }
    proof {
        let fi = floor_number as int;
        let si = parking_space as int;
        assert(l.floors@[fi].spots@ =~= pre.floors@[fi].spots@.update(
            si,
            l.floors@[fi].spots@[si],
        ));
        lemma_occupied_count_update(pre.floors@[fi].spots@, si, l.floors@[fi].spots@[si]);
        assert forall|g: int|
            0 <= g < FLOOR_COUNT && g != fi implies #[trigger] l.floor_occupied(g)
            == pre.floor_occupied(g) by {
            assert(l.floors@[g].spots@ =~= pre.floors@[g].spots@);
        }
        crate::ledger::lemma_ledger_occupancy_bounds(*l);
    }
    let closed_floor = l.floor_is_full(floor_number);
    if closed_floor {
        let _ = l.close_floor(floor_number);
    }
    let closed_lot = l.parking_lot_is_full();
    if closed_lot {
        l.close_parking_lot();
    }
    Ok((closed_floor, closed_lot))
}

/// An all-empty occupancy row, as broadcast to each floor after a reset.
fn empty_occupancy_row() -> (r: Vec<bool>)
    ensures
        r@.len() == SPOTS_PER_FLOOR,
        forall|j: int| 0 <= j < r@.len() ==> !(#[trigger] r@[j]),
{
    let mut row: Vec<bool> = Vec::new();
    let mut j: usize = 0;
    while j < SPOTS_PER_FLOOR
        invariant
            j <= SPOTS_PER_FLOOR,
            row@.len() == j,
            forall|k: int| 0 <= k < j ==> !(#[trigger] row@[k]),
        decreases SPOTS_PER_FLOOR - j,
    {
        row.push(false);
        j += 1;
    }
    row
}

/// Whether a floor's closed flag is exactly its at-capacity condition, as it
/// is when only the automatic policy (no operator override) has driven it.
pub open spec fn floor_tracks_capacity(l: Ledger, f: int) -> bool {
    l.floors_closed@[f] == (l.floor_occupied(f) == SPOTS_PER_FLOOR as int)
}

/// Whether the lot's closed flag is exactly its at-capacity condition.
pub open spec fn lot_tracks_capacity(l: Ledger) -> bool {
    l.is_closed == (l.total_occupied() == LOT_CAPACITY as int)
}

/// Close-at-capacity policy, arrival side: absent an operator override, a
/// floor's closed flag and the lot's closed flag agree with the capacity
/// thresholds before an accepted arrival if and only if they do after it —
/// the floor closes exactly when its count reaches capacity, the lot exactly
/// when the garage fills.
pub proof fn lemma_arrival_capacity_policy(
    pre: Coordinator,
    post: Coordinator,
    client: ClientId,
    parking_space: i32,
    timestamp: i64,
    bs: Vec<Broadcast>,
)
    requires
        pre.wf(),
        post.wf(),
        client.is_floor(),
        arrival_outcome(pre, post, client, parking_space, timestamp, Ok(bs)),
    ensures
        forall|g: int|
            0 <= g < FLOOR_COUNT && floor_tracks_capacity(pre.ledger, g)
                ==> #[trigger] floor_tracks_capacity(post.ledger, g),
        lot_tracks_capacity(pre.ledger) ==> lot_tracks_capacity(post.ledger),
{
    let f = client.spec_index() as int;
    crate::ledger::lemma_ledger_occupancy_bounds(post.ledger);
    assert forall|g: int|
        0 <= g < FLOOR_COUNT && floor_tracks_capacity(pre.ledger, g) implies #[trigger]
        floor_tracks_capacity(post.ledger, g) by {
        if g == f {
            assert(post.ledger.floor_occupied(f) <= SPOTS_PER_FLOOR as int);
            assert(pre.ledger.floor_occupied(f) < SPOTS_PER_FLOOR as int);
        }
    }
    assert(post.ledger.total_occupied() <= LOT_CAPACITY as int);
}

/// Reopen-below-capacity policy, departure side: absent an operator
/// override, the closed flags keep agreeing with the capacity thresholds
/// across an accepted departure — a full floor reopens exactly as its count
/// drops below capacity, the full lot likewise.
pub proof fn lemma_departure_capacity_policy(
    pre: Coordinator,
    post: Coordinator,
    client: ClientId,
    parking_space: i32,
    timestamp: i64,
    bs: Vec<Broadcast>,
)
    requires
        pre.wf(),
        post.wf(),
        client.is_floor(),
        departure_outcome(pre, post, client, parking_space, timestamp, Ok(bs)),
    ensures
        forall|g: int|
            0 <= g < FLOOR_COUNT && floor_tracks_capacity(pre.ledger, g)
                ==> #[trigger] floor_tracks_capacity(post.ledger, g),
        lot_tracks_capacity(pre.ledger) ==> lot_tracks_capacity(post.ledger),
{
    let f = client.spec_index() as int;
    crate::ledger::lemma_ledger_occupancy_bounds(pre.ledger);
    assert forall|g: int|
        0 <= g < FLOOR_COUNT && floor_tracks_capacity(pre.ledger, g) implies #[trigger]
        floor_tracks_capacity(post.ledger, g) by {
        if g == f {
            assert(pre.ledger.floor_occupied(f) <= SPOTS_PER_FLOOR as int);
        }
    }
    assert(pre.ledger.total_occupied() <= LOT_CAPACITY as int);
}

} // verus!
