use parking_garage::client::ClientId;
use parking_garage::coordinator::{Broadcast, Coordinator, HandlerError};
use parking_garage::ledger::LedgerError;
use parking_garage::payloads::ParkingSpaceModifiedPayload;

fn connect(coordinator: &mut Coordinator, sid: &str, identity: &str) {
    assert!(coordinator.save_connection(sid.to_owned(), Some(identity)));
}

#[test]
fn connections_without_a_valid_identity_are_refused() {
    let mut coordinator = Coordinator::new();
    assert!(!coordinator.save_connection("s1".to_owned(), None));
    assert!(!coordinator.save_connection("s2".to_owned(), Some("basement")));
    assert!(coordinator.save_connection("s3".to_owned(), Some("first_floor")));
    assert!(coordinator.save_connection("s4".to_owned(), Some("app")));
    assert_eq!(coordinator.clients.get(&"s1".to_owned()), None);
    assert_eq!(coordinator.clients.get(&"s2".to_owned()), None);
    assert_eq!(coordinator.clients.get(&"s3".to_owned()), Some(ClientId::FirstFloor));
    assert_eq!(coordinator.clients.get(&"s4".to_owned()), Some(ClientId::App));
}

#[test]
fn disconnect_forgets_the_registration() {
    let mut coordinator = Coordinator::new();
    connect(&mut coordinator, "s1", "ground_floor");
    assert_eq!(coordinator.handle_disconnect(&"s1".to_owned()), Some(ClientId::GroundFloor));
    assert_eq!(coordinator.clients.get(&"s1".to_owned()), None);
    assert_eq!(coordinator.handle_disconnect(&"s1".to_owned()), None);
}

#[test]
fn reconnecting_replaces_the_identity() {
    let mut coordinator = Coordinator::new();
    connect(&mut coordinator, "s1", "ground_floor");
    connect(&mut coordinator, "s1", "second_floor");
    assert_eq!(coordinator.clients.get(&"s1".to_owned()), Some(ClientId::SecondFloor));
    coordinator.handle_disconnect(&"s1".to_owned());
    assert_eq!(coordinator.clients.get(&"s1".to_owned()), None);
}

#[test]
fn events_from_unknown_connections_are_refused() {
    let mut coordinator = Coordinator::new();
    let payload = ParkingSpaceModifiedPayload { parking_space: 0, timestamp: 5 };
    assert!(matches!(
        coordinator.handle_car_arrived(&"ghost".to_owned(), &payload),
        Err(HandlerError::UnknownConnection)
    ));
    assert!(matches!(
        coordinator.handle_car_departed(&"ghost".to_owned(), &payload),
        Err(HandlerError::UnknownConnection)
    ));
    assert!(matches!(
        coordinator.send_floor_state(&"ghost".to_owned()),
        Err(HandlerError::UnknownConnection)
    ));
}

#[test]
fn the_console_may_not_report_parking_events() {
    let mut coordinator = Coordinator::new();
    connect(&mut coordinator, "console", "app");
    let payload = ParkingSpaceModifiedPayload { parking_space: 0, timestamp: 5 };
    assert!(matches!(
        coordinator.handle_car_arrived(&"console".to_owned(), &payload),
        Err(HandlerError::NotAFloorUnit)
    ));
}

#[test]
fn an_accepted_arrival_broadcasts_the_snapshot() {
    let mut coordinator = Coordinator::new();
    let broadcasts = coordinator
        .accept_arrival(ClientId::FirstFloor, 4, 77)
        .unwrap();
    assert_eq!(broadcasts.len(), 1);
    match &broadcasts[0] {
        Broadcast::ParkingLotState { snapshot } => {
            let parked = snapshot.floors[1].spots[4].parked_vehicle.unwrap();
            assert_eq!(parked.id, 1);
            assert_eq!(parked.entry_time, 77);
        },
        other => panic!("expected the snapshot broadcast, got {:?}", other),
    }
    assert_eq!(broadcasts[0].target(), ClientId::App);
    assert_eq!(broadcasts[0].event_name(), "parking_lot_state");
}

#[test]
fn the_eighth_arrival_closes_the_floor() {
    let mut coordinator = Coordinator::new();
    for s in 0..7 {
        let bs = coordinator.accept_arrival(ClientId::SecondFloor, s, 1).unwrap();
        assert_eq!(bs.len(), 1);
        assert!(!coordinator.ledger.floors_closed[2]);
    }
    let bs = coordinator.accept_arrival(ClientId::SecondFloor, 7, 1).unwrap();
    assert!(coordinator.ledger.floors_closed[2]);
    assert_eq!(bs.len(), 2);
    assert!(matches!(bs[0], Broadcast::CloseFloor { target: ClientId::SecondFloor }));
    assert_eq!(bs[0].event_name(), "close_floor");
    assert!(matches!(bs[1], Broadcast::ParkingLotState { .. }));
}

#[test]
fn a_departure_from_a_full_floor_reopens_it() {
    let mut coordinator = Coordinator::new();
    for s in 0..8 {
        coordinator.accept_arrival(ClientId::GroundFloor, s, 1).unwrap();
    }
    assert!(coordinator.ledger.floors_closed[0]);
    let bs = coordinator.accept_departure(ClientId::GroundFloor, 3, 2).unwrap();
    assert!(!coordinator.ledger.floors_closed[0]);
    assert_eq!(bs.len(), 2);
    assert!(matches!(bs[0], Broadcast::OpenFloor { target: ClientId::GroundFloor }));
    assert!(matches!(bs[1], Broadcast::ParkingLotState { .. }));
}

#[test]
fn an_operator_override_suppresses_the_automatic_reopen() {
    let mut coordinator = Coordinator::new();
    coordinator.accept_arrival(ClientId::GroundFloor, 0, 1).unwrap();
    coordinator.accept_arrival(ClientId::GroundFloor, 1, 1).unwrap();
    coordinator.handle_close_floor(0).unwrap();
    assert!(coordinator.ledger.floors_closed[0]);
    // The floor is closed by hand below capacity: a departure does not reopen it.
    let bs = coordinator.accept_departure(ClientId::GroundFloor, 0, 2).unwrap();
    assert!(coordinator.ledger.floors_closed[0]);
    assert_eq!(bs.len(), 1);
    assert!(matches!(bs[0], Broadcast::ParkingLotState { .. }));
}

#[test]
fn filling_the_garage_closes_the_lot_and_one_exit_reopens_it() {
    let mut coordinator = Coordinator::new();
    let floors = [ClientId::GroundFloor, ClientId::FirstFloor, ClientId::SecondFloor];
    for (f, client) in floors.iter().enumerate() {
        for s in 0..8 {
            let bs = coordinator.accept_arrival(*client, s, 1).unwrap();
            let last = f == 2 && s == 7;
            if last {
                // The 24th arrival closes its floor and the whole lot.
                assert_eq!(bs.len(), 3);
                assert!(matches!(bs[0], Broadcast::CloseFloor { target: ClientId::SecondFloor }));
                assert!(matches!(bs[1], Broadcast::CloseParkingLot));
                assert_eq!(bs[1].target(), ClientId::GroundFloor);
            }
        }
    }
    assert!(coordinator.ledger.is_closed);
    let bs = coordinator.accept_departure(ClientId::FirstFloor, 2, 9).unwrap();
    assert!(!coordinator.ledger.is_closed);
    assert_eq!(bs.len(), 3);
    assert!(matches!(bs[0], Broadcast::OpenParkingLot));
    assert!(matches!(bs[1], Broadcast::OpenFloor { target: ClientId::FirstFloor }));
    assert!(matches!(bs[2], Broadcast::ParkingLotState { .. }));
}

#[test]
fn a_departure_from_an_empty_spot_changes_and_broadcasts_nothing() {
    let mut coordinator = Coordinator::new();
    connect(&mut coordinator, "g", "ground_floor");
    coordinator.accept_arrival(ClientId::GroundFloor, 1, 10).unwrap();
    let before = coordinator.ledger.get_parking_lot_state();
    let payload = ParkingSpaceModifiedPayload { parking_space: 5, timestamp: 20 };
    let result = coordinator.handle_car_departed(&"g".to_owned(), &payload);
    assert!(matches!(result, Err(HandlerError::Ledger(LedgerError::SpotEmpty))));
    // No broadcast came back, and the ledger is exactly as it was.
    let after = coordinator.ledger.get_parking_lot_state();
    assert_eq!(before.is_closed, after.is_closed);
    assert_eq!(before.exited_vehicles.len(), after.exited_vehicles.len());
    for f in 0..3 {
        assert_eq!(before.floors[f].is_closed, after.floors[f].is_closed);
        for s in 0..8 {
            assert_eq!(
                before.floors[f].spots[s].parked_vehicle.map(|v| v.id),
                after.floors[f].spots[s].parked_vehicle.map(|v| v.id)
            );
        }
    }
    assert!(coordinator.ledger.exited_vehicles.is_empty());
}

#[test]
fn reconnect_pushes_the_exact_committed_occupancy() {
    let mut coordinator = Coordinator::new();
    coordinator.accept_arrival(ClientId::FirstFloor, 2, 1).unwrap();
    coordinator.accept_arrival(ClientId::FirstFloor, 6, 2).unwrap();
    coordinator.accept_arrival(ClientId::GroundFloor, 0, 3).unwrap();
    connect(&mut coordinator, "f1", "first_floor");
    let bs = coordinator.send_floor_state(&"f1".to_owned()).unwrap();
    assert_eq!(bs.len(), 2);
    match &bs[0] {
        Broadcast::FloorState { target, occupancy } => {
            assert_eq!(*target, ClientId::FirstFloor);
            assert_eq!(
                occupancy,
                &vec![false, false, true, false, false, false, true, false]
            );
        },
        other => panic!("expected the floor's occupancy row, got {:?}", other),
    }
    assert!(matches!(bs[1], Broadcast::ParkingLotState { .. }));
    // Reconnecting changes nothing: the same full snapshot comes again.
    coordinator.handle_disconnect(&"f1".to_owned());
    connect(&mut coordinator, "f1b", "first_floor");
    let again = coordinator.send_floor_state(&"f1b".to_owned()).unwrap();
    match (&bs[0], &again[0]) {
        (
            Broadcast::FloorState { occupancy: first, .. },
            Broadcast::FloorState { occupancy: second, .. },
        ) => assert_eq!(first, second),
        _ => panic!("expected occupancy rows"),
    }
}

#[test]
fn reconnect_to_a_full_floor_repeats_the_close_signal() {
    let mut coordinator = Coordinator::new();
    for s in 0..8 {
        coordinator.accept_arrival(ClientId::SecondFloor, s, 1).unwrap();
    }
    connect(&mut coordinator, "f2", "second_floor");
    let bs = coordinator.send_floor_state(&"f2".to_owned()).unwrap();
    assert_eq!(bs.len(), 3);
    assert!(matches!(bs[0], Broadcast::FloorState { .. }));
    assert!(matches!(bs[1], Broadcast::CloseFloor { target: ClientId::SecondFloor }));
    assert!(matches!(bs[2], Broadcast::ParkingLotState { .. }));
}

#[test]
fn the_console_connect_push_is_the_snapshot_alone() {
    let mut coordinator = Coordinator::new();
    coordinator.accept_arrival(ClientId::GroundFloor, 7, 4).unwrap();
    connect(&mut coordinator, "console", "app");
    let bs = coordinator.send_floor_state(&"console".to_owned()).unwrap();
    assert_eq!(bs.len(), 1);
    match &bs[0] {
        Broadcast::ParkingLotState { snapshot } => {
            assert!(snapshot.floors[0].spots[7].parked_vehicle.is_some());
        },
        other => panic!("expected the snapshot, got {:?}", other),
    }
}

#[test]
fn operator_commands_toggle_and_broadcast() {
    let mut coordinator = Coordinator::new();
    let bs = coordinator.handle_close_floor(1).unwrap();
    assert!(coordinator.ledger.floors_closed[1]);
    assert_eq!(bs.len(), 2);
    assert!(matches!(bs[0], Broadcast::CloseFloor { target: ClientId::FirstFloor }));
    let bs = coordinator.handle_open_floor(1).unwrap();
    assert!(!coordinator.ledger.floors_closed[1]);
    assert!(matches!(bs[0], Broadcast::OpenFloor { target: ClientId::FirstFloor }));
    assert!(matches!(
        coordinator.handle_close_floor(3),
        Err(HandlerError::Ledger(LedgerError::InvalidFloor))
    ));
    assert!(matches!(
        coordinator.handle_open_floor(-1),
        Err(HandlerError::Ledger(LedgerError::InvalidFloor))
    ));
    let bs = coordinator.handle_close_parking_lot();
    assert!(coordinator.ledger.is_closed);
    assert!(matches!(bs[0], Broadcast::CloseParkingLot));
    let bs = coordinator.handle_open_parking_lot();
    assert!(!coordinator.ledger.is_closed);
    assert!(matches!(bs[0], Broadcast::OpenParkingLot));
}

#[test]
fn reset_reopens_everything_and_republishes() {
    let mut coordinator = Coordinator::new();
    for s in 0..8 {
        coordinator.accept_arrival(ClientId::GroundFloor, s, 1).unwrap();
    }
    coordinator.accept_departure(ClientId::GroundFloor, 2, 5).unwrap();
    coordinator.handle_close_parking_lot();
    let bs = coordinator.handle_reset_database();
    assert!(!coordinator.ledger.is_closed);
    assert_eq!(coordinator.ledger.floors_closed, vec![false, false, false]);
    assert!(coordinator.ledger.exited_vehicles.is_empty());
    for floor in &coordinator.ledger.floors {
        for spot in &floor.spots {
            assert!(spot.parked_vehicle.is_none());
        }
    }
    assert_eq!(bs.len(), 8);
    let floors = [ClientId::GroundFloor, ClientId::FirstFloor, ClientId::SecondFloor];
    for (k, client) in floors.iter().enumerate() {
        match &bs[2 * k] {
            Broadcast::FloorState { target, occupancy } => {
                assert_eq!(target, client);
                assert_eq!(occupancy, &vec![false; 8]);
            },
            other => panic!("expected an empty occupancy row, got {:?}", other),
        }
        match &bs[2 * k + 1] {
            Broadcast::OpenFloor { target } => assert_eq!(target, client),
            other => panic!("expected the open signal, got {:?}", other),
        }
    }
    assert!(matches!(bs[6], Broadcast::OpenParkingLot));
    match &bs[7] {
        Broadcast::ParkingLotState { snapshot } => {
            assert!(snapshot.exited_vehicles.is_empty());
            assert!(!snapshot.is_closed);
        },
        other => panic!("expected the fresh snapshot, got {:?}", other),
    }
}

fn occupied_in(coordinator: &Coordinator, floor: usize) -> usize {
    coordinator.ledger.floors[floor]
        .spots
        .iter()
        .filter(|spot| spot.parked_vehicle.is_some())
        .count()
}

#[test]
fn counts_track_the_spots_through_any_event_sequence() {
    let mut coordinator = Coordinator::new();
    let floors = [ClientId::GroundFloor, ClientId::FirstFloor, ClientId::SecondFloor];
    // A mixed run of accepted and refused arrivals and departures.
    let events: [(usize, i32, bool); 12] = [
        (0, 0, true),
        (0, 0, true),  // arrival on the same spot: refused
        (1, 3, true),
        (1, 3, false), // departure empties it again
        (1, 3, false), // second departure: refused
        (2, 7, true),
        (2, 6, true),
        (0, 9, true),  // no such spot: refused
        (0, 1, true),
        (0, 1, false),
        (2, 7, false),
        (1, 0, true),
    ];
    let mut expected: [[bool; 8]; 3] = [[false; 8]; 3];
    for (step, (floor, spot, arriving)) in events.iter().enumerate() {
        let client = floors[*floor];
        let result = if *arriving {
            coordinator.accept_arrival(client, *spot, step as i64)
        } else {
            coordinator.accept_departure(client, *spot, step as i64)
        };
        let in_range = (0..8).contains(spot);
        let should_accept = in_range && expected[*floor][*spot as usize] != *arriving;
        assert_eq!(result.is_ok(), should_accept, "step {}", step);
        if should_accept {
            expected[*floor][*spot as usize] = *arriving;
        }
        // The per-floor counts always equal the non-empty spots, within bounds.
        let mut total = 0;
        for f in 0..3 {
            let count = occupied_in(&coordinator, f);
            let wanted = expected[f].iter().filter(|occupied| **occupied).count();
            assert_eq!(count, wanted);
            assert!(count <= 8);
            total += count;
        }
        assert!(total <= 24);
    }
    // Three cars still parked; every accepted departure left an exit record.
    assert_eq!(coordinator.ledger.exited_vehicles.len(), 3);
}

#[test]
fn broadcast_targets_and_event_names_follow_the_protocol() {
    let close = Broadcast::CloseParkingLot;
    assert_eq!(close.target(), ClientId::GroundFloor);
    assert_eq!(close.event_name(), "close_parking_lot");
    let open = Broadcast::OpenParkingLot;
    assert_eq!(open.target(), ClientId::GroundFloor);
    assert_eq!(open.event_name(), "open_parking_lot");
    let floor = Broadcast::OpenFloor { target: ClientId::FirstFloor };
    assert_eq!(floor.target(), ClientId::FirstFloor);
    assert_eq!(floor.event_name(), "open_floor");
}
