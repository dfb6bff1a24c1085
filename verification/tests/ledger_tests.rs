use parking_garage::ledger::{Ledger, LedgerError};
use parking_garage::parking_lot::SpotType;

#[test]
fn fresh_ledger_is_open_and_empty() {
    let ledger = Ledger::new();
    assert!(!ledger.is_closed);
    assert_eq!(ledger.floors.len(), 3);
    assert_eq!(ledger.floors_closed, vec![false, false, false]);
    assert!(ledger.exited_vehicles.is_empty());
    assert_eq!(ledger.next_vehicle_id, 1);
    for (f, floor) in ledger.floors.iter().enumerate() {
        assert_eq!(floor.floor_number, f as i32);
        assert_eq!(floor.spots.len(), 8);
        for (s, spot) in floor.spots.iter().enumerate() {
            assert_eq!(spot.spot_number, s as i32);
            assert!(spot.parked_vehicle.is_none());
        }
    }
}

#[test]
fn floors_have_the_standard_category_layout() {
    let ledger = Ledger::new();
    for floor in &ledger.floors {
        assert_eq!(floor.spots[0].spot_type, SpotType::Handicapped);
        assert_eq!(floor.spots[1].spot_type, SpotType::Elderly);
        assert_eq!(floor.spots[2].spot_type, SpotType::Elderly);
        for s in 3..8 {
            assert_eq!(floor.spots[s].spot_type, SpotType::Normal);
        }
    }
}

#[test]
fn parking_hands_out_increasing_ids() {
    let mut ledger = Ledger::new();
    assert_eq!(ledger.park_vehicle(10, 0, 0), Ok(1));
    assert_eq!(ledger.park_vehicle(20, 1, 3), Ok(2));
    assert_eq!(ledger.park_vehicle(30, 0, 7), Ok(3));
    assert_eq!(ledger.next_vehicle_id, 4);
    let parked = ledger.floors[1].spots[3].parked_vehicle.unwrap();
    assert_eq!(parked.id, 2);
    assert_eq!(parked.entry_time, 20);
}

#[test]
fn parking_an_occupied_spot_is_refused_unchanged() {
    let mut ledger = Ledger::new();
    assert_eq!(ledger.park_vehicle(10, 2, 4), Ok(1));
    assert_eq!(ledger.park_vehicle(99, 2, 4), Err(LedgerError::SpotOccupied));
    let parked = ledger.floors[2].spots[4].parked_vehicle.unwrap();
    assert_eq!(parked.id, 1);
    assert_eq!(parked.entry_time, 10);
    assert_eq!(ledger.next_vehicle_id, 2);
}

#[test]
fn out_of_range_indices_are_refused() {
    let mut ledger = Ledger::new();
    assert_eq!(ledger.park_vehicle(10, 3, 0), Err(LedgerError::InvalidFloor));
    assert_eq!(ledger.park_vehicle(10, -1, 0), Err(LedgerError::InvalidFloor));
    assert_eq!(ledger.park_vehicle(10, 0, 8), Err(LedgerError::InvalidSpot));
    assert_eq!(ledger.unpark_vehicle(0, -3, 10), Err(LedgerError::InvalidSpot));
    assert_eq!(ledger.unpark_vehicle(5, 0, 10), Err(LedgerError::InvalidFloor));
}

#[test]
fn unparking_moves_the_vehicle_to_the_exit_history() {
    let mut ledger = Ledger::new();
    assert_eq!(ledger.park_vehicle(100, 0, 2), Ok(1));
    assert_eq!(ledger.unpark_vehicle(0, 2, 700), Ok(()));
    assert!(ledger.floors[0].spots[2].parked_vehicle.is_none());
    assert_eq!(ledger.exited_vehicles.len(), 1);
    let record = &ledger.exited_vehicles[0];
    assert_eq!(record.id, 1);
    assert_eq!(record.entry_time, 100);
    assert_eq!(record.exit_time, Some(700));
}

#[test]
fn unparking_an_empty_spot_is_refused_unchanged() {
    let mut ledger = Ledger::new();
    assert_eq!(ledger.unpark_vehicle(1, 1, 10), Err(LedgerError::SpotEmpty));
    assert!(ledger.exited_vehicles.is_empty());
    assert!(ledger.floors[1].spots[1].parked_vehicle.is_none());
}

#[test]
fn a_floor_reports_full_only_with_all_eight_spots_taken() {
    let mut ledger = Ledger::new();
    for s in 0..7 {
        ledger.park_vehicle(s as i64, 1, s).unwrap();
    }
    assert!(!ledger.floor_is_full(1));
    ledger.park_vehicle(7, 1, 7).unwrap();
    assert!(ledger.floor_is_full(1));
    assert!(!ledger.floor_is_full(0));
    assert!(!ledger.floor_is_full(3));
    assert!(!ledger.parking_lot_is_full());
}

#[test]
fn the_lot_reports_full_only_at_capacity() {
    let mut ledger = Ledger::new();
    for f in 0..3 {
        for s in 0..8 {
            ledger.park_vehicle(0, f, s).unwrap();
        }
    }
    assert!(ledger.parking_lot_is_full());
    // Every further arrival is refused: occupancy can never pass 24.
    for f in 0..3 {
        for s in 0..8 {
            assert_eq!(ledger.park_vehicle(1, f, s), Err(LedgerError::SpotOccupied));
        }
    }
    ledger.unpark_vehicle(2, 5, 50).unwrap();
    assert!(!ledger.parking_lot_is_full());
}

#[test]
fn a_spent_id_counter_refuses_arrivals() {
    let mut ledger = Ledger::new();
    ledger.next_vehicle_id = i32::MAX;
    assert_eq!(ledger.park_vehicle(0, 0, 0), Err(LedgerError::VehicleIdsExhausted));
    assert!(ledger.floors[0].spots[0].parked_vehicle.is_none());
    assert_eq!(ledger.next_vehicle_id, i32::MAX);
}

#[test]
fn close_and_open_toggle_the_flags() {
    let mut ledger = Ledger::new();
    assert_eq!(ledger.close_floor(1), Ok(()));
    assert_eq!(ledger.is_floor_closed(1), Ok(true));
    assert_eq!(ledger.is_floor_closed(0), Ok(false));
    assert_eq!(ledger.open_floor(1), Ok(()));
    assert_eq!(ledger.is_floor_closed(1), Ok(false));
    assert_eq!(ledger.close_floor(7), Err(LedgerError::InvalidFloor));
    assert_eq!(ledger.is_floor_closed(-1), Err(LedgerError::InvalidFloor));
    assert!(!ledger.is_parking_lot_closed());
    ledger.close_parking_lot();
    assert!(ledger.is_parking_lot_closed());
    ledger.open_parking_lot();
    assert!(!ledger.is_parking_lot_closed());
}

#[test]
fn exit_history_reads_most_recent_first() {
    let mut ledger = Ledger::new();
    ledger.park_vehicle(1, 0, 0).unwrap();
    ledger.park_vehicle(2, 0, 1).unwrap();
    ledger.unpark_vehicle(0, 0, 100).unwrap();
    ledger.unpark_vehicle(0, 1, 200).unwrap();
    let exited = ledger.get_exited_vehicles();
    assert_eq!(exited.len(), 2);
    assert_eq!(exited[0].id, 2);
    assert_eq!(exited[0].exit_time, Some(200));
    assert_eq!(exited[1].id, 1);
    assert_eq!(exited[1].exit_time, Some(100));
}

#[test]
fn snapshot_mirrors_the_ledger() {
    let mut ledger = Ledger::new();
    ledger.park_vehicle(42, 1, 5).unwrap();
    ledger.close_floor(2).unwrap();
    ledger.park_vehicle(50, 0, 0).unwrap();
    ledger.unpark_vehicle(0, 0, 110).unwrap();
    let snapshot = ledger.get_parking_lot_state();
    assert!(!snapshot.is_closed);
    assert_eq!(snapshot.floors.len(), 3);
    assert!(!snapshot.floors[0].is_closed);
    assert!(snapshot.floors[2].is_closed);
    let spot = snapshot.floors[1].spots[5].parked_vehicle.unwrap();
    assert_eq!(spot.id, 1);
    assert_eq!(spot.entry_time, 42);
    assert_eq!(spot.exit_time, None);
    assert!(snapshot.floors[0].spots[0].parked_vehicle.is_none());
    assert_eq!(snapshot.floors[1].spots[0].spot_type, 1);
    assert_eq!(snapshot.floors[1].spots[1].spot_type, 2);
    assert_eq!(snapshot.floors[1].spots[5].spot_type, 0);
    assert_eq!(snapshot.exited_vehicles.len(), 1);
    assert_eq!(snapshot.exited_vehicles[0].id, 2);
}

#[test]
fn get_floor_copies_one_row() {
    let mut ledger = Ledger::new();
    ledger.park_vehicle(9, 2, 3).unwrap();
    let floor = ledger.get_floor(2).unwrap();
    assert_eq!(floor.floor_number, 2);
    assert_eq!(floor.spots.len(), 8);
    assert!(floor.spots[3].parked_vehicle.is_some());
    assert!(ledger.get_floor(3).is_err());
    let occupancy = floor.as_bool_vec();
    assert_eq!(
        occupancy,
        vec![false, false, false, true, false, false, false, false]
    );
}

#[test]
fn get_spot_returns_the_named_spot() {
    let mut ledger = Ledger::new();
    ledger.park_vehicle(3, 0, 6).unwrap();
    let spot = ledger.get_spot(0, 6).unwrap();
    assert_eq!(spot.spot_number, 6);
    assert!(spot.parked_vehicle.is_some());
    assert_eq!(ledger.get_spot(0, 9).unwrap_err(), LedgerError::InvalidSpot);
    assert_eq!(ledger.get_spot(4, 0).unwrap_err(), LedgerError::InvalidFloor);
}

#[test]
fn reset_clears_everything_whatever_came_before() {
    let mut ledger = Ledger::new();
    for s in 0..8 {
        ledger.park_vehicle(s as i64, 0, s).unwrap();
    }
    ledger.park_vehicle(20, 1, 0).unwrap();
    ledger.unpark_vehicle(1, 0, 90).unwrap();
    ledger.close_floor(0).unwrap();
    ledger.close_parking_lot();
    ledger.reset_parking_lot();
    assert!(!ledger.is_closed);
    assert_eq!(ledger.floors_closed, vec![false, false, false]);
    assert!(ledger.exited_vehicles.is_empty());
    assert_eq!(ledger.next_vehicle_id, 1);
    for floor in &ledger.floors {
        for spot in &floor.spots {
            assert!(spot.parked_vehicle.is_none());
        }
    }
}

#[test]
fn spot_type_codes_round_trip() {
    assert_eq!(SpotType::Normal.to_code(), 0);
    assert_eq!(SpotType::Handicapped.to_code(), 1);
    assert_eq!(SpotType::Elderly.to_code(), 2);
    assert_eq!(SpotType::from_code(0), Some(SpotType::Normal));
    assert_eq!(SpotType::from_code(1), Some(SpotType::Handicapped));
    assert_eq!(SpotType::from_code(2), Some(SpotType::Elderly));
    assert_eq!(SpotType::from_code(3), None);
    assert_eq!(SpotType::from_code(-1), None);
}
