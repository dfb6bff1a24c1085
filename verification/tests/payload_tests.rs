use parking_garage::payloads::{
    FloorDataPayload, ParkingLotDataPayload, ParkingSpaceModifiedPayload, SpotDataPayload,
    VehicleDataPayload,
};

#[test]
fn fee_of_ten_minutes_is_one_currency_unit() {
    let vehicle = VehicleDataPayload { id: 1, entry_time: 0, exit_time: Some(600) };
    let tenths = vehicle.fee_tenths(0);
    assert_eq!(tenths, 10);
    assert_eq!(tenths as f64 * 0.1, 1.0);
}

#[test]
fn fee_truncates_below_a_minute() {
    let vehicle = VehicleDataPayload { id: 1, entry_time: 0, exit_time: Some(59) };
    let tenths = vehicle.fee_tenths(0);
    assert_eq!(tenths, 0);
    assert_eq!(tenths as f64 * 0.1, 0.0);
}

#[test]
fn fee_of_a_parked_vehicle_charges_until_now() {
    let vehicle = VehicleDataPayload { id: 7, entry_time: 100, exit_time: None };
    assert_eq!(vehicle.fee_tenths(100 + 180), 3);
}

#[test]
fn fee_ignores_leftover_seconds() {
    let vehicle = VehicleDataPayload { id: 2, entry_time: 30, exit_time: Some(30 + 61) };
    assert_eq!(vehicle.fee_tenths(0), 1);
}

#[test]
fn chargeable_rejects_negative_intervals() {
    let vehicle = VehicleDataPayload { id: 1, entry_time: 500, exit_time: Some(400) };
    assert!(!vehicle.is_chargeable(0));
    let ok = VehicleDataPayload { id: 1, entry_time: 400, exit_time: Some(500) };
    assert!(ok.is_chargeable(0));
}

#[test]
fn new_snapshot_is_open_and_empty() {
    let snapshot = ParkingLotDataPayload::new();
    assert!(!snapshot.is_closed);
    assert!(snapshot.exited_vehicles.is_empty());
    assert_eq!(snapshot.floors.len(), 3);
    for floor in &snapshot.floors {
        assert!(!floor.is_closed);
        assert_eq!(floor.spots.len(), 8);
        for spot in &floor.spots {
            assert_eq!(spot.spot_type, 0);
            assert!(spot.parked_vehicle.is_none());
        }
    }
}

#[test]
fn new_floor_payload_has_eight_empty_spots() {
    let floor = FloorDataPayload::new();
    assert!(!floor.is_closed);
    assert_eq!(floor.spots.len(), 8);
}

#[test]
fn new_spot_payload_keeps_its_category() {
    let spot = SpotDataPayload::new(2);
    assert_eq!(spot.spot_type, 2);
    assert!(spot.parked_vehicle.is_none());
}

#[test]
fn snapshot_statistics_count_occupancy_and_free_categories() {
    let mut snapshot = ParkingLotDataPayload::new();
    // Give the snapshot the garage's real category layout.
    for floor in snapshot.floors.iter_mut() {
        floor.spots[0].spot_type = 1;
        floor.spots[1].spot_type = 2;
        floor.spots[2].spot_type = 2;
    }
    assert!(snapshot.has_standard_shape());
    assert_eq!(snapshot.occupied_spots(), 0);
    assert_eq!(snapshot.count_free_of_type(1), 3);
    assert_eq!(snapshot.count_free_of_type(2), 6);

    let parked = VehicleDataPayload { id: 4, entry_time: 0, exit_time: None };
    snapshot.floors[0].spots[0].parked_vehicle = Some(parked);
    snapshot.floors[2].spots[5].parked_vehicle = Some(parked);
    assert_eq!(snapshot.occupied_spots(), 2);
    assert_eq!(snapshot.count_free_of_type(1), 2);
    assert_eq!(snapshot.count_free_of_type(2), 6);
}

#[test]
fn shape_check_rejects_a_truncated_snapshot() {
    let mut snapshot = ParkingLotDataPayload::new();
    snapshot.floors[1].spots.pop();
    assert!(!snapshot.has_standard_shape());
    let mut short = ParkingLotDataPayload::new();
    short.floors.pop();
    assert!(!short.has_standard_shape());
}

#[test]
fn total_fee_sums_exit_records() {
    let mut snapshot = ParkingLotDataPayload::new();
    snapshot.exited_vehicles.push(VehicleDataPayload {
        id: 1,
        entry_time: 0,
        exit_time: Some(600),
    });
    snapshot.exited_vehicles.push(VehicleDataPayload {
        id: 2,
        entry_time: 60,
        exit_time: Some(60 + 1800),
    });
    assert!(snapshot.all_chargeable(0));
    assert_eq!(snapshot.total_fee_tenths(0), 10 + 30);
    assert_eq!(snapshot.total_fee_tenths(0) as f64 * 0.1, 4.0);
}

#[test]
fn all_chargeable_spots_a_bad_record() {
    let mut snapshot = ParkingLotDataPayload::new();
    snapshot.exited_vehicles.push(VehicleDataPayload {
        id: 1,
        entry_time: -5,
        exit_time: Some(600),
    });
    assert!(!snapshot.all_chargeable(0));
}

#[test]
fn event_payload_carries_spot_and_time() {
    let payload = ParkingSpaceModifiedPayload { parking_space: 5, timestamp: 99 };
    assert_eq!(payload.parking_space, 5);
    assert_eq!(payload.timestamp, 99);
}
