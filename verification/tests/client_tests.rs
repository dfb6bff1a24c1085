use parking_garage::client::ClientId;
use parking_garage::protocol;
use parking_garage::registry::ConnectionRegistry;

#[test]
fn identities_parse_from_their_header_strings() {
    assert_eq!(ClientId::from_str("ground_floor"), Some(ClientId::GroundFloor));
    assert_eq!(ClientId::from_str("first_floor"), Some(ClientId::FirstFloor));
    assert_eq!(ClientId::from_str("second_floor"), Some(ClientId::SecondFloor));
    assert_eq!(ClientId::from_str("app"), Some(ClientId::App));
    assert_eq!(ClientId::from_str(""), None);
    assert_eq!(ClientId::from_str("Ground_Floor"), None);
    assert_eq!(ClientId::from_str("lobby"), None);
}

#[test]
fn indices_and_identities_round_trip() {
    for index in 0..4 {
        let client = ClientId::from_index(index).unwrap();
        assert_eq!(client.to_index(), index);
    }
    assert_eq!(ClientId::from_index(4), None);
    assert_eq!(ClientId::from_index(-1), None);
}

#[test]
fn names_and_identities_round_trip() {
    for client in [
        ClientId::GroundFloor,
        ClientId::FirstFloor,
        ClientId::SecondFloor,
        ClientId::App,
    ] {
        assert_eq!(ClientId::from_str(client.as_str()), Some(client));
    }
    assert_eq!(ClientId::GroundFloor.as_str(), "ground_floor");
    assert_eq!(ClientId::App.as_str(), "app");
}

#[test]
fn iter_floors_lists_the_floors_in_order() {
    assert_eq!(
        ClientId::iter_floors(),
        vec![ClientId::GroundFloor, ClientId::FirstFloor, ClientId::SecondFloor]
    );
}

#[test]
fn the_registry_maps_connections_to_identities() {
    let mut registry = ConnectionRegistry::new();
    assert_eq!(registry.get(&"a".to_owned()), None);
    registry.insert("a".to_owned(), ClientId::GroundFloor);
    registry.insert("b".to_owned(), ClientId::App);
    assert_eq!(registry.get(&"a".to_owned()), Some(ClientId::GroundFloor));
    assert_eq!(registry.get(&"b".to_owned()), Some(ClientId::App));
    registry.insert("a".to_owned(), ClientId::FirstFloor);
    assert_eq!(registry.get(&"a".to_owned()), Some(ClientId::FirstFloor));
    assert_eq!(registry.remove(&"a".to_owned()), Some(ClientId::FirstFloor));
    assert_eq!(registry.get(&"a".to_owned()), None);
    assert_eq!(registry.get(&"b".to_owned()), Some(ClientId::App));
    assert_eq!(registry.remove(&"a".to_owned()), None);
}

#[test]
fn the_wire_protocol_names_are_fixed() {
    assert_eq!(protocol::CLIENT_ID_HEADER, "x-client-id");
    assert_eq!(protocol::CAR_ARRIVED_EVENT, "car_arrived");
    assert_eq!(protocol::CAR_DEPARTED_EVENT, "car_departed");
    assert_eq!(protocol::FLOOR_STATE_EVENT, "floor_state");
    assert_eq!(protocol::PARKING_LOT_STATE_EVENT, "parking_lot_state");
    assert_eq!(protocol::CLOSE_FLOOR_EVENT, "close_floor");
    assert_eq!(protocol::OPEN_FLOOR_EVENT, "open_floor");
    assert_eq!(protocol::CLOSE_PARKING_LOT_EVENT, "close_parking_lot");
    assert_eq!(protocol::OPEN_PARKING_LOT_EVENT, "open_parking_lot");
    assert_eq!(protocol::RESET_DATABASE_EVENT, "reset_database");
    let header = protocol::Header { key: protocol::CLIENT_ID_HEADER, value: "app" };
    assert_eq!(header.key, "x-client-id");
    assert_eq!(header.value, "app");
}
