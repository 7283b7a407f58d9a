use kissmp_core::directory::Server;
use kissmp_core::outgoing::Outgoing;
use kissmp_core::vehicle::{Electrics, Gearbox, Quatf, Rgba, Transform, Vec3f, VehicleData};

fn sample_data(in_game_id: u32) -> VehicleData {
    let c = Rgba { r: 0, g: 0, b: 0, a: 0 };
    VehicleData {
        parts_config: "vehicles/etk800/etk800.pc".to_string(),
        in_game_id,
        color: c,
        palete_0: c,
        palete_1: c,
        name: "etk800".to_string(),
        server_id: None,
        owner: None,
    }
}

#[test]
fn resolve_unregistered_is_absent() {
    let server = Server::new();
    assert_eq!(server.get_server_id_from_game_id(42, 7), None);
    assert_eq!(server.get_server_id_from_game_id(0, 0), None);
    assert_eq!(server.get_server_id_from_game_id(u32::MAX, u32::MAX), None);
}

#[test]
fn spawn_then_resolve() {
    let mut server = Server::new();
    server.connect_client(42);
    let sid = server.spawn_vehicle(42, sample_data(7));
    assert_eq!(server.get_server_id_from_game_id(42, 7), Some(sid));
    // another client or another local id stays unmapped
    assert_eq!(server.get_server_id_from_game_id(42, 8), None);
    assert_eq!(server.get_server_id_from_game_id(43, 7), None);
    // identity record is filled in at registration
    let v = server.vehicles.get(&sid).unwrap();
    assert_eq!(v.data.server_id, Some(sid));
    assert_eq!(v.data.owner, Some(42));
    assert_eq!(v.data.in_game_id, 7);
}

#[test]
fn remove_vehicle_is_idempotent() {
    let mut server = Server::new();
    server.connect_client(1);
    server.connect_client(2);
    let sid = server.spawn_vehicle(1, sample_data(7));

    let notices1 = server.remove_vehicle(sid, Some(1));
    // one removal notice per connected client, owner included
    assert_eq!(notices1.len(), 2);
    for (i, (client, cmd)) in notices1.iter().enumerate() {
        assert_eq!(*client, [1u32, 2u32][i]);
        assert!(matches!(cmd, Outgoing::RemoveVehicle(id) if *id == sid));
    }
    assert!(!server.vehicles.contains_key(&sid));
    assert_eq!(server.get_server_id_from_game_id(1, 7), None);

    // second removal: no error, same (already final) state, and again one
    // notice per client — notices are not deduplicated across calls
    let notices2 = server.remove_vehicle(sid, Some(1));
    assert_eq!(notices2.len(), 2);
    assert!(!server.vehicles.contains_key(&sid));
    assert_eq!(server.get_server_id_from_game_id(1, 7), None);
}

#[test]
fn remove_vehicle_without_client_keeps_other_mappings() {
    let mut server = Server::new();
    server.connect_client(1);
    let sid_a = server.spawn_vehicle(1, sample_data(7));
    let sid_b = server.spawn_vehicle(1, sample_data(8));
    let notices = server.remove_vehicle(sid_a, None);
    assert_eq!(notices.len(), 1);
    // the vehicle record is gone but only the given client's entry would
    // have been dropped, and none was given
    assert!(!server.vehicles.contains_key(&sid_a));
    assert_eq!(server.get_server_id_from_game_id(1, 7), Some(sid_a));
    assert_eq!(server.get_server_id_from_game_id(1, 8), Some(sid_b));
}

#[test]
fn reset_broadcasts_to_all_but_requester() {
    let a: u32 = 10;
    let b: u32 = 20;
    let c: u32 = 30;
    let mut server = Server::new();
    server.connect_client(a);
    server.connect_client(b);
    server.connect_client(c);
    let v: u32 = 5;

    // requester excluded: A and B each get exactly one notice, C none
    let notices = server.reset_vehicle(v, Some(c));
    let recipients: Vec<u32> = notices.iter().map(|p| p.0).collect();
    assert_eq!(recipients, vec![a, b]);
    for (_, cmd) in &notices {
        assert!(matches!(cmd, Outgoing::ResetVehicle(id) if *id == v));
    }

    // no requester: everyone gets exactly one notice
    let notices_all = server.reset_vehicle(v, None);
    let recipients_all: Vec<u32> = notices_all.iter().map(|p| p.0).collect();
    assert_eq!(recipients_all, vec![a, b, c]);

    // an id that is not connected excludes nobody
    let notices_other = server.reset_vehicle(v, Some(99));
    assert_eq!(notices_other.len(), 3);
}

#[test]
fn disconnect_drops_client_mappings() {
    let mut server = Server::new();
    server.connect_client(42);
    server.connect_client(43);
    let sid = server.spawn_vehicle(42, sample_data(7));
    assert_eq!(server.get_server_id_from_game_id(42, 7), Some(sid));

    server.remove_client(42);
    // the (42, *) mapping is fully removed; lookups are absent, not errors
    assert_eq!(server.get_server_id_from_game_id(42, 7), None);
    // the client no longer appears in fan-outs
    let notices = server.reset_vehicle(sid, None);
    let recipients: Vec<u32> = notices.iter().map(|p| p.0).collect();
    assert_eq!(recipients, vec![43]);
    // the vehicle record itself is kept
    assert!(server.vehicles.contains_key(&sid));
}

#[test]
fn substates_update_independently() {
    let mut server = Server::new();
    server.connect_client(1);
    let sid = server.spawn_vehicle(1, sample_data(7));
    let zero = Vec3f { x: 0, y: 0, z: 0 };
    let t = Transform {
        position: Vec3f { x: 1.0f32.to_bits(), y: 0, z: 0 },
        rotation: Quatf { x: 0, y: 0, z: 0, w: 1.0f32.to_bits() },
        velocity: zero,
        angular_velocity: zero,
    };
    // a position update does not require electrics or gearbox to exist
    assert!(server.update_transform(sid, t));
    let v = server.vehicles.get(&sid).unwrap();
    assert_eq!(v.transform, Some(t));
    assert!(v.electrics.is_none());
    assert!(v.gearbox.is_none());

    let e = Electrics {
        vehicle_id: sid,
        throttle_input: 0,
        brake_input: 0,
        clutch_input: 0,
        parking_brake_input: 0,
        steering_input: 0,
    };
    assert!(server.update_electrics(sid, e));
    let g = Gearbox { vehicle_id: sid, arcade: false, clutch: 0, gear_index: 2 };
    assert!(server.update_gearbox(sid, g));
    let v = server.vehicles.get(&sid).unwrap();
    assert_eq!(v.transform, Some(t));
    assert_eq!(v.electrics, Some(e));
    assert_eq!(v.gearbox, Some(g));
    // identity record is untouched by sub-state updates
    assert_eq!(v.data.owner, Some(1));

    // a stale update for an unknown vehicle changes nothing and is no error
    assert!(!server.update_transform(sid + 1, t));
}

#[test]
fn connect_client_is_idempotent() {
    let mut server = Server::new();
    server.connect_client(7);
    server.connect_client(7);
    assert_eq!(server.connections, vec![7]);
}
