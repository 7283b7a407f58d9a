use kissmp_core::directory::Server;
use kissmp_core::outgoing::Outgoing;
use kissmp_core::vehicle::{Electrics, Gearbox, Quatf, Transform, Vec3f};

fn sample_transform() -> Transform {
    Transform {
        position: Vec3f {
            x: 1.5f32.to_bits(),
            y: (-2.25f32).to_bits(),
            z: 0.0f32.to_bits(),
        },
        rotation: Quatf {
            x: 0.0f32.to_bits(),
            y: 0.0f32.to_bits(),
            z: 0.7071f32.to_bits(),
            w: 0.7071f32.to_bits(),
        },
        velocity: Vec3f {
            x: 30.0f32.to_bits(),
            y: 0.25f32.to_bits(),
            z: (-0.0f32).to_bits(),
        },
        angular_velocity: Vec3f {
            x: f32::NAN.to_bits(),
            y: 3.0f32.to_bits(),
            z: 4.0f32.to_bits(),
        },
    }
}

#[test]
fn position_update_roundtrip() {
    let t = sample_transform();
    let bytes = Server::handle_outgoing_data(Outgoing::PositionUpdate(77, t));
    assert_eq!(bytes.len(), 56);
    // the payload is tagged by the vehicle id, little-endian
    assert_eq!(&bytes[0..4], &77u32.to_le_bytes());
    let (id, decoded) = Transform::from_bytes(&bytes).unwrap();
    assert_eq!(id, 77);
    assert_eq!(decoded, t);
}

#[test]
fn position_update_layout_is_little_endian() {
    let mut t = sample_transform();
    t.position.x = 0x0102_0304;
    let bytes = Server::handle_outgoing_data(Outgoing::PositionUpdate(0x0A0B_0C0D, t));
    assert_eq!(&bytes[0..4], &[0x0D, 0x0C, 0x0B, 0x0A]);
    assert_eq!(&bytes[4..8], &[0x04, 0x03, 0x02, 0x01]);
}

#[test]
fn electrics_roundtrip_and_id_overwrite() {
    let e = Electrics {
        vehicle_id: 99,  // stale id supplied by the caller
        throttle_input: 0.75f32.to_bits(),
        brake_input: 0.0f32.to_bits(),
        clutch_input: 1.0f32.to_bits(),
        parking_brake_input: 0.0f32.to_bits(),
        steering_input: (-0.5f32).to_bits(),
    };
    let bytes = Server::handle_outgoing_data(Outgoing::ElectricsUpdate(5, e));
    assert_eq!(bytes.len(), 24);
    let decoded = Electrics::from_bytes(&bytes).unwrap();
    // the embedded id field is always overwritten with the argument
    assert_eq!(decoded.vehicle_id, 5);
    assert_eq!(decoded, Electrics { vehicle_id: 5, ..e });

    // payloads differing only in the embedded id encode identically
    let e2 = Electrics { vehicle_id: 12345, ..e };
    let bytes2 = Server::handle_outgoing_data(Outgoing::ElectricsUpdate(5, e2));
    assert_eq!(bytes, bytes2);
}

#[test]
fn gearbox_roundtrip_and_id_overwrite() {
    let g = Gearbox { vehicle_id: 4242, arcade: true, clutch: 0.5f32.to_bits(), gear_index: -1 };
    let bytes = Server::handle_outgoing_data(Outgoing::GearboxUpdate(9, g));
    assert_eq!(bytes.len(), 16);
    let decoded = Gearbox::from_bytes(&bytes).unwrap();
    assert_eq!(decoded.vehicle_id, 9);
    assert_eq!(decoded.arcade, true);
    assert_eq!(decoded.clutch, 0.5f32.to_bits());
    assert_eq!(decoded.gear_index, -1);

    let g2 = Gearbox { vehicle_id: 0, ..g };
    assert_eq!(
        Server::handle_outgoing_data(Outgoing::GearboxUpdate(9, g)),
        Server::handle_outgoing_data(Outgoing::GearboxUpdate(9, g2)),
    );
}

#[test]
fn decode_rejects_wrong_length() {
    assert!(Transform::from_bytes(&[0u8; 55]).is_none());
    assert!(Transform::from_bytes(&[0u8; 57]).is_none());
    assert!(Electrics::from_bytes(&[]).is_none());
    assert!(Gearbox::from_bytes(&[0u8; 15]).is_none());
}

#[test]
fn remove_and_reset_encode_id_alone() {
    assert_eq!(
        Server::handle_outgoing_data(Outgoing::RemoveVehicle(258)),
        vec![2, 1, 0, 0],
    );
    assert_eq!(
        Server::handle_outgoing_data(Outgoing::ResetVehicle(u32::MAX)),
        vec![255, 255, 255, 255],
    );
}

#[test]
fn chat_is_raw_utf8_without_framing() {
    let bytes = Server::handle_outgoing_data(Outgoing::Chat("héllo".to_string()));
    assert_eq!(bytes, "héllo".as_bytes().to_vec());
}

#[test]
fn transfer_file_payload_is_empty_at_this_layer() {
    let bytes = Server::handle_outgoing_data(Outgoing::TransferFile("map.zip".to_string()));
    assert!(bytes.is_empty());
}
