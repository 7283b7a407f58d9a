use kissmp_core::directory::Server;
use kissmp_core::info::ClientInfoPublic;
use kissmp_core::json::vehicle_json;
use kissmp_core::outgoing::Outgoing;
use kissmp_core::vehicle::{Rgba, VehicleData};

fn sample_data() -> VehicleData {
    VehicleData {
        parts_config: "vehicles/etk800/etk800.pc".to_string(),
        in_game_id: 7,
        color: Rgba {
            r: 1.0f32.to_bits(),
            g: 0.5f32.to_bits(),
            b: 0.0f32.to_bits(),
            a: 1.0f32.to_bits(),
        },
        palete_0: Rgba { r: 0, g: 0, b: 0, a: 0 },
        palete_1: Rgba { r: 0, g: 0, b: 0, a: 0 },
        name: "Best \"Car\"\n".to_string(),
        server_id: Some(12),
        owner: None,
    }
}

#[test]
fn spawn_payload_is_wellformed_json() {
    let bytes = Server::handle_outgoing_data(Outgoing::VehicleSpawn(sample_data()));
    let text = String::from_utf8(bytes).unwrap();
    let parsed: serde_json::Value = serde_json::from_str(&text).unwrap();
    assert_eq!(parsed["parts_config"], "vehicles/etk800/etk800.pc");
    assert_eq!(parsed["in_game_id"], 7);
    assert_eq!(parsed["color"][1], 0.5f32.to_bits());
    assert_eq!(parsed["name"], "Best \"Car\"\n");
    assert_eq!(parsed["server_id"], 12);
    assert!(parsed["owner"].is_null());
}

#[test]
fn vehicle_json_exact_text() {
    let data = VehicleData {
        parts_config: "p".to_string(),
        in_game_id: 3,
        color: Rgba { r: 1, g: 2, b: 3, a: 4 },
        palete_0: Rgba { r: 0, g: 0, b: 0, a: 0 },
        palete_1: Rgba { r: 0, g: 0, b: 0, a: 0 },
        name: "n".to_string(),
        server_id: None,
        owner: Some(42),
    };
    let text = vehicle_json(&data);
    assert_eq!(
        text,
        "{\"parts_config\":\"p\",\"in_game_id\":3,\"color\":[1,2,3,4],\
         \"palete_0\":[0,0,0,0],\"palete_1\":[0,0,0,0],\"name\":\"n\",\
         \"server_id\":null,\"owner\":42}"
    );
}

#[test]
fn json_escapes_control_and_quote_characters() {
    let mut data = sample_data();
    data.name = "a\\b\"c\r\n\t\u{1}".to_string();
    let text = vehicle_json(&data);
    let parsed: serde_json::Value = serde_json::from_str(&text).unwrap();
    assert_eq!(parsed["name"], "a\\b\"c\r\n\t\u{1}");
    assert!(text.contains("\\u0001"));
}

#[test]
fn client_info_defaults() {
    let info = ClientInfoPublic::new(42);
    assert_eq!(info.id, 42);
    assert_eq!(info.name, "Unknown");
    assert_eq!(info.current_vehicle, 0);
    assert_eq!(info.ping, 0);
    assert!(!info.hide_nametag);
}
