//! Client/server handshake records and the typed command sets exchanged
//! between client and server.  These are data shells: the directory,
//! encoder and marshaller modules hold the logic that consumes them.

use vstd::prelude::*;
use crate::vehicle::{VehicleData, Transform, Gearbox, Vec3f};
use crate::wire::{Float64, MarshalledLuaValue};

verus! {

/// What a client discloses about itself when connecting.
#[derive(Debug)]
pub struct ClientInfoPrivate {
    pub name: String,
    pub secret: String,
    pub client_version: (u32, u32),
}

/// What the server republishes about a connected client.
#[derive(Clone, Debug)]
pub struct ClientInfoPublic {
    pub name: String,
    pub id: u32,
    pub current_vehicle: u32,
    pub ping: u32,
    pub hide_nametag: bool,
}

/// What the server discloses about itself.
#[derive(Debug)]
pub struct ServerInfo {
    pub name: String,
    pub player_count: u8,
    pub client_id: u32,
    pub map: String,
    pub tickrate: u8,
    pub max_vehicles_per_client: u8,
    pub mods: Vec<(String, u32)>,
    pub server_identifier: String,
}

impl Default for ClientInfoPublic {
    /// The placeholder record for a client nothing is known about yet.
    fn default() -> (r: Self)
        ensures
            r.name@ == "Unknown"@,
            r.id == 0,
            r.current_vehicle == 0,
            r.ping == 0,
            !r.hide_nametag,
    {
        ClientInfoPublic {
            name: "Unknown".to_owned(),
            id: 0,
            current_vehicle: 0,
            ping: 0,
            hide_nametag: false,
        }
    }
}

impl ClientInfoPublic {
    /// The default record for a freshly connected client with the given id.
    pub fn new(id: u32) -> (r: Self)
        ensures
            r.id == id,
            r.name@ == "Unknown"@,
            r.current_vehicle == 0,
            r.ping == 0,
            !r.hide_nametag,
    {
        let mut r = Self::default();
        r.id = id;
        r
    }
}

/// One vehicle's physics update as relayed between peers.
#[derive(Clone, Debug)]
pub struct VehicleUpdate {
    pub transform: Transform,
    pub vehicle_id: u32,
    pub generation: u64,
    pub sent_at: Float64,
}

/// Cosmetic vehicle metadata.
#[derive(Clone, Debug)]
pub struct VehicleMeta {
    pub vehicle_id: u32,
    pub plate: Option<String>,
}

/// A coupler (node-to-node link) attached between two objects.
#[derive(Clone, Copy, Debug)]
pub struct CouplerAttached {
    pub obj_a: u32,
    pub obj_b: u32,
    pub node_a_id: u32,
    pub node_b_id: u32,
}

/// A coupler detached between two objects.
#[derive(Clone, Copy, Debug)]
pub struct CouplerDetached {
    pub obj_a: u32,
    pub obj_b: u32,
    pub node_a_id: u32,
    pub node_b_id: u32,
}

/// Sparse electrics channels without a fixed schema: named channels with
/// their raw 32-bit values.
#[derive(Debug)]
pub struct ElectricsUndefined {
    pub diff: Vec<(String, u32)>,
}

/// Commands a client sends to the server.
#[derive(Debug)]
pub enum ClientCommand {
    ClientInfo(ClientInfoPrivate),
    VehicleUpdate(VehicleUpdate),
    VehicleData(VehicleData),
    GearboxUpdate(Gearbox),
    RemoveVehicle(u32),
    ResetVehicle(u32),
    Chat(String),
    RequestMods(Vec<String>),
    VehicleMetaUpdate(VehicleMeta),
    VehicleChanged(u32),
    CouplerAttached(CouplerAttached),
    CouplerDetached(CouplerDetached),
    ElectricsUndefinedUpdate(u32, ElectricsUndefined),
    VoiceChatPacket(Vec<u8>),
    // Only used by bridge
    SpatialUpdate(Vec3f, Vec3f),
    // Only used by bridge
    StartTalking,
    // Only used by bridge
    EndTalking,
    Ping(u16),
}

/// Commands the server sends to a client.
#[derive(Debug)]
pub enum ServerCommand {
    VehicleUpdate(VehicleUpdate),
    VehicleSpawn(VehicleData),
    RemoveVehicle(u32),
    ResetVehicle(u32),
    Chat(String, Option<u32>),
    TransferFile(String),
    SendLua(String),
    CallEvent(String, Vec<MarshalledLuaValue>),
    PlayerInfoUpdate(ClientInfoPublic),
    VehicleMetaUpdate(VehicleMeta),
    PlayerDisconnected(u32),
    VehicleLuaCommand(u32, String),
    CouplerAttached(CouplerAttached),
    CouplerDetached(CouplerDetached),
    ElectricsUndefinedUpdate(u32, ElectricsUndefined),
    ServerInfo(ServerInfo),
    FilePart(String, Vec<u8>, u32, u32, u32),
    VoiceChatPacket(u32, Vec3f, Vec<u8>),
    Pong(Float64),
}

} // verus!
