//! Logical outgoing commands and their wire encoding.
//!
//! An [`Outgoing`] value describes one state-update event to push to
//! clients; it is constructed per triggering event and consumed
//! immediately by the encoder.  High-frequency payloads (position,
//! electrics, gearbox) use a fixed little-endian binary layout; the
//! low-frequency spawn payload uses a self-describing structured text
//! encoding; chat is raw UTF-8 with no framing at this layer.

use vstd::prelude::*;
use vstd::string::StrSliceExecFns;
use vstd::utf8::encode_utf8;
use crate::vehicle::{
    VehicleData, Transform, Electrics, Gearbox, spec_transform_bytes, spec_electrics_bytes,
    spec_gearbox_bytes,
};
use crate::json::{spec_vehicle_json, vehicle_json};
use crate::directory::Server;

verus! {

/// A logical, not-yet-serialized outgoing command.
#[derive(Debug, Clone)]
pub enum Outgoing {
    VehicleSpawn(VehicleData),
    PositionUpdate(u32, Transform),
    ElectricsUpdate(u32, Electrics),
    GearboxUpdate(u32, Gearbox),
    RemoveVehicle(u32),
    ResetVehicle(u32),
    Chat(String),
    TransferFile(String),
}

/// An electrics payload with its embedded vehicle-id field replaced.
pub open spec fn spec_electrics_with_id(e: Electrics, vehicle_id: u32) -> Electrics {
    Electrics { vehicle_id, ..e }
}

/// A gearbox payload with its embedded vehicle-id field replaced.
pub open spec fn spec_gearbox_with_id(g: Gearbox, vehicle_id: u32) -> Gearbox {
    Gearbox { vehicle_id, ..g }
}

/// The byte encoding of each outgoing command.
pub open spec fn spec_encode(command: Outgoing) -> Seq<u8> {
    match command {
        Outgoing::PositionUpdate(vehicle_id, transform) => spec_transform_bytes(
            vehicle_id,
            transform,
        ),
        Outgoing::VehicleSpawn(data) => encode_utf8(spec_vehicle_json(data)),
        Outgoing::ElectricsUpdate(vehicle_id, e) => spec_electrics_bytes(
            spec_electrics_with_id(e, vehicle_id),
        ),
        Outgoing::GearboxUpdate(vehicle_id, g) => spec_gearbox_bytes(
            spec_gearbox_with_id(g, vehicle_id),
        ),
        Outgoing::RemoveVehicle(id) => vstd::bytes::spec_u32_to_le_bytes(id),
        Outgoing::ResetVehicle(id) => vstd::bytes::spec_u32_to_le_bytes(id),
        Outgoing::Chat(message) => encode_utf8(message@),
        Outgoing::TransferFile(_) => Seq::empty(),
    }
}

impl Server {
    /// Turns a logical outgoing command into its wire payload.
    /// Deterministic and pure; the channel choice is not encoded here.
    ///
    /// For electrics and gearbox updates the embedded vehicle-id field of
    /// the payload is always overwritten with the command's target id,
    /// never trusted from the caller.
    pub fn handle_outgoing_data(command: Outgoing) -> (out: Vec<u8>)
        ensures
            out@ == spec_encode(command),
    {
        match command {
            Outgoing::PositionUpdate(vehicle_id, transform) => transform.to_bytes(vehicle_id),
            Outgoing::VehicleSpawn(data) => {
                let json = vehicle_json(&data);
                json.as_str().as_bytes_vec()
            },
            Outgoing::ElectricsUpdate(vehicle_id, electrics_data) => {
                let mut electrics_data = electrics_data;
                electrics_data.vehicle_id = vehicle_id;
                electrics_data.to_bytes()
            },
            Outgoing::GearboxUpdate(vehicle_id, gearbox_state) => {
                let mut gearbox_state = gearbox_state;
                gearbox_state.vehicle_id = vehicle_id;
                gearbox_state.to_bytes()
            },
            Outgoing::RemoveVehicle(id) => vstd::bytes::u32_to_le_bytes(id),
            Outgoing::ResetVehicle(id) => vstd::bytes::u32_to_le_bytes(id),
            Outgoing::Chat(message) => message.as_str().as_bytes_vec(),
            Outgoing::TransferFile(_) => Vec::new(),
        }
    }
}

/// The encoder never reads the embedded vehicle-id field of an electrics
/// or gearbox payload: two payloads that differ only in that field encode
/// identically under the same target id.
pub proof fn lemma_embedded_id_overwritten(
    e1: Electrics,
    e2: Electrics,
    g1: Gearbox,
    g2: Gearbox,
    vehicle_id: u32,
)
    requires
        e2 == (Electrics { vehicle_id: e2.vehicle_id, ..e1 }),
        g2 == (Gearbox { vehicle_id: g2.vehicle_id, ..g1 }),
    ensures
        spec_encode(Outgoing::ElectricsUpdate(vehicle_id, e1)) == spec_encode(
            Outgoing::ElectricsUpdate(vehicle_id, e2),
        ),
        spec_encode(Outgoing::GearboxUpdate(vehicle_id, g1)) == spec_encode(
            Outgoing::GearboxUpdate(vehicle_id, g2),
        ),
        spec_encode(Outgoing::ElectricsUpdate(vehicle_id, e1)).subrange(0, 4)
            == vstd::bytes::spec_u32_to_le_bytes(vehicle_id),
        spec_encode(Outgoing::GearboxUpdate(vehicle_id, g1)).subrange(0, 4)
            == vstd::bytes::spec_u32_to_le_bytes(vehicle_id),
{
    let ew = spec_electrics_with_id(e1, vehicle_id);
    let gw = spec_gearbox_with_id(g1, vehicle_id);
    crate::vehicle::lemma_words_to_bytes(ew.spec_words());
    crate::vehicle::lemma_words_to_bytes(gw.spec_words());
    assert(spec_electrics_with_id(e2, vehicle_id) == ew);
    assert(spec_gearbox_with_id(g2, vehicle_id) == gw);
    assert(spec_electrics_bytes(ew).subrange(0, 4) =~= vstd::bytes::spec_u32_to_le_bytes(
        vehicle_id,
    )) by {
        vstd::bytes::lemma_auto_spec_u32_to_from_le_bytes();
        assert(crate::vehicle::spec_word_at(spec_electrics_bytes(ew), 0) == vehicle_id);
    }
    assert(spec_gearbox_bytes(gw).subrange(0, 4) =~= vstd::bytes::spec_u32_to_le_bytes(
        vehicle_id,
    )) by {
        vstd::bytes::lemma_auto_spec_u32_to_from_le_bytes();
        assert(crate::vehicle::spec_word_at(spec_gearbox_bytes(gw), 0) == vehicle_id);
    }
}

} // verus!
