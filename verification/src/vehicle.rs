//! Vehicle state model and the fixed-layout binary codecs for the
//! high-frequency sub-states (transform, electrics, gearbox).
//!
//! All physical quantities are carried as raw 32-bit patterns, and every
//! binary field is little-endian, so encoding and decoding are bit-exact.

use vstd::prelude::*;
use vstd::bytes::{
    spec_u32_to_le_bytes, spec_u32_from_le_bytes, lemma_auto_spec_u32_to_from_le_bytes,
    u32_to_le_bytes, u32_from_le_bytes,
};
use vstd::slice::slice_subrange;

verus! {

/// A 3-component vector of raw 32-bit patterns.
#[derive(Clone, Copy, Debug, PartialEq, Eq, Structural)]
pub struct Vec3f {
    pub x: u32,
    pub y: u32,
    pub z: u32,
}

/// A 4-component quaternion of raw 32-bit patterns.
#[derive(Clone, Copy, Debug, PartialEq, Eq, Structural)]
pub struct Quatf {
    pub x: u32,
    pub y: u32,
    pub z: u32,
    pub w: u32,
}

/// A colour as four raw 32-bit channel patterns.
#[derive(Clone, Copy, Debug, PartialEq, Eq, Structural)]
pub struct Rgba {
    pub r: u32,
    pub g: u32,
    pub b: u32,
    pub a: u32,
}

/// Position/orientation/velocity snapshot of one vehicle.
#[derive(Clone, Copy, Debug, PartialEq, Eq, Structural)]
pub struct Transform {
    pub position: Vec3f,
    pub rotation: Quatf,
    pub velocity: Vec3f,
    pub angular_velocity: Vec3f,
}

/// Electrical-system snapshot of one vehicle.  The `vehicle_id` field is
/// embedded in the payload and is overwritten by the outgoing encoder.
#[derive(Clone, Copy, Debug, PartialEq, Eq, Structural)]
pub struct Electrics {
    pub vehicle_id: u32,
    pub throttle_input: u32,
    pub brake_input: u32,
    pub clutch_input: u32,
    pub parking_brake_input: u32,
    pub steering_input: u32,
}

/// Transmission snapshot of one vehicle.  The `vehicle_id` field is
/// embedded in the payload and is overwritten by the outgoing encoder.
#[derive(Clone, Copy, Debug, PartialEq, Eq, Structural)]
pub struct Gearbox {
    pub vehicle_id: u32,
    pub arcade: bool,
    pub clutch: u32,
    pub gear_index: i32,
}

/// Identity record of one vehicle, set at spawn.  `server_id` is assigned
/// at registration and never changes afterwards; `owner` is the connected
/// client that spawned the vehicle, or absent for environment vehicles.
#[derive(Clone, Debug)]
pub struct VehicleData {
    pub parts_config: String,
    pub in_game_id: u32,
    pub color: Rgba,
    pub palete_0: Rgba,
    pub palete_1: Rgba,
    pub name: String,
    pub server_id: Option<u32>,
    pub owner: Option<u32>,
}

/// One simulated vehicle: identity plus the latest known snapshot of each
/// independently optional sub-state.
#[derive(Clone, Debug)]
pub struct Vehicle {
    pub transform: Option<Transform>,
    pub electrics: Option<Electrics>,
    pub gearbox: Option<Gearbox>,
    pub data: VehicleData,
}

/// The little-endian byte layout of a sequence of 32-bit words.
pub open spec fn spec_words_to_bytes(ws: Seq<u32>) -> Seq<u8>
    decreases ws.len(),
{
    if ws.len() == 0 {
        Seq::empty()
    } else {
        spec_words_to_bytes(ws.drop_last()) + spec_u32_to_le_bytes(ws.last())
    }
}

/// The 32-bit word starting at byte offset `4*k`.
pub open spec fn spec_word_at(bytes: Seq<u8>, k: int) -> u32 {
    spec_u32_from_le_bytes(bytes.subrange(4 * k, 4 * k + 4))
}

/// A word sequence's byte layout is 4 bytes per word, and each word can be
/// read back from its own 4-byte window.
pub proof fn lemma_words_to_bytes(ws: Seq<u32>)
    ensures
        spec_words_to_bytes(ws).len() == 4 * ws.len(),
        forall|k: int|
            0 <= k < ws.len() ==> #[trigger] spec_word_at(spec_words_to_bytes(ws), k) == ws[k],
    decreases ws.len(),
{
    lemma_auto_spec_u32_to_from_le_bytes();
    if ws.len() > 0 {
        let prefix = ws.drop_last();
        lemma_words_to_bytes(prefix);
        let pb = spec_words_to_bytes(prefix);
        let all = spec_words_to_bytes(ws);
        assert forall|k: int| 0 <= k < ws.len() implies #[trigger] spec_word_at(all, k)
            == ws[k] by {
            if k < ws.len() - 1 {
                assert(all.subrange(4 * k, 4 * k + 4) =~= pb.subrange(4 * k, 4 * k + 4));
                assert(spec_word_at(pb, k) == prefix[k]);
            } else {
                assert(all.subrange(4 * k, 4 * k + 4) =~= spec_u32_to_le_bytes(ws.last()));
            }
        }
    }
}

/// Appends the little-endian bytes of `w`.
fn push_word(out: &mut Vec<u8>, w: u32)
    ensures
        final(out)@ == old(out)@ + spec_u32_to_le_bytes(w),
        final(out)@.len() == old(out)@.len() + 4,
{
    proof {
        lemma_auto_spec_u32_to_from_le_bytes();
    }
    let mut b = u32_to_le_bytes(w);
    out.append(&mut b);
}

/// Encodes a word sequence as little-endian bytes.
fn words_to_bytes(ws: &Vec<u32>) -> (out: Vec<u8>)
    ensures
        out@ == spec_words_to_bytes(ws@),
{
    let mut out: Vec<u8> = Vec::new();
    let mut i: usize = 0;
    while i < ws.len()
        invariant
            i <= ws@.len(),
            out@ == spec_words_to_bytes(ws@.take(i as int)),
        decreases ws@.len() - i,
    {
        push_word(&mut out, ws[i]);
        proof {
            let t = ws@.take(i + 1 as int);
            assert(t.drop_last() =~= ws@.take(i as int));
            assert(t.last() == ws@[i as int]);
        }
        i = i + 1;
    }
    proof {
        assert(ws@.take(ws@.len() as int) =~= ws@);
    }
    out
}

/// Reads the 32-bit word at byte offset `4*k`.
fn read_word(bytes: &[u8], k: usize) -> (w: u32)
    requires
        4 * (k as int) + 4 <= bytes@.len(),
        bytes@.len() <= usize::MAX,
    ensures
        w == spec_word_at(bytes@, k as int),
{
    let s = slice_subrange(bytes, 4 * k, 4 * k + 4);
    u32_from_le_bytes(s)
}

impl Transform {
    /// The word layout of a position-update payload: the target vehicle
    /// identifier followed by the transform fields.
    pub open spec fn spec_words(self, vehicle_id: u32) -> Seq<u32> {
        seq![
            vehicle_id,
            self.position.x,
            self.position.y,
            self.position.z,
            self.rotation.x,
            self.rotation.y,
            self.rotation.z,
            self.rotation.w,
            self.velocity.x,
            self.velocity.y,
            self.velocity.z,
            self.angular_velocity.x,
            self.angular_velocity.y,
            self.angular_velocity.z,
        ]
    }

    /// Binary position-update payload: 4-byte little-endian vehicle id,
    /// then the thirteen transform words.
    pub fn to_bytes(&self, vehicle_id: u32) -> (out: Vec<u8>)
        ensures
            out@ == spec_transform_bytes(vehicle_id, *self),
    {
        let mut ws: Vec<u32> = Vec::new();
        ws.push(vehicle_id);
        ws.push(self.position.x);
        ws.push(self.position.y);
        ws.push(self.position.z);
        ws.push(self.rotation.x);
        ws.push(self.rotation.y);
        ws.push(self.rotation.z);
        ws.push(self.rotation.w);
        ws.push(self.velocity.x);
        ws.push(self.velocity.y);
        ws.push(self.velocity.z);
        ws.push(self.angular_velocity.x);
        ws.push(self.angular_velocity.y);
        ws.push(self.angular_velocity.z);
        proof {
            assert(ws@ =~= self.spec_words(vehicle_id));
        }
        words_to_bytes(&ws)
    }

    /// Decodes a position-update payload; absent unless the length is
    /// exactly 56 bytes.
    pub fn from_bytes(bytes: &[u8]) -> (r: Option<(u32, Transform)>)
        ensures
            r == spec_transform_decode(bytes@),
    {
        if bytes.len() != 56 {
            return None;
        }
        let t = Transform {
            position: Vec3f { x: read_word(bytes, 1), y: read_word(bytes, 2), z: read_word(bytes, 3) },
            rotation: Quatf {
                x: read_word(bytes, 4),
                y: read_word(bytes, 5),
                z: read_word(bytes, 6),
                w: read_word(bytes, 7),
            },
            velocity: Vec3f { x: read_word(bytes, 8), y: read_word(bytes, 9), z: read_word(bytes, 10) },
            angular_velocity: Vec3f {
                x: read_word(bytes, 11),
                y: read_word(bytes, 12),
                z: read_word(bytes, 13),
            },
        };
        Some((read_word(bytes, 0), t))
    }
}

/// Byte layout of a position-update payload.
pub open spec fn spec_transform_bytes(vehicle_id: u32, t: Transform) -> Seq<u8> {
    spec_words_to_bytes(t.spec_words(vehicle_id))
}

/// Decoding of a position-update payload.
pub open spec fn spec_transform_decode(bytes: Seq<u8>) -> Option<(u32, Transform)> {
    if bytes.len() == 56 {
        Some(
            (
                spec_word_at(bytes, 0),
                Transform {
                    position: Vec3f {
                        x: spec_word_at(bytes, 1),
                        y: spec_word_at(bytes, 2),
                        z: spec_word_at(bytes, 3),
                    },
                    rotation: Quatf {
                        x: spec_word_at(bytes, 4),
                        y: spec_word_at(bytes, 5),
                        z: spec_word_at(bytes, 6),
                        w: spec_word_at(bytes, 7),
                    },
                    velocity: Vec3f {
                        x: spec_word_at(bytes, 8),
                        y: spec_word_at(bytes, 9),
                        z: spec_word_at(bytes, 10),
                    },
                    angular_velocity: Vec3f {
                        x: spec_word_at(bytes, 11),
                        y: spec_word_at(bytes, 12),
                        z: spec_word_at(bytes, 13),
                    },
                },
            ),
        )
    } else {
        None
    }
}

/// Round trip: decoding an encoded position update recovers the exact
/// vehicle id and transform supplied as input.
pub proof fn lemma_transform_roundtrip(vehicle_id: u32, t: Transform)
    ensures
        spec_transform_decode(spec_transform_bytes(vehicle_id, t)) == (Some((vehicle_id, t))),
{
    let ws = t.spec_words(vehicle_id);
    lemma_words_to_bytes(ws);
}

impl Electrics {
    /// The word layout of an electrics payload: the embedded vehicle id,
    /// then the five input channels.
    pub open spec fn spec_words(self) -> Seq<u32> {
        seq![
            self.vehicle_id,
            self.throttle_input,
            self.brake_input,
            self.clutch_input,
            self.parking_brake_input,
            self.steering_input,
        ]
    }

    /// Binary electrics payload: six little-endian 32-bit words.
    pub fn to_bytes(&self) -> (out: Vec<u8>)
        ensures
            out@ == spec_electrics_bytes(*self),
    {
        let mut ws: Vec<u32> = Vec::new();
        ws.push(self.vehicle_id);
        ws.push(self.throttle_input);
        ws.push(self.brake_input);
        ws.push(self.clutch_input);
        ws.push(self.parking_brake_input);
        ws.push(self.steering_input);
        proof {
            assert(ws@ =~= self.spec_words());
        }
        words_to_bytes(&ws)
    }

    /// Decodes an electrics payload; absent unless the length is exactly
    /// 24 bytes.
    pub fn from_bytes(bytes: &[u8]) -> (r: Option<Electrics>)
        ensures
            r == spec_electrics_decode(bytes@),
    {
        if bytes.len() != 24 {
            return None;
        }
        Some(
            Electrics {
                vehicle_id: read_word(bytes, 0),
                throttle_input: read_word(bytes, 1),
                brake_input: read_word(bytes, 2),
                clutch_input: read_word(bytes, 3),
                parking_brake_input: read_word(bytes, 4),
                steering_input: read_word(bytes, 5),
            },
        )
    }
}

/// Byte layout of an electrics payload.
pub open spec fn spec_electrics_bytes(e: Electrics) -> Seq<u8> {
    spec_words_to_bytes(e.spec_words())
}

/// Decoding of an electrics payload.
pub open spec fn spec_electrics_decode(bytes: Seq<u8>) -> Option<Electrics> {
    if bytes.len() == 24 {
        Some(
            Electrics {
                vehicle_id: spec_word_at(bytes, 0),
                throttle_input: spec_word_at(bytes, 1),
                brake_input: spec_word_at(bytes, 2),
                clutch_input: spec_word_at(bytes, 3),
                parking_brake_input: spec_word_at(bytes, 4),
                steering_input: spec_word_at(bytes, 5),
            },
        )
    } else {
        None
    }
}

/// Round trip: decoding an encoded electrics payload recovers every field
/// exactly.
pub proof fn lemma_electrics_roundtrip(e: Electrics)
    ensures
        spec_electrics_decode(spec_electrics_bytes(e)) == (Some(e)),
{
    lemma_words_to_bytes(e.spec_words());
}

impl Gearbox {
    /// The word layout of a gearbox payload: the embedded vehicle id, an
    /// arcade-mode flag word, the clutch word, and the selected gear as a
    /// two's-complement word.
    pub open spec fn spec_words(self) -> Seq<u32> {
        seq![
            self.vehicle_id,
            if self.arcade {
                1u32
            } else {
                0u32
            },
            self.clutch,
            self.gear_index as u32,
        ]
    }

    /// Binary gearbox payload: four little-endian 32-bit words.
    pub fn to_bytes(&self) -> (out: Vec<u8>)
        ensures
            out@ == spec_gearbox_bytes(*self),
    {
        let mut ws: Vec<u32> = Vec::new();
        ws.push(self.vehicle_id);
        ws.push(if self.arcade { 1u32 } else { 0u32 });
        ws.push(self.clutch);
        ws.push(self.gear_index as u32);
        proof {
            assert(ws@ =~= self.spec_words());
        }
        words_to_bytes(&ws)
    }

    /// Decodes a gearbox payload; absent unless the length is exactly 16
    /// bytes.
    pub fn from_bytes(bytes: &[u8]) -> (r: Option<Gearbox>)
        ensures
            r == spec_gearbox_decode(bytes@),
    {
        if bytes.len() != 16 {
            return None;
        }
        Some(
            Gearbox {
                vehicle_id: read_word(bytes, 0),
                arcade: read_word(bytes, 1) != 0,
                clutch: read_word(bytes, 2),
                gear_index: read_word(bytes, 3) as i32,
            },
        )
    }
}

/// Byte layout of a gearbox payload.
pub open spec fn spec_gearbox_bytes(g: Gearbox) -> Seq<u8> {
    spec_words_to_bytes(g.spec_words())
}

/// Decoding of a gearbox payload.
pub open spec fn spec_gearbox_decode(bytes: Seq<u8>) -> Option<Gearbox> {
    if bytes.len() == 16 {
        Some(
            Gearbox {
                vehicle_id: spec_word_at(bytes, 0),
                arcade: spec_word_at(bytes, 1) != 0,
                clutch: spec_word_at(bytes, 2),
                gear_index: spec_word_at(bytes, 3) as i32,
            },
        )
    } else {
        None
    }
}

/// Round trip: decoding an encoded gearbox payload recovers every field
/// exactly.
pub proof fn lemma_gearbox_roundtrip(g: Gearbox)
    ensures
        spec_gearbox_decode(spec_gearbox_bytes(g)) == (Some(g)),
{
    lemma_words_to_bytes(g.spec_words());
    let gi = g.gear_index;
    assert(((gi as u32) as i32) == gi) by (bit_vector);
}

} // verus!
