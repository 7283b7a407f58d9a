//! Core of a real-time multiplayer relay server: the per-client vehicle
//! identifier directory, the outgoing-command wire encoder, the vehicle
//! state model, and the scripting-value marshaller.
//!
//! Floating-point quantities (colours, physics state, scripting numbers)
//! are carried as their raw bit patterns, so that equality, hashing and
//! the wire encoding are bit-exact.

pub mod directory;
pub mod info;
pub mod json;
pub mod marshal;
pub mod outgoing;
pub mod vehicle;
pub mod wire;

pub use directory::Server;
pub use info::{ClientInfoPrivate, ClientInfoPublic, ServerInfo, ClientCommand, ServerCommand};
pub use marshal::ScriptValue;
pub use outgoing::Outgoing;
pub use vehicle::{Electrics, Gearbox, Transform, Vehicle, VehicleData};
pub use wire::{Float64, MarshalledLuaValue, MarshalledLuaValueConversionError};
