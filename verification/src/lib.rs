//! Firmware update coordination for fleets of constrained devices: the wire
//! protocol between a device and the coordinator, the decision that answers a
//! device status with exactly one command, and the rules around it.

pub mod backoff;
pub mod builds;
pub mod cache;
pub mod cbor;
pub mod conversation;
pub mod decision;
pub mod digest;
pub mod endpoint;
pub mod file;
pub mod hawkbit;
pub mod health;
pub mod index;
pub mod json;
pub mod metadata;
pub mod oci;
pub mod protocol;
pub mod readable;
pub mod schema;
pub mod server;
pub mod status;
pub mod store;
pub mod text;
pub mod updater;
pub mod views;
pub mod wire;
