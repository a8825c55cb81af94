//! Core of a peer-to-peer file transfer protocol stack: ephemeral key
//! agreement and field encryption, the legacy BLE advertisement and its
//! decoding, the JSON payloads exchanged over BLE, the text-framed control
//! protocol and its two state machines, and the Wi-Fi bearer's settings and
//! tool-output readers.
pub mod text;
pub mod crypto;
pub mod brand;
pub mod config;
pub mod advert;
pub mod protocol;
pub mod messages;
pub mod gatt;
pub mod control;
pub mod scanner;
pub mod wifi;
pub mod workflow;
pub mod netinfo;
pub mod nm;
