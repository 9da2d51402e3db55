//! Client-side implementation of a device-debugging wire protocol: a binary
//! frame codec, a transport that reads and writes whole frames over any byte
//! stream, the connect/upgrade handshake state machine, and the ephemeral
//! self-signed credential used to authenticate during the encrypted handshake.

pub mod adb;
pub mod types;
pub mod transport;
pub mod handshake;
pub mod crypto;
