//! A small uTP (Micro Transport Protocol) core: the packet wire format, the
//! receive-side reassembly buffer, the per-connection handshake state machine
//! and the connection table that dispatches incoming packets.
pub mod buffer;
pub mod conn;
pub mod packet;
pub mod socket;
pub mod stream;
pub mod time;
pub mod utils;
