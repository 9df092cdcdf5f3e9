//! Secure peer-to-peer transport core for LAN file and message sharing:
//! wire framing, the ephemeral key-exchange handshake, authenticated
//! message encryption, streamed file encryption, and the decision logic of
//! the connection pool, the per-connection server session and the file
//! transfer engine.

pub mod bytes;
pub mod crypto;
pub mod identity;
pub mod network;
pub mod outside_std;
pub mod protocol;
pub mod registry;
