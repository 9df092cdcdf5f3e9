//! The transport: secure channel, connection pool, server session and file
//! transfer engine. Sockets and files are read and written elsewhere; this
//! module decides what is sent, what is accepted and what happens next.

pub mod client;
pub mod file_transfer;
pub mod secure_channel;
pub mod server;

pub use client::TcpClient;
pub use file_transfer::{FileTransfer, FileTransferService, TransferStatus};
pub use secure_channel::SecureChannelManager;
