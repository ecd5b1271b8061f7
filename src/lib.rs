//! Two-party chess game synchronisation: an authoritative host that owns the
//! rules engine and a thin client that mirrors the host's board.

pub mod chess_engine;
pub mod codec;
pub mod local_engine;
pub mod oracle;
pub mod protocol;
pub mod remote_engine;
pub mod remote_host_engine;
