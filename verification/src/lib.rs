//! A distributed atomic disk drive: a fixed array of 4096-byte sectors
//! replicated over a known set of processes, each sector an (N,N) atomic
//! register driven by a majority-quorum protocol over authenticated TCP.
//!
//! This crate holds the verified core: the wire codec with HMAC-SHA256
//! authentication, the sector and stable-storage bookkeeping, the stubborn
//! retransmission bookkeeping, the per-sector atomic-register state machine
//! and the dispatch rules. Sockets, files and timers are driven by a thin
//! unverified shell that feeds their results into these functions.
pub mod atomic_register;
pub mod base64url;
pub mod client_command_state;
pub mod register_client;
pub mod register_data;
pub mod command_type;
pub mod context;
pub mod dispatch;
pub mod message_header;
pub mod domain;
pub mod filename;
pub mod frame_reader;
pub mod sectors_manager;
pub mod stable_storage;
pub mod hashes;
pub mod wire;
pub mod wirebytes;
