//! A pre-kernel loader for UEFI firmware: status decoding, capability
//! discovery, memory-map snapshots, file metadata parsing and the transition
//! controller that drives the kernel load and the surrender of boot services.
pub mod boot;
pub mod bytes;
pub mod capability;
pub mod error;
pub mod file_info;
pub mod guid;
pub mod memory_map;
pub mod protocols;
pub mod status;
pub mod utils;
pub mod wide;
