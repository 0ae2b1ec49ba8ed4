//! Policy-driven secure file wiping: pass planning, block fill patterns,
//! output-path resolution, and audit-log assembly.
//!
//! The library holds the verified core. File system access, the command-line
//! surface and JSON serialization live outside it and feed it plain values.

pub mod policy;
pub mod audit;
pub mod paths;
pub mod wipe;
