//! Typed access to the pre-boot firmware's Boot Services.
//!
//! The firmware table itself is reached through raw function pointers, which
//! only unverified code can call. This crate holds everything around those
//! calls: the status codes the firmware answers with, the memory-map layout it
//! fills in, the ledger of pool memory obtained from it, and the lifecycle of
//! the table up to the point where boot services are exited.

pub mod status;
pub mod memory;
pub mod boot;
pub mod laws;
