//! Core logic of a headless endpoint-management agent: enrollment protocol,
//! credential store format, metrics forwarding decisions, self-update staging
//! and the supervisor state machine. Everything here is verified; the I/O
//! that drives it lives in the companion application.
use vstd::prelude::*;

pub mod agent;
pub mod cli;
pub mod config;
pub mod enrollment;
pub mod metrics;
pub mod runtime_config;
pub mod storage;
pub mod sysinfo;
pub mod text;
pub mod updater;

verus! {

} // verus!
