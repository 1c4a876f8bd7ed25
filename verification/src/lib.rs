//! Verified core of a service that powers an LG webOS TV off when the PC
//! sleeps or shuts down, and back on (Wake-on-LAN) when it wakes or starts.
//!
//! The library holds the decisions: configuration defaults and paths, the
//! service's reaction to power and control events, the SSAP handshake rules,
//! the Wake-on-LAN packet, the connectivity probe and the command line.
//! The executable around it performs the I/O.

pub mod cli;
pub mod config;
pub mod logging;
pub mod paths;
pub mod power;
pub mod probe;
pub mod service;
pub mod state;
pub mod text;
pub mod tv;

use vstd::prelude::*;

verus! {

} // verus!
