use vstd::prelude::*;

pub mod config;
pub mod echo;
pub mod registry;
pub mod server;
pub mod session;
pub mod supervisor;

verus! {

/// Capacity of the read buffer that each stream session and the datagram socket reuse.
pub const BUFFER_CAPACITY: usize = 16384;

} // verus!
