//! Decoding of the binary envelope in which protocol plugins describe application-layer
//! requests and responses, merging of the two halves of an exchange, and conversion into
//! the agent's canonical log; with the numeric tables that classify link and network
//! layers.

use vstd::prelude::*;

pub mod bytes;
pub mod enums;
pub mod laws;
pub mod plugin;
pub mod protocol;
pub mod send_log;
pub mod text;
pub mod wire;

verus! {

} // verus!
