//! Core of a bridge between a host application and a OneBot-v11 chat
//! gateway: session lifecycle, event broadcast, message-chain translation,
//! and the typed request/response discipline of the API proxy.
use vstd::prelude::*;

pub mod bus;
pub mod bytes;
pub mod chain;
pub mod color;
pub mod commands;
pub mod errors;
pub mod event;
pub mod ids;
pub mod proxy;
pub mod session;

verus! {

/// Sanity check exported to the host: adds 100 to its argument.
pub fn plus_100(input: u32) -> (r: u32)
    requires
        input + 100 <= u32::MAX,
    ensures
        r == input + 100,
{
    input + 100
}

} // verus!
