//! Core of a daemon that drives a per-key RGB keyboard: the color model, the
//! compositor that blends the frames of effect scripts, the protocol of the
//! script hosts and the macro engine that mirrors and injects key events.
use vstd::prelude::*;

pub mod color;
pub mod compositor;
pub mod events;
pub mod frame;
pub mod host;
pub mod macros;
pub mod script;

verus! {

/// Number of addressable keys of the managed keyboard.
pub const NUM_KEYS: usize = 144;

/// Get the number of keys of the managed device.
pub fn get_num_keys() -> (r: usize)
    ensures
        r == NUM_KEYS,
{
    NUM_KEYS
}

} // verus!
