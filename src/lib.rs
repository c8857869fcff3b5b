//! A shared-world layer over a single-player Game Boy role-playing game.
//!
//! The library watches the emulated program at a handful of checkpoints, edits
//! its memory and registers to make remote players appear solid and talkative,
//! draws them into the frame, and decides what the client and the relay broker
//! send over the network.
use vstd::prelude::*;

pub mod values;
pub mod data;
pub mod text;
pub mod offsets;
pub mod host;
pub mod presence;
pub mod interface;
pub mod checkpoints;
pub mod hacks;
pub mod render;
pub mod event;
pub mod broker;
pub mod extract;
pub mod net;
pub mod wire;
pub mod error;

verus! {

/// Identity of a connected player, handed out by the broker in sequence.
pub type PlayerId = u32;

} // verus!
