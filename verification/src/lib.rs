//! Verified core of a looping video-wallpaper player.
//!
//! The library models the decisions the player makes — which decode graph to
//! build and with what buffer budgets, how to route dynamically discovered
//! stream branches, how to react to engine faults, which buffered frame to
//! present, and when window-manager activity should pause or mute playback.
//! The surrounding process (window-system handshake, GPU bootstrap, the decode
//! engine itself) applies these decisions; it lives outside this crate.

pub mod controller;
pub mod frames;
pub mod graph;
pub mod present;
pub mod transport;
