//! Verified core of a terminal chat scope for a peer-to-peer network.
//!
//! The terminal render loop and the network loop run on different threads
//! and share no memory. This crate holds the decisions both loops make:
//! frame pacing, the render loop's state machine, the mapping from network
//! updates to view mutations, and the network loop's reactions to events.
pub mod pacer;
pub mod text;
pub mod views;
pub mod updates;
pub mod runner;
pub mod network;
pub mod startup;
