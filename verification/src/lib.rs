//! Network protocols of a blockchain node.
//!
//! This library decides how the node's network connections behave and acts as
//! message passing between the other parts of the node (blockchain,
//! transactions). It never waits and never touches a socket: the program around
//! it polls streams and moves bytes, hands in what it got, and carries out what
//! comes back.
pub mod channels;
pub mod client;
pub mod outside;
pub mod poll;
pub mod server;
