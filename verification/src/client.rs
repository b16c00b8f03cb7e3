//! The client side of the node-to-node protocol.
pub mod connect;
pub mod connection;
pub mod error;
pub mod handle;
pub mod laws;
pub mod laws_commands;
pub mod laws_connection;
pub mod laws_handle;
pub mod laws_poll;
pub mod laws_session;
pub mod laws_table;
pub mod message;
pub mod requests;
pub mod session;
