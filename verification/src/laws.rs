//! What the library promises, stated of the calls of its functions: each law relates what goes into
//! a call to what comes out of it.
pub mod calling;
pub mod client;
pub mod config;
pub mod connection;
pub mod error;
pub mod event;
pub mod heartbeat;
pub mod message;
pub mod time;
