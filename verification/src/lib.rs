//! A WebSocket client whose decisions are verified.
//!
//! The library holds the rules of the client: its configuration, its errors, its messages and
//! how they are framed and routed, its events, its reconnection, its heartbeat and its life
//! cycle. It performs no input or output. A caller that owns the socket tells it what happened
//! and carries out what it answers.
pub mod text;
pub mod time;
pub mod error;
pub mod table;
pub mod message;
pub mod config;
pub mod event;
pub mod connection;
pub mod heartbeat;
pub mod client;
pub mod laws;

pub use client::WebSocketClient;
pub use config::ClientConfig;
pub use error::{WebSocketError, WebSocketResult};
pub use event::{EventBus, WebSocketEvent};
pub use message::{Message, MessageType};
