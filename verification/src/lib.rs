//! Core protocol engine for Stratum mining coordination.
//!
//! Two protocol generations are covered: the line-delimited JSON-RPC
//! variant (V1), with its message model, method registry and the session
//! state machines of both roles, and the binary length-prefixed variant
//! (V2), for which the frame header codec is provided.

pub mod client;
pub mod error;
pub mod errors;
pub mod header;
pub mod json_rpc;
pub mod methods;
pub mod server;
pub mod utils;

pub use client::{Client, ClientStatus, IsClient};
pub use error::Error;
pub use header::{Header, NoiseHeader};
pub use json_rpc::Message;
pub use methods::{client_to_server, server_to_client, Method, ParsingMethodError};
pub use server::{IsServer, Server};
pub use utils::{HexBytes, HexU32Be};
