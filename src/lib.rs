//! Clients for a chat-completion service and for the Anki-Connect JSON-RPC
//! service: the decisions of the retry protocol, the request envelope and
//! the reading of the response envelope, verified.

pub mod client;
pub mod completion;
pub mod error;
pub mod json;
pub mod notes;
pub mod retry;
pub mod rpc;
pub mod text;
