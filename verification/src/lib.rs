//! A live-request relay broker: callers post requests to an endpoint id, and
//! every relay session subscribed to that id receives them, gated by a token
//! that was issued when the endpoint was registered.

pub mod auth;
pub mod auth_service;
pub mod channel;
pub mod cleanup;
pub mod config;
pub mod dispatcher;
pub mod ident;
pub mod message;
pub mod registry;
pub mod request_data;
pub mod session;
pub mod shutdown;
pub mod status;
pub mod text;
pub mod token_store;
