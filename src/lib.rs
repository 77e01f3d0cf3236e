//! A reverse tunnelling service: session and entrypoint registries, the relay
//! decisions that multiplex external connections over one client stream, the
//! HTTP and TCP front-end logic, and the client's demultiplexer.
pub mod text;
pub mod transport;
pub mod ids;
pub mod entrypoint;
pub mod table;
pub mod auth;
pub mod config;
pub mod relay;
pub mod http;
pub mod tcp;
pub mod client;
