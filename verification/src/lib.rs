//! A tiny static file server for local development: request parsing,
//! path resolution, response framing, MIME lookup and the live-reload
//! WebSocket handshake, each with a proved contract.

pub mod mime;
pub mod text;
pub mod websocket;
pub mod http;
pub mod watch;
pub mod cli;
