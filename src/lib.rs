//! Client-side connection bootstrap for WebSocket connections: request
//! normalisation, mode detection, stream wrapping, address racing and the
//! redirect-following handshake driver.

pub mod client;
pub mod connector;
pub mod error;
pub mod message;
pub mod mode;
pub mod plain;
pub mod record;
pub mod redirect;
pub mod request;
pub mod tls;
pub mod uri;
