//! Classification of freshly accepted TLS connections.
//!
//! Once a handshake has exposed the negotiated ALPN identifier and the
//! requested server name, the selector decides which downstream protocol
//! handler owns the connection.

pub mod alpn;
pub mod error;
pub mod ping_handler;
pub mod protocol;
pub mod selection_laws;
pub mod selector;
pub mod settings;
pub mod text;
