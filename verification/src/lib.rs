//! A port-multiplexing packet dispatcher for small communication links.
//!
//! A [`Metro`] sits above one transceiver. Inbound packets are routed to the
//! handler bound to the packet's port; outbound packets are forwarded to the
//! transceiver unchanged.

pub mod packet;
pub mod tcvr;
pub mod handler;
pub mod metro;
pub mod laws;

pub use crate::handler::MetroApp;
pub use crate::metro::{Dispatch, Metro};
pub use crate::packet::{MetroError, MetroPacket, PAYLOAD_CAPACITY};
pub use crate::tcvr::MetroTcvr;
