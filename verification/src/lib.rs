//! The core of a data-availability client for a Syscoin-style node.
//!
//! The crate decides what is sent to the node and what a reply means; it
//! performs no network exchange itself. A caller posts the prepared call and
//! hands the body of the reply back.

pub mod client;
pub mod codec;
pub mod error;
pub mod json;
pub mod laws;
pub mod reply;
pub mod request;
pub mod wiring_layer;
