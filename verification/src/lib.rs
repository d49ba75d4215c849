//! A client SDK for the WhatsApp Cloud API hosted by Meta.
//!
//! The heart of the library is its inbound/outbound boundary layer:
//! normalizing webhook payloads into a closed set of domain events
//! (`webhooks`), authenticating those payloads with a keyed digest
//! (`webhooks::verify_signature`), and classifying upstream error
//! responses into a small set of actionable error kinds (`error`).
//! The remaining modules hold the wire-level data model shared with
//! the transport layer that performs the actual HTTP calls.

pub mod analytics;
pub mod block;
pub mod error;
pub mod flows;
pub mod json;
pub mod media;
pub mod messages;
pub mod phone_numbers;
pub mod products;
pub mod qr_codes;
pub mod templates;
pub mod types;
pub mod waba;
pub mod webhooks;
pub mod webhooks_management;

pub use error::Error;

