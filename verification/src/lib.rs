//! Routing core of a push-notification endpoint: validation of the headers
//! that accompany a notification, and the decisions that route it either to
//! the connection node holding the subscriber or into storage.

pub mod base64url;
pub mod crypto_key;
pub mod decimal;
pub mod error;
pub mod header_laws;
pub mod links;
pub mod metrics;
pub mod notification;
pub mod notification_headers;
pub mod request;
pub mod routers;
pub mod routing_laws;
pub mod text;
pub mod webpush;
