//! An SMTP ingestion gateway: the per-session mail handler, the message and
//! error model, destination routing, and the decisions a listener takes on a
//! connection.
pub mod dest;
pub mod email;
pub mod error;
pub mod listener;
pub mod matrix;
pub mod routing;
pub mod session;
