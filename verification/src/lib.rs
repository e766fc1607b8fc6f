//! The logic of a small HTTP service for user records: what each endpoint
//! answers, how errors turn into responses, and which paths are served.
//!
//! Nothing here touches the network. A server hands a routed request to
//! [`router::dispatch`] and sends what comes back.

pub mod error;
pub mod handlers;
pub mod json;
pub mod response;
pub mod router;
