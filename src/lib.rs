//! Request authentication and error-disclosure pipeline: opaque identifiers,
//! the error taxonomy, session token parsing, context resolution, action
//! affordances and the client-safe response envelope.

pub mod action;
pub mod api;
pub mod ctx;
pub mod error;
pub mod log;
pub mod method;
pub mod mw_auth;
pub mod response;
pub mod token;
pub mod uuid;
