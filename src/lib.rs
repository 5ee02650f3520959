//! Authentication layer for HTTP services: path classification, request
//! gating with a shared identity token, session-backed identity resolution
//! with absolute expiry, and a second-factor login and enrollment flow.

pub mod config;
pub mod domain;
pub mod encoding;
pub mod errors;
pub mod login;
pub mod mfa;
pub mod middleware;
pub mod path_matcher;
pub mod session;
pub mod token;
