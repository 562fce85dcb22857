//! Credential-and-session core of a command-line client for a remote
//! device-management service.
//!
//! The library stores one password per user id, encrypted so that it can only
//! be recovered on the host that stored it, and maintains a short-lived
//! bearer token, renewing it when it is absent or expired, so that outbound
//! calls are authenticated without re-prompting the user.

pub mod commands;
pub mod config;
pub mod crypto;
pub mod devices;
pub mod errors;
pub mod executor;
pub mod handlers;
pub mod helpers;
pub mod identity;
pub mod issues;
pub mod kdf;
pub mod token;
pub mod vault;
