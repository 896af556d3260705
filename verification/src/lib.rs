//! Client-side access layer for a remote catalog service reached over
//! HTTP(S): a validated configuration builder that materializes a network
//! client, certificate handling, and a cursor-driven pagination engine.

pub mod certificate;
pub mod config;
pub mod decimal;
pub mod duration;
pub mod error;
pub mod keys;
pub mod options;
pub mod pagination;
pub mod policy;
pub mod strutil;
pub mod transport;
