//! A thin HTTP-to-HTTP proxy for CRUD operations on a Project entity.
//!
//! Every inbound route is translated into one outbound call against a hosted
//! database's REST API. This crate holds the verified core: request
//! validation, outbound request construction, and the mapping of upstream
//! outcomes to uniform response envelopes. The surrounding I/O (the web
//! server, the HTTP client, JSON encoding) lives outside the library and
//! hands plain values in and out.

pub mod handler;
pub mod model;
pub mod xata_service;
