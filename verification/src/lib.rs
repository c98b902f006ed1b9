//! Authenticated request-dispatch pipeline for a wallet HTTP API.
//!
//! The library models the layer between the transport and the external
//! collaborators (key store and domain service): an authentication stage
//! that resolves an opaque caller identity from an `api-key` header, a
//! request-scoped context that carries that identity to exactly one
//! request's handlers, an extractor through which handlers read it, and
//! the address handlers that plan scoped domain-service calls and map
//! their replies into a uniform response envelope.
//!
//! All I/O (the HTTP server, the key store lookup, the domain-service
//! calls) is performed by the surrounding application; the library states
//! and proves what is decided between those calls: which requests are
//! rejected and with what status, which identity every scoped call
//! carries, and how each domain reply is rendered.

pub mod auth;
pub mod handlers;
pub mod pipeline;
pub mod rejection;
pub mod requests;
pub mod responses;
