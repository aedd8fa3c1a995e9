//! Native shell core for a hosted web-rendering surface.
//!
//! The crate models the pieces of the shell that carry its logic: the
//! configuration defaults, the mock metadata catalog, the service registry
//! with its JSON message protocol, the staged construction of an embedding
//! session, and the binding of that session to its host window.  The
//! platform edges (window creation, the rendering engine's COM surface,
//! file I/O) live outside this crate and hand it plain values.

pub mod binder;
pub mod bridge;
pub mod config;
pub mod decode;
pub mod envelope;
pub mod media;
pub mod services;
pub mod session;
pub mod text;
