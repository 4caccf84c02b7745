//! A tool-invocation service that exposes a single DNS lookup tool.
//!
//! The crate holds the decisions of such a service: which tools are
//! advertised, how an invocation is resolved and validated against a tool's
//! schema, which outbound request a lookup needs and how the outcome of that
//! request becomes the result handed to the client. Reading and writing the
//! session and performing the outbound request are left to the host program.

pub mod error;
pub mod lookup;
pub mod outcome;
pub mod router;
pub mod schema;
pub mod service;
pub mod session;
