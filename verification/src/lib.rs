//! The authenticated request pipeline of the car report client.
//!
//! A request is described by a method, a path below [`services::requests::API_ROOT`]
//! and an optional body. The pipeline attaches the cached bearer credential,
//! decides whether the body travels, and turns whatever the server answered into
//! either the decoded value or exactly one [`error::Error`].
//!
//! Nothing in this crate performs I/O. The transport, the durable storage and the
//! wire codecs are driven by the caller, which hands their results back as plain
//! values.
pub mod error;
pub mod services;
pub mod types;
