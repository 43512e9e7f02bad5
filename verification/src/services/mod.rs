//! The parts of the request pipeline.
pub mod classify;
pub mod credentials;
pub mod requests;
