//! Verified core of a data-object layer over a native cryptographic engine.
//!
//! The engine is reached through its C interface only, which verified code
//! cannot call. What is decided on either side of those calls lives here:
//!
//! - [`error`]: how a status word becomes an error, and how errors travel
//!   between the engine, the OS error register and host I/O errors;
//! - [`data`]: the owner of a native handle, the outcome of a native
//!   construction, the stream results of native transfers, and the
//!   encoding and content-type codes;
//! - [`callbacks`]: which callback slots a stream object fills, and what
//!   each callback hands back to the engine;
//! - [`text`], [`notation`], [`trust`]: the engine's strings and records as
//!   plain values.

pub mod callbacks;
pub mod data;
pub mod error;
pub mod notation;
pub mod text;
pub mod trust;
