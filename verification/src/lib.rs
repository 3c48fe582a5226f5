//! Authenticated request construction and response normalisation for
//! exchange REST interfaces.
//!
//! The crate computes: it signs and assembles requests from plain values and
//! turns response bodies into a uniform value model. Sending a request is left
//! to the caller, and so is the clock: every request is built for the time
//! that the caller hands in, and a caller that repeats a request builds it
//! anew for the new time. Where an exchange wants the timestamps of one key to
//! increase, the caller puts the calls that share the key in order.

pub mod broker;
pub mod constants;
pub mod error;
pub mod exchange;
pub mod json;
pub mod number;
pub mod request;
pub mod signing;
pub mod string_map;
pub mod text;
pub mod timestamp;
pub mod utils;
pub mod value;
