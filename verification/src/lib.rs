//! A client core for the Piston code-execution service.
//!
//! The crate decides and the caller transmits: every operation that needs the
//! network is cut at the points where a request leaves and a reply arrives.
//! What is sent, and what a reply means, is fixed here.

use vstd::prelude::*;

pub mod catalog;
pub mod client;
pub mod error;
pub mod lang;
pub mod transport;

pub use client::PistonClient;
pub use error::Error;

verus! {

/// The path of the catalog of languages: for GET only.
pub const RUNTIMES_PATH: &'static str = "/piston/runtimes";

/// The path that runs a program: for POST only.
pub const EXECUTE_PATH: &'static str = "/piston/execute";

} // verus!
