//! A client for the Zeebe workflow engine: the requests it sends to the
//! gateway, the state machines that drive its job workers and its OAuth token
//! cache, and the configuration that decides where it connects.
use vstd::prelude::*;

pub mod client;
pub mod error;
pub mod interop;
pub mod job;
pub mod json;
pub mod oauth;
pub mod process;
pub mod proto;
pub mod resources;
pub mod text;
pub mod topology;
pub mod util;
pub mod worker;
pub mod workflow;

pub use error::{Result, ZeebeError};

verus! {

} // verus!
