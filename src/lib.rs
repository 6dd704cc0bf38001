//! A safety layer over the Gurobi environment API.
//!
//! The native calls themselves live with the caller; this library holds the
//! decisions around them: translation of status codes into errors, text
//! marshalling for C strings, the parameter protocol of the three parameter
//! families, and the lifecycle of a shared environment owner record.
use vstd::prelude::*;

pub mod error;
pub mod cstr;
pub mod param;
pub mod env;

verus! {

} // verus!
