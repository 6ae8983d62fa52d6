//! A bridge that hands a small columnar table to an embedded scripting
//! runtime and calls one plotting function defined there.
//!
//! The library holds the parts that decide: where the runtime's extra
//! packages live on each platform, what a well-formed table is, and the
//! order of the steps of one call into the runtime, with the error that
//! each failed step turns into. The steps themselves are carried out by
//! the program that drives the bridge.
use vstd::prelude::*;

pub mod bridge;
pub mod platform;
pub mod table;

verus! {

} // verus!
