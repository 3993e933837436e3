//! A minimal web counter: one unsigned total, increased by bounded deltas
//! submitted over HTTP, read back as JSON or rendered into an HTML page.
//!
//! The crate holds the transport-agnostic core: the counter state model and
//! its update protocol, the input validator, the request router, and the
//! handler that turns routed requests into responses.

pub mod handler;
pub mod num;
pub mod render;
pub mod response;
pub mod router;
pub mod store;
pub mod validate;

use vstd::prelude::*;

verus! {

/// Smallest increment a submit request may carry.
pub const MIN_DELTA: u32 = 1;

/// Largest increment a submit request may carry.
pub const MAX_DELTA: u32 = 99;

/// A delta may move the counter only when it lies in `[MIN_DELTA, MAX_DELTA]`.
pub open spec fn delta_in_range_spec(d: u32) -> bool {
    MIN_DELTA <= d <= MAX_DELTA
}

/// Decides whether a parsed delta is allowed to move the counter.
pub fn delta_in_range(d: u32) -> (r: bool)
    ensures
        r == delta_in_range_spec(d),
{
    MIN_DELTA <= d && d <= MAX_DELTA
}

} // verus!
