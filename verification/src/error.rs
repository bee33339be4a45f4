//! The single error of this crate.

use vstd::prelude::*;

verus! {

/// Cumulative write demands exceeded the fixed region length at some point
/// during the adapter's use.
///
/// The error carries no payload: overflow is sticky and the adapter
/// deliberately loses fine-grained overflow detail once triggered.
#[derive(Clone, Copy, Debug, PartialEq, Eq, Structural)]
pub struct CapacityExceeded;

} // verus!
