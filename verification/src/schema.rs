//! Marker types for store-side column types that have no plain Rust
//! counterpart.

use vstd::prelude::*;

verus! {

/// Marker for the SQL enumeration used by the customer-order status
/// column. The catalog browser never reads that table; the marker is
/// kept so that callers naming the column type still can.
#[derive(Clone, Copy, Debug, PartialEq, Eq, Structural)]
pub struct CustomerOrderStatusEnum;

} // verus!
