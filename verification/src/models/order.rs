use vstd::prelude::*;

verus! {

/// A supplier's request to move an order to a new status.
pub struct UpdateOrderStatusDto {
    pub status: String,
}

} // verus!
