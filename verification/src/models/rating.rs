use vstd::prelude::*;

verus! {

/// A buyer's rating of a completed order; each mark is from 1 to 5.
pub struct RateOrderDto {
    pub quality_rating: u8,
    pub communication_rating: u8,
}

} // verus!
