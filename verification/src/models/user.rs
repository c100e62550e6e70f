//! The identity that a validated credential yields.

use vstd::prelude::*;

verus! {

/// Who is asking: the user, the company the user acts for, and which side
/// of a deal that company is on.
pub struct Claims {
    /// The user's id.
    pub sub: i32,
    pub company_id: i32,
    /// `BUYER` or `SUPPLIER`.
    pub company_type: String,
}

} // verus!
