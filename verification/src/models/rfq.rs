use vstd::prelude::*;

verus! {

/// A request for quotation, with the buyer's details joined in.
pub struct Rfq {
    pub id: i32,
    pub buyer_company_id: i32,
    pub title: String,
    pub description: Option<String>,
    pub quantity: i32,
    pub status: String,
    /// Milliseconds since the Unix epoch, UTC.
    pub created_at: i64,
    pub buyer_company_name: String,
    pub city: Option<String>,
    pub buyer_user_id: i32,
}

/// What a buyer sends to open a request for quotation.
pub struct CreateRfqDto {
    pub title: String,
    pub description: Option<String>,
    pub quantity: i32,
}

/// A file attached to a request for quotation.
pub struct RfqAttachment {
    pub id: i32,
    pub rfq_id: i32,
    pub original_filename: String,
    pub stored_path: String,
}

} // verus!
