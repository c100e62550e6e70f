use vstd::prelude::*;

verus! {

/// A note pinned to a point on an attached 3D model.
pub struct Annotation {
    pub id: i32,
    pub user_full_name: String,
    pub position: String,
    pub normal: String,
    pub text: String,
    /// Milliseconds since the Unix epoch, UTC.
    pub created_at: i64,
}

/// What a user sends to pin a new note.
pub struct CreateAnnotationDto {
    pub position: String,
    pub normal: String,
    pub text: String,
}

} // verus!
