//! Data objects of the HTTP surface.
//!
//! The structured delta of the rich editor is an opaque serialized blob:
//! the core passes it through unchanged and never interprets it.
use vstd::prelude::*;

verus! {

/// Arguments of draft creation.
pub struct CreatePostArgs {
    /// Opaque serialized editor payload, passed through unchanged.
    pub delta: Option<String>,
    pub is_public: Option<bool>,
    pub title: String,
}

/// Arguments of a (future) post update.
pub struct UpdatePostArgs {
    /// Opaque serialized editor payload, passed through unchanged.
    pub delta: Option<String>,
    pub is_public: Option<bool>,
    pub title: Option<String>,
}

/// Arguments of signup.
pub struct SignupArgs {
    pub email: String,
    pub password: String,
    pub password_conf: String,
}

/// One row of a rendered post listing: everything the page shows.
pub struct BlogPostPreview {
    pub uuid_repr: String,
    pub title: String,
    pub date_repr: String,
    pub preview: String,
}

} // verus!
