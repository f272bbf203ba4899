//! The record type that the listing endpoint returns.

use vstd::prelude::*;

verus! {

/// A user as the service reports it.
///
/// The service enforces no invariant on a record: uniqueness of `id`,
/// `username` and `email` is the store's business.
#[derive(Debug, Clone, PartialEq, Eq)]
pub struct User {
    /// Identifier generated by the store.
    pub id: i32,
    /// Login name.
    pub username: String,
    /// E-mail address.
    pub email: String,
    /// Name for display.
    pub full_name: String,
    /// Time of creation, where known.
    pub created_at: Option<String>,
    /// Time of the last change, where known.
    pub updated_at: Option<String>,
}

/// The mathematical value of a [`User`].
pub struct UserView {
    pub id: int,
    pub username: Seq<char>,
    pub email: Seq<char>,
    pub full_name: Seq<char>,
    pub created_at: Option<Seq<char>>,
    pub updated_at: Option<Seq<char>>,
}

impl View for User {
    type V = UserView;

    open spec fn view(&self) -> UserView {
        UserView {
            id: self.id as int,
            username: self.username@,
            email: self.email@,
            full_name: self.full_name@,
            created_at: self.created_at.deep_view(),
            updated_at: self.updated_at.deep_view(),
        }
    }
}

impl DeepView for User {
    type V = UserView;

    open spec fn deep_view(&self) -> UserView {
        self@
    }
}

} // verus!
