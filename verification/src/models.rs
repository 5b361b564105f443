//! The plain records that the decisions read and give.

use vstd::prelude::*;

verus! {

/// A registered user, as the store holds it.
#[derive(Debug, Clone)]
pub struct User {
    pub id: i64,
    pub username: String,
    /// The password hash, as a PHC string.
    pub password_hash: String,
}

/// What a client sends to log in.
#[derive(Debug)]
pub struct LoginRequest {
    pub username: String,
    pub password: String,
}

/// What a client gets back once logged in.
#[derive(Debug)]
pub struct LoginResponse {
    pub token: String,
}

/// What a token says of its bearer.
#[derive(Debug, Clone)]
pub struct Claims {
    /// The user's name.
    pub sub: String,
    /// The user's identifier.
    pub uid: i64,
    /// When the token expires, in seconds since the start of 1970.
    pub exp: usize,
}

/// What a client sends to enter an item.
#[derive(Debug)]
pub struct CreateItem {
    /// The name of the item's category.
    pub category: String,
    pub name: String,
    pub notes: Option<String>,
    pub image_url: Option<String>,
}

/// The text fields of an item that a client wants changed; a field that is
/// absent stays as it is.
#[derive(Debug)]
pub struct UpdateItem {
    pub category: Option<String>,
    pub name: Option<String>,
    pub notes: Option<String>,
    pub image_url: Option<String>,
}

/// The outcome of one comparison, as a client reports it.
#[derive(Debug)]
pub struct ComparisonRequest {
    pub winner_id: String,
    pub loser_id: String,
}

/// Two items to compare.
#[derive(Debug)]
pub struct ComparisonPair<T> {
    pub item1: T,
    pub item2: T,
}

} // verus!
