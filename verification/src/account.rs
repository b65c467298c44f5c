//! Plain data the account service exchanges with the core: a login payload
//! and one row of the ranking. The account service itself — credentials,
//! tokens, win/loss counters — lives outside the library.

use vstd::prelude::*;

verus! {

/// A registration or login request: the credentials a client presents, and
/// the token slot the service fills on success.
#[derive(Clone, Debug, PartialEq)]
pub struct Login {
    pub name: String,
    pub password: String,
    pub token: String,
}

/// One row of the leaderboard: an account's display name and its point
/// balance (wins less losses).
#[derive(Clone, Debug, PartialEq)]
pub struct UserRank {
    pub username: String,
    pub points: i32,
}

impl UserRank {
    /// The placeholder row: an empty name and no points.
    pub fn new() -> (r: Self)
        ensures
            r.username@.len() == 0,
            r.points == 0,
    {
        Self { username: String::new(), points: 0 }
    }
}

} // verus!
