//! The records of a search reply.

use vstd::prelude::*;

verus! {

/// A conversation found by a search.
pub struct SearchGroupResult {
    pub id: String,
    pub name: String,
    pub avatar: String,
}

/// A user found by a search.
pub struct SearchUserResult {
    pub id: String,
    pub name: String,
    pub avatar: String,
}

/// What a search found.
pub struct SearchResult {
    pub groups: Vec<SearchGroupResult>,
    pub users: Vec<SearchUserResult>,
}

} // verus!
