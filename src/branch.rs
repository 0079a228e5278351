//! Branch pointers of the catalog's repositories.
use vstd::prelude::*;

verus! {

/// A branch row: a name in a repository and the hash of its head commit.
#[derive(Debug, Clone)]
pub struct Branch {
    pub id: u128,
    pub name: String,
    pub repository_id: u128,
    pub head: String,
}

/// The values of a branch to insert; the store gives it its id.
#[derive(Debug, Clone)]
pub struct BranchData {
    pub name: String,
    pub repository_id: u128,
    pub head: String,
}

} // verus!
