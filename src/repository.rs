//! Repositories of the catalog.
use vstd::prelude::*;

verus! {

/// A repository row. Times are seconds since the Unix epoch, in UTC.
#[derive(Debug, Clone)]
pub struct Repository {
    /// The row's unique id: a UUID as a 128-bit big-endian number.
    pub id: u128,
    /// The canonical `owner/name` identifier; unique in the catalog.
    pub url: String,
    pub created_at: i64,
    pub updated_at: i64,
    /// The network address of whoever asked for the ingestion.
    pub uploader_ip: String,
}

/// The payload that asks for a repository to be ingested: a URL that names
/// it, and the branch whose history is wanted.
#[derive(Debug, Clone)]
pub struct RepositoryData {
    pub url: String,
    pub branch: String,
}

} // verus!
