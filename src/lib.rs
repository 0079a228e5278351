//! A catalog of hosted source repositories: the verified core of the
//! repository ingestion pipeline (URL resolution, history normalization,
//! contributor deduplication and the compensating ingestion protocol).
pub mod errors;
pub mod helpers;
pub mod email;
pub mod commit;
pub mod git;
pub mod repository;
pub mod branch;
pub mod ingest;
pub mod config;
