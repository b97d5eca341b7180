//! Verified core of a video ingestion service: the storage layout, the
//! decisions of the upload pipeline and of record deletion, and the shapes
//! of the records kept in the metadata store.

pub mod models;
pub mod storage;
pub mod text;
pub mod transcode;
pub mod ingest;
pub mod repository;
pub mod catalog;
pub mod ids;
pub mod removal;
pub mod shows;
