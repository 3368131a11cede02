//! Vendor catalogue backend: the decisions behind image ingestion, paging,
//! password rules and the response shapes of the catalogue endpoints.

pub mod catalog;
pub mod email;
pub mod error;
pub mod ids;
pub mod ingest;
pub mod mime;
pub mod paging;
pub mod password;
pub mod product;
pub mod storage;
pub mod store;
pub mod vendor;
