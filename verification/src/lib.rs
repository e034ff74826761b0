//! Clipboard-history engine: a deduplicated clip store, the decisions of the
//! clipboard monitor, of the interactive browser and of one-shot ingestion,
//! each stated over mathematical models and proved.

pub mod browser;
pub mod failure;
pub mod ingest;
pub mod mode;
pub mod model;
pub mod monitor;
pub mod statement;
pub mod store;
