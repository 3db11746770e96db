//! Ingestion of a tabular corpus of movie plots into a multi-vector search index.
//!
//! The library holds the decisions of the pipeline: the table model and its
//! column coercion, the derivation of embeddable text, the checks on what the
//! embedding backend returns, the collection schema, the payload of each point,
//! the upload batches, and the state machine that orders the whole run.
pub mod error;
pub mod table;
pub mod payload;
pub mod upload;
pub mod text;
pub mod embed;
pub mod provision;
pub mod pipeline;
pub mod search;
