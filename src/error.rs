use vstd::prelude::*;

verus! {

/// Every way an ingestion run can fail; each stage fails fast.
#[derive(Debug, PartialEq, Eq)]
pub enum IngestError {
    /// A column to coerce is absent from the table.
    Schema { column: String },
    /// A column that text derivation reads is absent from the table.
    Projection { column: String },
    /// The embedding backend terminated abnormally or reported an error.
    BackendExecution { message: String },
    /// The embedding backend answered with a payload that could not be decoded.
    BackendDecode { raw: String },
    /// The embedding backend returned another number of embeddings than texts.
    BackendCountMismatch { expected: usize, actual: usize },
    /// An embedding vector does not have the collection's dimensionality.
    BackendDimension { row: usize, expected: usize, actual: usize },
    /// Listing or creating the collection failed.
    Provision { message: String },
    /// A row index lies outside the table.
    RowIndex { row: usize, rows: usize },
    /// An upsert of the rows `start..end` failed; rows before `start` are committed.
    Upload { message: String, start: usize, end: usize },
}

} // verus!
