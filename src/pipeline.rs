use vstd::prelude::*;

use crate::embed::{check_embeddings, EMBEDDING_DIM};
use crate::error::IngestError;
use crate::provision::{collection_to_create, names_view, CollectionSchema, Comparator, Distance, VECTOR_SIZE};
use crate::upload::{batches, plan_batches, spans_view};

verus! {

/// Where an ingestion run stands.
#[derive(Clone, Copy, Debug, PartialEq, Eq, Structural)]
pub enum Stage {
    /// Waiting for the embeddings of all texts.
    Embedding,
    /// Waiting for the list of collections.
    Listing,
    /// Waiting for the collection to be created.
    Creating,
    /// Waiting for the upsert of batch `next_batch`.
    Uploading,
    Done,
    Failed,
}

/// What the run asks the outside world to do next.
#[derive(Debug)]
pub enum Step {
    /// Embed all texts, then report `Embedded` or `EmbedFailed`.
    Embed,
    /// List the collections, then report `Listed` or `BackendFailed`.
    ListCollections,
    /// Create the collection, then report `Created` or `BackendFailed`.
    CreateCollection(CollectionSchema),
    /// Upsert the points of rows `start..end`, then report `Upserted` or `BackendFailed`.
    Upsert { start: usize, end: usize },
    /// Every point is uploaded.
    Finished,
    /// The run stops with this error.
    Aborted(IngestError),
    /// The event did not fit the stage and was left aside.
    Ignored,
}

/// What the outside world reports back.
#[derive(Debug)]
pub enum Event {
    /// The embeddings were decoded; the length of each returned vector, in order.
    Embedded { lengths: Vec<usize> },
    /// The embedding backend failed.
    EmbedFailed(IngestError),
    /// The names of the existing collections.
    Listed(Vec<String>),
    Created,
    Upserted,
    /// A call to the index backend failed with this message.
    BackendFailed(String),
}

/// The decisions of one ingestion run: embed everything, make sure the
/// collection exists, then upsert the rows batch by batch, stopping at the
/// first failure.
pub struct Ingestion {
    pub collection: String,
    pub rows: usize,
    pub batch_size: usize,
    pub batches: Vec<(usize, usize)>,
    pub next_batch: usize,
    pub stage: Stage,
}

/// The run is at the first upload batch from `k` on, or done when there is none.
pub open spec fn uploading_from(s: Ingestion, k: int, r: Step) -> bool {
    if k < s.batches@.len() {
        &&& s.stage == Stage::Uploading
        &&& s.next_batch == k
        &&& r == (Step::Upsert { start: s.batches@[k].0, end: s.batches@[k].1 })
    } else {
        s.stage == Stage::Done && r is Finished
    }
}

impl Ingestion {
    pub open spec fn wf(&self) -> bool {
        &&& self.batch_size > 0
        &&& spans_view(self.batches@) == batches(0, self.rows as int, self.batch_size as int)
        &&& self.next_batch <= self.batches@.len()
        &&& self.stage == Stage::Uploading ==> self.next_batch < self.batches@.len()
    }

    /// The run is aborted with `e`.
    pub open spec fn aborts(&self, r: Step, e: IngestError) -> bool {
        self.stage == Stage::Failed && r == Step::Aborted(e)
    }

    /// A run that uploads `rows` rows into `collection`, in batches of
    /// `batch_size`; its first step is `Embed`.
    pub fn new(collection: String, rows: usize, batch_size: usize) -> (r: Ingestion)
        requires
            batch_size > 0,
        ensures
            r.wf(),
            r.collection == collection,
            r.rows == rows,
            r.batch_size == batch_size,
            r.stage == Stage::Embedding,
            r.next_batch == 0,
    {
        let batches = plan_batches(rows, batch_size);
        Ingestion { collection, rows, batch_size, batches, next_batch: 0, stage: Stage::Embedding }
    }

    fn start_upload(&mut self, k: usize) -> (r: Step)
        requires
            old(self).wf(),
            k <= old(self).batches@.len(),
        ensures
            final(self).wf(),
            final(self).collection == old(self).collection,
            final(self).rows == old(self).rows,
            final(self).batch_size == old(self).batch_size,
            final(self).batches == old(self).batches,
            uploading_from(*final(self), k as int, r),
    {
        if k < self.batches.len() {
            self.next_batch = k;
            self.stage = Stage::Uploading;
            let (start, end) = self.batches[k];
            Step::Upsert { start, end }
        } else {
            self.next_batch = k;
            self.stage = Stage::Done;
            Step::Finished
        }
    }

    /// The next step once `ev` is reported.
    pub fn advance(&mut self, ev: Event) -> (r: Step)
        requires
            old(self).wf(),
        ensures
            final(self).wf(),
            final(self).collection == old(self).collection,
            final(self).rows == old(self).rows,
            final(self).batch_size == old(self).batch_size,
            final(self).batches == old(self).batches,
            match (old(self).stage, ev) {
                (Stage::Embedding, Event::Embedded { lengths }) => if lengths@.len()
                    != old(self).rows {
                    final(self).aborts(
                        r,
                        IngestError::BackendCountMismatch {
                            expected: old(self).rows,
                            actual: lengths.len(),
                        },
                    )
                } else if exists|i: int|
                    0 <= i < lengths@.len() && lengths@[i] != EMBEDDING_DIM {
                    &&& final(self).stage == Stage::Failed
                    &&& r matches Step::Aborted(
                        IngestError::BackendDimension { row, expected, actual },
                    )
                    &&& expected == EMBEDDING_DIM
                    &&& row < lengths@.len()
                    &&& actual == lengths@[row as int]
                    &&& actual != EMBEDDING_DIM
                    &&& forall|j: int| 0 <= j < row ==> lengths@[j] == EMBEDDING_DIM
                } else {
                    final(self).stage == Stage::Listing && r is ListCollections
                },
                (Stage::Embedding, Event::EmbedFailed(e)) => final(self).aborts(r, e),
                (Stage::Listing, Event::Listed(names)) => if names_view(names@).contains(
                    old(self).collection@,
                ) {
                    uploading_from(*final(self), 0, r)
                } else {
                    &&& final(self).stage == Stage::Creating
                    &&& r matches Step::CreateCollection(c)
                    &&& c.name@ == old(self).collection@
                    &&& c.vector_size == VECTOR_SIZE
                    &&& c.distance == Distance::Cosine
                    &&& c.comparator == Comparator::MaxSim
                },
                (Stage::Listing, Event::BackendFailed(m)) => final(self).aborts(
                    r,
                    IngestError::Provision { message: m },
                ),
                (Stage::Creating, Event::Created) => uploading_from(*final(self), 0, r),
                (Stage::Creating, Event::BackendFailed(m)) => final(self).aborts(
                    r,
                    IngestError::Provision { message: m },
                ),
                (Stage::Uploading, Event::Upserted) => uploading_from(
                    *final(self),
                    old(self).next_batch + 1,
                    r,
                ),
                (Stage::Uploading, Event::BackendFailed(m)) => final(self).aborts(
                    r,
                    IngestError::Upload {
                        message: m,
                        start: old(self).batches@[old(self).next_batch as int].0,
                        end: old(self).batches@[old(self).next_batch as int].1,
                    },
                ),
                _ => *final(self) == *old(self) && r is Ignored,
            },
    {
        match (self.stage, ev) {
            (Stage::Embedding, Event::Embedded { lengths }) => {
                match check_embeddings(self.rows, &lengths) {
                    Ok(()) => {
                        self.stage = Stage::Listing;
                        Step::ListCollections
                    },
                    Err(e) => {
                        self.stage = Stage::Failed;
                        Step::Aborted(e)
                    },
                }
            },
            (Stage::Embedding, Event::EmbedFailed(e)) => {
                self.stage = Stage::Failed;
                Step::Aborted(e)
            },
            (Stage::Listing, Event::Listed(names)) => {
                match collection_to_create(&names, self.collection.as_str()) {
                    None => self.start_upload(0),
                    Some(schema) => {
                        self.stage = Stage::Creating;
                        Step::CreateCollection(schema)
                    },
                }
            },
            (Stage::Listing, Event::BackendFailed(message)) => {
                self.stage = Stage::Failed;
                Step::Aborted(IngestError::Provision { message })
            },
            (Stage::Creating, Event::Created) => self.start_upload(0),
            (Stage::Creating, Event::BackendFailed(message)) => {
                self.stage = Stage::Failed;
                Step::Aborted(IngestError::Provision { message })
            },
            (Stage::Uploading, Event::Upserted) => {
                let count = self.batches.len();
                assert(self.next_batch < count);
                self.start_upload(self.next_batch + 1)
            },
            (Stage::Uploading, Event::BackendFailed(message)) => {
                let (start, end) = self.batches[self.next_batch];
                self.stage = Stage::Failed;
                Step::Aborted(IngestError::Upload { message, start, end })
            },
            _ => Step::Ignored,
        }
    }
}

} // verus!
