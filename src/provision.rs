use vstd::prelude::*;
use vstd::string::*;

use crate::embed::EMBEDDING_DIM;

verus! {

/// Dimensionality of each token vector in the collection.
pub const VECTOR_SIZE: u64 = 128;

/// The collection is declared with the dimensionality the embedding backend
/// returns.
pub proof fn lemma_dimensions_agree()
    ensures
        VECTOR_SIZE == EMBEDDING_DIM as u64,
{
}

/// Distance metric between two vectors.
#[derive(Clone, Copy, Debug, PartialEq, Eq)]
pub enum Distance {
    Cosine,
}

/// How two multi-vector points are compared.
#[derive(Clone, Copy, Debug, PartialEq, Eq)]
pub enum Comparator {
    /// The largest similarity over all pairs of vectors of the two points.
    MaxSim,
}

/// The creation request of a collection.
#[derive(Debug)]
pub struct CollectionSchema {
    pub name: String,
    pub vector_size: u64,
    pub distance: Distance,
    pub comparator: Comparator,
}

pub open spec fn names_view(v: Seq<String>) -> Seq<Seq<char>> {
    v.map_values(|s: String| s@)
}

/// The collection names the backend lists once provisioning of `name` is done:
/// unchanged when `name` was listed, else with `name` added.
pub open spec fn after_provision(names: Seq<Seq<char>>, name: Seq<char>) -> Seq<Seq<char>> {
    if names.contains(name) {
        names
    } else {
        names.push(name)
    }
}

/// Number of creation requests that provisioning of `name` issues when the
/// backend lists `names`.
pub open spec fn creations(names: Seq<Seq<char>>, name: Seq<char>) -> nat {
    if names.contains(name) {
        0
    } else {
        1
    }
}

/// Whether `name` is among the listed collections.
pub fn collection_exists(existing: &Vec<String>, name: &str) -> (r: bool)
    ensures
        r == names_view(existing@).contains(name@),
{
    let key = String::from_str(name);
    let mut i: usize = 0;
    while i < existing.len()
        invariant
            i <= existing@.len(),
            key@ == name@,
            forall|j: int| 0 <= j < i ==> existing@[j]@ != name@,
        decreases existing@.len() - i,
    {
        if existing[i] == key {
            assert(names_view(existing@)[i as int] == name@);
            return true;
        }
        i += 1;
    }
    assert(!names_view(existing@).contains(name@)) by {
        if names_view(existing@).contains(name@) {
            let j = choose|j: int| 0 <= j < existing@.len() && names_view(existing@)[j] == name@;
            assert(existing@[j]@ == name@);
        }
    }
    false
}

/// The creation request for `name` given the listed collections: none when it
/// is already listed (its schema is not inspected); else vectors of
/// `VECTOR_SIZE`, cosine distance and max-similarity multi-vectors.
pub fn collection_to_create(existing: &Vec<String>, name: &str) -> (r: Option<CollectionSchema>)
    ensures
        r is None <==> names_view(existing@).contains(name@),
        r is Some <==> creations(names_view(existing@), name@) == 1,
        r matches Some(c) ==> c.name@ == name@ && c.vector_size == VECTOR_SIZE && c.vector_size
            == EMBEDDING_DIM as u64 && c.distance
            == Distance::Cosine && c.comparator == Comparator::MaxSim,
{
    if collection_exists(existing, name) {
        None
    } else {
        Some(
            CollectionSchema {
                name: String::from_str(name),
                vector_size: VECTOR_SIZE,
                distance: Distance::Cosine,
                comparator: Comparator::MaxSim,
            },
        )
    }
}

/// Provisioning is idempotent: provisioning `name` twice issues exactly one
/// creation when the collection was not listed, none when it was, and the
/// second provisioning is always a no-op.
pub proof fn lemma_provision_idempotent(names: Seq<Seq<char>>, name: Seq<char>)
    ensures
        creations(after_provision(names, name), name) == 0,
        after_provision(after_provision(names, name), name) == after_provision(names, name),
        creations(names, name) + creations(after_provision(names, name), name) == if names.contains(
            name,
        ) {
            0nat
        } else {
            1nat
        },
{
    if !names.contains(name) {
        assert(names.push(name)[names.len() as int] == name);
        assert(names.push(name).contains(name));
    }
}

} // verus!
