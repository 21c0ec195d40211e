use vstd::prelude::*;
use crate::api::RdfStore;
use crate::classify::QuadModel;

verus! {

/// Law: count_triples right after clear_store answers 0. clear_store's
/// success leaves quads() empty, and a successful count_triples returns
/// quads().len().
pub proof fn lemma_cleared_store_counts_zero(s: RdfStore)
    requires
        s.quads() == Set::<QuadModel>::empty(),
    ensures
        s.quads().len() == 0,
{
}

/// Law: add_triple then contains_triple. When add_triple returned 0 for
/// texts classifying to a quad q the engine keeps verbatim, it left
/// quads() as the old set with q inserted; contains_triple on the same texts
/// then reports presence, that is, returns 1.
pub proof fn lemma_add_then_contains(before: RdfStore, after: RdfStore, q: QuadModel)
    requires
        after.quads() == before.quads().insert(q),
    ensures
        after.quads().contains(q),
{
}

/// Law: set semantics of insertion. A second add_triple success with the
/// same quad leaves count_triples unchanged: inserting q again changes
/// neither the set nor its size.
pub proof fn lemma_second_insert_keeps_count(
    first: RdfStore,
    second: RdfStore,
    third: RdfStore,
    q: QuadModel,
)
    requires
        first.wf(),
        second.quads() == first.quads().insert(q),
        third.quads() == second.quads().insert(q),
    ensures
        third.quads() == second.quads(),
        third.quads().len() == second.quads().len(),
{
    assert(first.quads().insert(q).insert(q) =~= first.quads().insert(q));
}

} // verus!
