//! What holds of the store under every sequence of operations.

use crate::batch::BatchView;
use crate::chain::{entered, ChainView, DocumentView};
use vstd::prelude::*;

verus! {

/// One change to a store: minting a batch under an identifier, or recalling
/// an identifier.
pub enum Operation {
    Mint {
        id: u128,
        name: Seq<char>,
        manufacturer: Seq<char>,
        batch_number: Seq<char>,
        expiry_date: Seq<char>,
    },
    Recall { id: u128 },
}

impl Operation {
    /// The store after this operation.
    pub open spec fn apply(self, chain: ChainView) -> ChainView {
        match self {
            Operation::Mint { id, name, manufacturer, batch_number, expiry_date } => chain.mint(
                id,
                name,
                manufacturer,
                batch_number,
                expiry_date,
            ),
            Operation::Recall { id } => chain.recall(id),
        }
    }
}

/// The store after the operations `ops`, applied to `chain` in order.
pub open spec fn run(chain: ChainView, ops: Seq<Operation>) -> ChainView
    decreases ops.len(),
{
    if ops.len() == 0 {
        chain
    } else {
        ops.last().apply(run(chain, ops.drop_last()))
    }
}

/// Every mint among `ops` draws an identifier under which the store, as it
/// is at that moment, holds no record.
pub open spec fn mints_are_fresh(chain: ChainView, ops: Seq<Operation>) -> bool {
    forall|i: int|
        0 <= i < ops.len() ==> (#[trigger] ops[i] matches Operation::Mint { id, .. } ==> !run(
            chain,
            ops.take(i),
        ).batches.contains_key(id))
}

/// No mint among `ops` draws an identifier that is, at that moment, in the
/// recalled set.
pub open spec fn mints_avoid_recalled(chain: ChainView, ops: Seq<Operation>) -> bool {
    forall|i: int|
        0 <= i < ops.len() ==> (#[trigger] ops[i] matches Operation::Mint { id, .. } ==> !run(
            chain,
            ops.take(i),
        ).is_recalled(id))
}

/// How many of `ops` are mints.
pub open spec fn mint_count(ops: Seq<Operation>) -> nat
    decreases ops.len(),
{
    if ops.len() == 0 {
        0
    } else if ops.last() is Mint {
        mint_count(ops.drop_last()) + 1
    } else {
        mint_count(ops.drop_last())
    }
}

/// Reading back a document that depicts a store gives that store: the same
/// records under the same identifiers, and the same recalled set.
pub proof fn lemma_document_round_trip(doc: DocumentView, chain: ChainView)
    requires
        doc.depicts(chain),
    ensures
        doc.store() == chain,
{
    lemma_entered_distinct(doc.batches);
    assert(doc.store().batches =~= chain.batches);
}

/// Entering entries with pairwise distinct identifiers gives a map with
/// exactly those identifiers, each with its own record.
pub proof fn lemma_entered_distinct(entries: Seq<(u128, BatchView)>)
    requires
        forall|i: int, j: int|
            0 <= i < j < entries.len() ==> (#[trigger] entries[i]).0 != (#[trigger] entries[j]).0,
    ensures
        forall|i: int|
            0 <= i < entries.len() ==> entered(entries).contains_key((#[trigger] entries[i]).0)
                && entered(entries)[entries[i].0] == entries[i].1,
        forall|id: u128| #[trigger]
            entered(entries).contains_key(id) ==> exists|i: int|
                0 <= i < entries.len() && (#[trigger] entries[i]).0 == id,
    decreases entries.len(),
{
    if entries.len() > 0 {
        let front = entries.drop_last();
        lemma_entered_distinct(front);
        assert forall|i: int| 0 <= i < entries.len() implies entered(entries).contains_key(
            (#[trigger] entries[i]).0,
        ) && entered(entries)[entries[i].0] == entries[i].1 by {
            if i < entries.len() - 1 {
                assert(front[i] == entries[i]);
            }
        }
        assert forall|id: u128| #[trigger] entered(entries).contains_key(id) implies exists|i: int|
            0 <= i < entries.len() && (#[trigger] entries[i]).0 == id by {
            if id == entries.last().0 {
                assert(entries[entries.len() - 1].0 == id);
            } else {
                assert(entered(front).contains_key(id));
                let i = choose|i: int| 0 <= i < front.len() && (#[trigger] front[i]).0 == id;
                assert(front[i] == entries[i]);
            }
        }
    }
}

/// Recalling an identifier a second time changes nothing: after the first
/// recall the record is flagged and the identifier is in the recalled set,
/// and the second recall leaves records and recalled set as they are.
pub proof fn lemma_recall_idempotent(chain: ChainView, id: u128)
    ensures
        chain.recall(id).recall(id) == chain.recall(id),
        chain.batches.contains_key(id) ==> chain.recall(id).batches[id].recalled
            && chain.recall(id).is_recalled(id),
{
    let once = chain.recall(id);
    let twice = once.recall(id);
    assert(twice.batches =~= once.batches);
    assert(twice.recalls =~= once.recalls);
}

/// Recalling an identifier under which no record stands leaves the store as
/// it is.
pub proof fn lemma_recall_unknown(chain: ChainView, id: u128)
    requires
        !chain.batches.contains_key(id),
    ensures
        chain.recall(id) == chain,
{
}

/// In a consistent store the recalled set and the record's flag say the same
/// of every identifier in the store.
pub proof fn lemma_recalled_is_flag(chain: ChainView, id: u128)
    requires
        chain.consistent(),
        chain.batches.contains_key(id),
    ensures
        chain.is_recalled(id) == chain.batches[id].recalled,
{
}

/// A recall keeps a consistent store consistent.
pub proof fn lemma_recall_consistent(chain: ChainView, id: u128)
    requires
        chain.consistent(),
    ensures
        chain.recall(id).consistent(),
{
    let after = chain.recall(id);
    assert forall|other: u128|
        after.recalls.contains(other) <==> (#[trigger] after.batches.contains_key(other)
            && after.batches[other].recalled) by {
        assert(chain.recalls.contains(other) <==> (chain.batches.contains_key(other)
            && chain.batches[other].recalled));
    }
}

/// A mint keeps a consistent store consistent, as long as the identifier it
/// draws has not been recalled.
pub proof fn lemma_mint_consistent(
    chain: ChainView,
    id: u128,
    name: Seq<char>,
    manufacturer: Seq<char>,
    batch_number: Seq<char>,
    expiry_date: Seq<char>,
)
    requires
        chain.consistent(),
        !chain.is_recalled(id),
    ensures
        chain.mint(id, name, manufacturer, batch_number, expiry_date).consistent(),
{
    let after = chain.mint(id, name, manufacturer, batch_number, expiry_date);
    assert forall|other: u128|
        after.recalls.contains(other) <==> (#[trigger] after.batches.contains_key(other)
            && after.batches[other].recalled) by {
        assert(chain.recalls.contains(other) <==> (chain.batches.contains_key(other)
            && chain.batches[other].recalled));
    }
}

/// No operation removes a record: what stands in the store stays in it.
pub proof fn lemma_run_keeps_records(chain: ChainView, ops: Seq<Operation>, id: u128)
    requires
        chain.batches.contains_key(id),
    ensures
        run(chain, ops).batches.contains_key(id),
    decreases ops.len(),
{
    if ops.len() > 0 {
        lemma_run_keeps_records(chain, ops.drop_last(), id);
    }
}

/// After any sequence of mints and recalls on a consistent store, the store
/// is consistent: for every identifier in it, being in the recalled set and
/// the record's flag agree. Left out are the sequences in which a mint draws
/// an identifier that has been recalled: the new record is unflagged while
/// the identifier stays in the recalled set.
pub proof fn lemma_run_consistent(chain: ChainView, ops: Seq<Operation>)
    requires
        chain.consistent(),
        mints_avoid_recalled(chain, ops),
    ensures
        run(chain, ops).consistent(),
        forall|id: u128| #[trigger]
            run(chain, ops).batches.contains_key(id) ==> run(chain, ops).is_recalled(id) == run(
                chain,
                ops,
            ).batches[id].recalled,
    decreases ops.len(),
{
    if ops.len() > 0 {
        let front = ops.drop_last();
        let before = run(chain, front);
        assert forall|i: int| 0 <= i < front.len() implies (#[trigger] front[i] matches Operation::Mint {
            id,
            ..
        } ==> !run(chain, front.take(i)).is_recalled(id)) by {
            assert(front.take(i) == ops.take(i));
        }
        lemma_run_consistent(chain, front);
        match ops.last() {
            Operation::Mint { id, name, manufacturer, batch_number, expiry_date } => {
                lemma_mint_consistent(before, id, name, manufacturer, batch_number, expiry_date);
            },
            Operation::Recall { id } => {
                lemma_recall_consistent(before, id);
            },
        }
    }
}

/// Mints that each draw an identifier not yet in the store draw pairwise
/// different identifiers.
pub proof fn lemma_fresh_mints_differ(chain: ChainView, ops: Seq<Operation>, i: int, j: int)
    requires
        mints_are_fresh(chain, ops),
        0 <= i < j < ops.len(),
        ops[i] is Mint,
        ops[j] is Mint,
    ensures
        ops[i]->Mint_id != ops[j]->Mint_id,
{
    let id = ops[i]->Mint_id;
    let upto = ops.take(i + 1);
    let rest = ops.subrange(i + 1, j);
    lemma_run_splits(chain, upto, rest);
    assert(upto + rest == ops.take(j));
    lemma_run_keeps_records(run(chain, upto), rest, id);
}

/// Running two sequences one after the other is running their concatenation.
pub proof fn lemma_run_splits(chain: ChainView, first: Seq<Operation>, second: Seq<Operation>)
    ensures
        run(chain, first + second) == run(run(chain, first), second),
    decreases second.len(),
{
    if second.len() > 0 {
        lemma_run_splits(chain, first, second.drop_last());
        assert((first + second).drop_last() == first + second.drop_last());
    }
}

/// No operation takes an identifier out of the recalled set: a recall is
/// never undone.
pub proof fn lemma_run_keeps_recalls(chain: ChainView, ops: Seq<Operation>, id: u128)
    requires
        chain.is_recalled(id),
    ensures
        run(chain, ops).is_recalled(id),
    decreases ops.len(),
{
    if ops.len() > 0 {
        lemma_run_keeps_recalls(chain, ops.drop_last(), id);
    }
}

/// Mints that each draw an identifier not yet in the store add one record
/// each: after the sequence the store holds as many records more as there
/// were mints.
pub proof fn lemma_fresh_mints_add_records(chain: ChainView, ops: Seq<Operation>)
    requires
        chain.batches.dom().finite(),
        mints_are_fresh(chain, ops),
    ensures
        run(chain, ops).batches.dom().finite(),
        run(chain, ops).batches.dom().len() == chain.batches.dom().len() + mint_count(ops),
    decreases ops.len(),
{
    if ops.len() > 0 {
        let front = ops.drop_last();
        assert forall|i: int| 0 <= i < front.len() implies (#[trigger] front[i] matches Operation::Mint {
            id,
            ..
        } ==> !run(chain, front.take(i)).batches.contains_key(id)) by {
            assert(front.take(i) == ops.take(i));
        }
        lemma_fresh_mints_add_records(chain, front);
    }
}

} // verus!
