//! The batch store: every batch record by its identifier, and the set of
//! identifiers that have been recalled.

use crate::batch::{BatchView, DrugBatch};
use crate::ident::{is_random_id, random_uuid};
use crate::laws::lemma_document_round_trip;
use std::collections::{HashMap, HashSet};
use vstd::prelude::*;
use vstd::std_specs::iter::IteratorSpec;

verus! {

/// What a store holds, as mathematical values.
pub struct ChainView {
    pub batches: Map<u128, BatchView>,
    pub recalls: Set<u128>,
}

impl ChainView {
    /// The store with no batch and no recall.
    pub open spec fn empty() -> ChainView {
        ChainView { batches: Map::empty(), recalls: Set::empty() }
    }

    /// The record kept under `id`, if there is one.
    pub open spec fn verify(self, id: u128) -> Option<BatchView> {
        if self.batches.contains_key(id) {
            Some(self.batches[id])
        } else {
            None
        }
    }

    /// Whether `id` is in the recalled set. The record's own flag is not
    /// consulted.
    pub open spec fn is_recalled(self, id: u128) -> bool {
        self.recalls.contains(id)
    }

    /// The store after a batch was minted under `id`: the new record stands
    /// under `id`, whatever stood there before; the recalled set is untouched.
    pub open spec fn mint(
        self,
        id: u128,
        name: Seq<char>,
        manufacturer: Seq<char>,
        batch_number: Seq<char>,
        expiry_date: Seq<char>,
    ) -> ChainView {
        ChainView {
            batches: self.batches.insert(
                id,
                BatchView::minted(id, name, manufacturer, batch_number, expiry_date),
            ),
            recalls: self.recalls,
        }
    }

    /// The store after `id` was recalled: where a record stands under `id`, it
    /// is flagged and `id` joins the recalled set; where none does, nothing
    /// changes.
    pub open spec fn recall(self, id: u128) -> ChainView {
        if self.batches.contains_key(id) {
            ChainView {
                batches: self.batches.insert(id, self.batches[id].as_recalled()),
                recalls: self.recalls.insert(id),
            }
        } else {
            self
        }
    }

    /// The two records of a recall agree: an identifier is in the recalled set
    /// exactly when a record stands under it and that record is flagged.
    pub open spec fn consistent(self) -> bool {
        forall|id: u128|
            self.recalls.contains(id) <==> (#[trigger] self.batches.contains_key(id)
                && self.batches[id].recalled)
    }
}

/// The map that results from entering `entries` into an empty map one after
/// another: of two entries under one identifier the later one stays.
pub open spec fn entered(entries: Seq<(u128, BatchView)>) -> Map<u128, BatchView>
    decreases entries.len(),
{
    if entries.len() == 0 {
        Map::empty()
    } else {
        entered(entries.drop_last()).insert(entries.last().0, entries.last().1)
    }
}

/// What a document holds, as mathematical values.
pub struct DocumentView {
    pub batches: Seq<(u128, BatchView)>,
    pub recalls: Seq<u128>,
}

impl DocumentView {
    /// The store that reading the document gives.
    pub open spec fn store(self) -> ChainView {
        ChainView { batches: entered(self.batches), recalls: self.recalls.to_set() }
    }

    /// The document is a faithful copy of `chain`: each record of the store
    /// is listed once, under its identifier, and nothing else is; each
    /// recalled identifier is listed once, and nothing else is. The order of
    /// the two lists is left open.
    pub open spec fn depicts(self, chain: ChainView) -> bool {
        &&& forall|i: int|
            0 <= i < self.batches.len() ==> chain.batches.contains_key(
                (#[trigger] self.batches[i]).0,
            ) && chain.batches[self.batches[i].0] == self.batches[i].1
        &&& forall|id: u128| #[trigger]
            chain.batches.contains_key(id) ==> exists|i: int|
                0 <= i < self.batches.len() && (#[trigger] self.batches[i]).0 == id
        &&& forall|i: int, j: int|
            0 <= i < j < self.batches.len() ==> (#[trigger] self.batches[i]).0 != (
            #[trigger] self.batches[j]).0
        &&& self.recalls.no_duplicates()
        &&& self.recalls.to_set() == chain.recalls
    }
}

/// A store written out as plain values, as it is persisted: the records, each
/// with the identifier it stands under, and the recalled identifiers.
pub struct Document {
    pub batches: Vec<(u128, DrugBatch)>,
    pub recalls: Vec<u128>,
}

impl View for Document {
    type V = DocumentView;

    open spec fn view(&self) -> DocumentView {
        DocumentView {
            batches: self.batches@.map_values(|entry: (u128, DrugBatch)| (entry.0, entry.1@)),
            recalls: self.recalls@,
        }
    }
}

/// The batch store.
pub struct PharmaChain {
    batches: HashMap<u128, DrugBatch>,
    recalls: HashSet<u128>,
}

impl View for PharmaChain {
    type V = ChainView;

    closed spec fn view(&self) -> ChainView {
        ChainView {
            batches: self.batches@.map_values(|batch: DrugBatch| batch@),
            recalls: self.recalls@,
        }
    }
}

impl PharmaChain {
    /// A store holds finitely many records.
    pub proof fn lemma_finite(&self)
        ensures
            self@.batches.dom().finite(),
    {
        assert(self@.batches.dom() =~= self.batches@.dom());
    }

    /// A store that holds nothing.
    pub fn empty() -> (chain: PharmaChain)
        ensures
            chain@ == ChainView::empty(),
            chain@.consistent(),
    {
        let chain = PharmaChain { batches: HashMap::new(), recalls: HashSet::new() };
        assert(chain@.batches =~= Map::empty());
        chain
    }

    /// The store that a document describes. Entries are entered in order, so
    /// of two records under one identifier the later one stays. Nothing is
    /// checked: a document in which flags and recalled list disagree gives a
    /// store that is not consistent.
    pub fn from_document(doc: Document) -> (chain: PharmaChain)
        ensures
            chain@ == doc@.store(),
    {
        let mut chain = PharmaChain::empty();
        let ghost entries = doc@.batches;
        let ghost listed = doc@.recalls;
        let Document { batches, recalls } = doc;
        for entry in it: batches.into_iter()
            invariant
                it.seq().map_values(|e: (u128, DrugBatch)| (e.0, e.1@)) == entries,
                chain.batches@.map_values(|batch: DrugBatch| batch@) == entered(
                    entries.take(it.index()),
                ),
                chain.recalls@ == Set::<u128>::empty(),
        {
            let (id, batch) = entry;
            proof {
                let n = it.index();
                assert(entries.take(n + 1).drop_last() == entries.take(n));
            }
            chain.batches.insert(id, batch);
        }
        assert(entries.take(entries.len() as int) == entries);
        for id in it: recalls.into_iter()
            invariant
                it.seq() == listed,
                chain.batches@.map_values(|batch: DrugBatch| batch@) == entered(entries),
                chain.recalls@ == listed.take(it.index()).to_set(),
        {
            proof {
                let n = it.index();
                assert(listed.take(n + 1) == listed.take(n).push(id));
                listed.take(n).lemma_push_to_set_commute(id);
            }
            chain.recalls.insert(id);
        }
        assert(listed.take(listed.len() as int) == listed);
        chain
    }

    /// The store at start-up: what the persisted document describes, or an
    /// empty store where no document could be had.
    pub fn new(loaded: Option<Document>) -> (chain: PharmaChain)
        ensures
            chain@ == match loaded {
                Some(doc) => doc@.store(),
                None => ChainView::empty(),
            },
    {
        match loaded {
            Some(doc) => PharmaChain::from_document(doc),
            None => PharmaChain::empty(),
        }
    }

    /// The store written out as a document, for persisting. The order in
    /// which records and recalled identifiers are listed is not fixed.
    pub fn document(&self) -> (doc: Document)
        ensures
            doc@.depicts(self@),
            doc@.store() == self@,
    {
        let ghost walk = self.batches.iter().remaining();
        let mut batches: Vec<(u128, DrugBatch)> = Vec::new();
        for entry in it: self.batches.iter()
            invariant
                it.seq() == walk,
                walk.no_duplicates(),
                batches@.len() == it.index(),
                forall|i: int|
                    0 <= i < it.index() ==> (#[trigger] batches@[i]).0 == *walk[i].0
                        && batches@[i].1@ == (*walk[i].1)@,
        {
            let (id, batch) = entry;
            batches.push((*id, batch.clone()));
        }
        let ghost listed = self.recalls.iter().remaining();
        let mut recalls: Vec<u128> = Vec::new();
        for id in it: self.recalls.iter()
            invariant
                it.seq() == listed,
                listed.no_duplicates(),
                recalls@.len() == it.index(),
                forall|i: int| 0 <= i < it.index() ==> #[trigger] recalls@[i] == *listed[i],
        {
            recalls.push(*id);
        }
        let doc = Document { batches, recalls };
        proof {
            let records = self.batches@;
            assert(doc@.recalls =~= listed.unref());
            assert forall|id: u128| #[trigger] self@.batches.contains_key(id) implies exists|i: int|
                0 <= i < doc@.batches.len() && (#[trigger] doc@.batches[i]).0 == id by {
                assert(walk.contains((&id, &records[id])));
                let i = choose|i: int| 0 <= i < walk.len() && walk[i] == (&id, &records[id]);
                assert(doc@.batches[i].0 == id);
            }
            assert forall|i: int, j: int| 0 <= i < j < doc@.batches.len() implies (
            #[trigger] doc@.batches[i]).0 != (#[trigger] doc@.batches[j]).0 by {
                assert(records[*walk[i].0] == *walk[i].1 && records[*walk[j].0] == *walk[j].1);
                assert(walk[i] != walk[j]);
            }
            lemma_document_round_trip(doc@, self@);
        }
        doc
    }

    /// Puts a new, unrecalled record under `id`. A record that already stood
    /// under `id` is replaced. The recalled set is left as it is, so the store
    /// stays consistent as long as `id` had not been recalled.
    pub fn insert_batch(
        &mut self,
        id: u128,
        name: &str,
        manufacturer: &str,
        batch_number: &str,
        expiry_date: &str,
    )
        ensures
            final(self)@ == old(self)@.mint(id, name@, manufacturer@, batch_number@, expiry_date@),
            old(self)@.consistent() && !old(self)@.is_recalled(id) ==> final(self)@.consistent(),
    {
        let batch = DrugBatch::new(id, name, manufacturer, batch_number, expiry_date);
        self.batches.insert(id, batch);
        assert(self@.batches =~= old(self)@.mint(
            id,
            name@,
            manufacturer@,
            batch_number@,
            expiry_date@,
        ).batches);
    }

    /// Mints a batch: draws a random identifier, records the batch under it
    /// as not recalled, and returns the identifier. Whether the identifier was
    /// already in use is not checked.
    pub fn mint_batch(
        &mut self,
        name: &str,
        manufacturer: &str,
        batch_number: &str,
        expiry_date: &str,
    ) -> (id: u128)
        ensures
            is_random_id(id),
            final(self)@ == old(self)@.mint(id, name@, manufacturer@, batch_number@, expiry_date@),
            old(self)@.consistent() && !old(self)@.is_recalled(id) ==> final(self)@.consistent(),
    {
        let id = random_uuid();
        self.insert_batch(id, name, manufacturer, batch_number, expiry_date);
        id
    }

    /// Looks a batch up. Nothing changes.
    pub fn verify_batch(&self, id: u128) -> (found: Option<&DrugBatch>)
        ensures
            match found {
                Some(batch) => self@.verify(id) == Some(batch@),
                None => self@.verify(id) is None,
            },
    {
        self.batches.get(&id)
    }

    /// Recalls a batch. Returns whether a record stood under `id`; if none
    /// did, the store is left exactly as it was.
    pub fn recall_batch(&mut self, id: u128) -> (found: bool)
        ensures
            found == old(self)@.batches.contains_key(id),
            final(self)@ == old(self)@.recall(id),
            !found ==> final(self)@ == old(self)@,
            found ==> final(self)@.is_recalled(id) && final(self)@.batches[id].recalled,
            old(self)@.consistent() ==> final(self)@.consistent(),
    {
        match self.batches.remove(&id) {
            Some(mut batch) => {
                batch.recalled = true;
                self.batches.insert(id, batch);
                self.recalls.insert(id);
                assert(self@.batches =~= old(self)@.recall(id).batches);
                true
            },
            None => {
                assert(self@.batches =~= old(self)@.batches);
                false
            },
        }
    }

    /// Whether `id` is in the recalled set.
    pub fn is_recalled(&self, id: u128) -> (recalled: bool)
        ensures
            recalled == self@.is_recalled(id),
    {
        self.recalls.contains(&id)
    }
}

} // verus!
