//! The record kept for one manufactured batch.

use vstd::prelude::*;

verus! {

/// What a batch record says, as mathematical values.
pub struct BatchView {
    pub id: u128,
    pub name: Seq<char>,
    pub manufacturer: Seq<char>,
    pub batch_number: Seq<char>,
    pub expiry_date: Seq<char>,
    pub recalled: bool,
}

impl BatchView {
    /// The record of a batch that has just been minted: the four texts as
    /// given, and not recalled.
    pub open spec fn minted(
        id: u128,
        name: Seq<char>,
        manufacturer: Seq<char>,
        batch_number: Seq<char>,
        expiry_date: Seq<char>,
    ) -> BatchView {
        BatchView { id, name, manufacturer, batch_number, expiry_date, recalled: false }
    }

    /// The same record, marked as recalled.
    pub open spec fn as_recalled(self) -> BatchView {
        BatchView { recalled: true, ..self }
    }
}

/// One manufactured lot of a drug product. The texts are kept as they were
/// given; nothing checks that the expiry date is a date.
#[derive(Debug)]
pub struct DrugBatch {
    pub id: u128,
    pub name: String,
    pub manufacturer: String,
    pub batch_number: String,
    pub expiry_date: String,
    pub recalled: bool,
}

impl View for DrugBatch {
    type V = BatchView;

    open spec fn view(&self) -> BatchView {
        BatchView {
            id: self.id,
            name: self.name@,
            manufacturer: self.manufacturer@,
            batch_number: self.batch_number@,
            expiry_date: self.expiry_date@,
            recalled: self.recalled,
        }
    }
}

impl Clone for DrugBatch {
    fn clone(&self) -> (copy: DrugBatch)
        ensures
            copy == *self,
    {
        DrugBatch {
            id: self.id,
            name: self.name.clone(),
            manufacturer: self.manufacturer.clone(),
            batch_number: self.batch_number.clone(),
            expiry_date: self.expiry_date.clone(),
            recalled: self.recalled,
        }
    }
}

impl DrugBatch {
    /// A record for a batch minted under `id`, not recalled.
    pub fn new(
        id: u128,
        name: &str,
        manufacturer: &str,
        batch_number: &str,
        expiry_date: &str,
    ) -> (batch: DrugBatch)
        ensures
            batch@ == BatchView::minted(id, name@, manufacturer@, batch_number@, expiry_date@),
    {
        DrugBatch {
            id,
            name: name.to_owned(),
            manufacturer: manufacturer.to_owned(),
            batch_number: batch_number.to_owned(),
            expiry_date: expiry_date.to_owned(),
            recalled: false,
        }
    }
}

} // verus!
