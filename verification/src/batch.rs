//! Groups of HTLC updates that travel together.
use vstd::prelude::*;
use crate::msgs::{UpdateAddHtlc, UpdateFulfillHtlc};

verus! {

/// HTLC updates: the offers in the order in which they were made, and the claims in theirs.
/// An offer and a claim have no order between them.
pub struct Batch {
    pub adds: Vec<UpdateAddHtlc>,
    pub fulfills: Vec<UpdateFulfillHtlc>,
}

/// The contents of a [`Batch`].
#[verifier::ext_equal]
pub struct BatchView {
    pub adds: Seq<UpdateAddHtlc>,
    pub fulfills: Seq<UpdateFulfillHtlc>,
}

impl BatchView {
    /// No updates.
    pub open spec fn empty() -> BatchView {
        BatchView { adds: Seq::empty(), fulfills: Seq::empty() }
    }

    /// Whether there are no updates.
    pub open spec fn is_empty(self) -> bool {
        self.adds.len() == 0 && self.fulfills.len() == 0
    }

    /// These updates, then the other ones.
    pub open spec fn then_all(self, later: BatchView) -> BatchView {
        BatchView { adds: self.adds + later.adds, fulfills: self.fulfills + later.fulfills }
    }

    /// These updates, then one more offer.
    pub open spec fn then_add(self, add: UpdateAddHtlc) -> BatchView {
        BatchView { adds: self.adds.push(add), ..self }
    }

    /// These updates, then one more claim.
    pub open spec fn then_fulfill(self, fulfill: UpdateFulfillHtlc) -> BatchView {
        BatchView { fulfills: self.fulfills.push(fulfill), ..self }
    }
}

impl View for Batch {
    type V = BatchView;

    open spec fn view(&self) -> BatchView {
        BatchView { adds: self.adds@, fulfills: self.fulfills@ }
    }
}

impl Batch {
    /// No updates.
    pub fn new() -> (batch: Self)
        ensures
            batch@ == BatchView::empty(),
    {
        Batch { adds: Vec::new(), fulfills: Vec::new() }
    }

    /// Whether there are no updates.
    pub fn is_empty(&self) -> (r: bool)
        ensures
            r == self@.is_empty(),
    {
        self.adds.len() == 0 && self.fulfills.len() == 0
    }

    /// Appends all updates of `later`, which is left empty.
    pub fn append(&mut self, later: &mut Batch)
        ensures
            final(self)@ == old(self)@.then_all(old(later)@),
            final(later)@ == BatchView::empty(),
    {
        self.adds.append(&mut later.adds);
        self.fulfills.append(&mut later.fulfills);
    }

    /// Takes all updates out.
    pub fn take(&mut self) -> (taken: Batch)
        ensures
            taken@ == old(self)@,
            final(self)@ == BatchView::empty(),
    {
        let mut taken = Batch::new();
        taken.append(self);
        taken
    }

    /// A copy of the updates.
    pub fn copy(&self) -> (batch: Batch)
        ensures
            batch@ == self@,
    {
        let adds = self.adds.clone();
        let fulfills = self.fulfills.clone();
        assert(adds@ =~= self.adds@);
        assert(fulfills@ =~= self.fulfills@);
        Batch { adds, fulfills }
    }
}

} // verus!
