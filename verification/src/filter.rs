//! The decision shared by the batch and the stream filter: ask the store
//! about an identity, and let everything through that the store did not
//! report as seen before.

use vstd::prelude::*;

use crate::db::SeenUriStore;
use crate::db::StoreError;

verus! {

/// What the filters found out about one item.
#[derive(Clone, Copy, Debug, PartialEq, Eq, Structural)]
pub enum Verdict {
    /// The item carries no identity; the store was not asked.
    NoIdentity,
    /// The store saw the identity for the first time.
    New,
    /// The store had seen the identity before.
    Duplicate,
    /// The store failed; the item is let through.
    StoreFailed,
}

impl Verdict {
    /// Whether an item with this verdict is let through: every item is,
    /// except a duplicate.
    pub open spec fn spec_keep(self) -> bool {
        !(self is Duplicate)
    }

    /// Whether an item with this verdict is let through.
    pub fn keep(&self) -> (r: bool)
        ensures
            r == self.spec_keep(),
    {
        match self {
            Verdict::Duplicate => false,
            _ => true,
        }
    }
}

/// The verdict on an item whose identity the store was asked about.
pub open spec fn spec_verdict(outcome: Result<bool, StoreError>) -> Verdict {
    match outcome {
        Ok(true) => Verdict::Duplicate,
        Ok(false) => Verdict::New,
        Err(_) => Verdict::StoreFailed,
    }
}

/// Turns the store's answer into a verdict.
pub fn verdict_of(outcome: &Result<bool, StoreError>) -> (r: Verdict)
    ensures
        r == spec_verdict(*outcome),
{
    match outcome {
        Ok(true) => Verdict::Duplicate,
        Ok(false) => Verdict::New,
        Err(_) => Verdict::StoreFailed,
    }
}

/// Decides on one item. An item without identity is never put to the store;
/// one with an identity is checked and marked in one step, and the verdict
/// is what `spec_verdict` makes of the store's answer.
pub fn classify(store: &SeenUriStore, identity: Option<&str>) -> (r: Verdict)
    ensures
        r is NoIdentity <==> identity is None,
        identity is Some ==> exists|outcome: Result<bool, StoreError>|
            r == #[trigger] spec_verdict(outcome),
{
    match identity {
        None => Verdict::NoIdentity,
        Some(uri) => {
            let outcome = store.check_and_mark(uri);
            let verdict = verdict_of(&outcome);
            assert(verdict == spec_verdict(outcome));
            verdict
        },
    }
}

} // verus!
