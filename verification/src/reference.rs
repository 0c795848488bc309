//! Object identities: each object of the emitted document is addressed by a
//! unique positive integer, handed out by the document's allocator.

use vstd::prelude::*;

verus! {

/// A reference to one object of the document, by its allocated identity.
#[derive(Debug, Clone, Copy, PartialEq, Eq, Structural)]
pub struct Ref {
    pub id: u64,
}

impl Ref {
    pub fn new(id: u64) -> (r: Ref)
        ensures
            r.id == id,
    {
        Ref { id }
    }

    pub fn id(&self) -> (r: u64)
        ensures
            r == self.id,
    {
        self.id
    }
}

} // verus!
