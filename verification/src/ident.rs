use vstd::prelude::*;

verus! {

/// The identity of a principal: a 256-bit public key, held as four 64-bit
/// words. Operations on a bot record are authorized by comparing the caller's
/// identity against the record's owner, so equality is the one operation the
/// logic needs; `Structural` makes executable `==` coincide with equality in
/// contracts.
#[derive(Clone, Copy, PartialEq, Eq, Structural, Debug)]
pub struct Identity {
    pub w0: u64,
    pub w1: u64,
    pub w2: u64,
    pub w3: u64,
}

impl Identity {
    /// Builds an identity from its four 64-bit words.
    pub fn from_words(w0: u64, w1: u64, w2: u64, w3: u64) -> (r: Identity)
        ensures
            r == (Identity { w0, w1, w2, w3 }),
    {
        Identity { w0, w1, w2, w3 }
    }
}

} // verus!
