//! Identities of the parties that take part in a stream.
//!
//! The ledger never interprets an identity: it only stores it and compares it
//! with the identity of whoever makes a request.

use vstd::prelude::*;
use vstd::slice::slice_to_vec;
use vstd::std_specs::cmp::PartialEqSpecImpl;

verus! {

/// An authenticated party, held as the raw bytes that the host platform uses
/// to name it. Two identities are the same party exactly when their bytes agree.
#[derive(Debug)]
pub struct Identity {
    bytes: Vec<u8>,
}

impl View for Identity {
    type V = Seq<u8>;

    closed spec fn view(&self) -> Seq<u8> {
        self.bytes@
    }
}

impl Identity {
    /// Wraps the bytes that name a party.
    pub fn new(bytes: Vec<u8>) -> (who: Identity)
        ensures
            who@ == bytes@,
    {
        Identity { bytes }
    }

    /// Copies the bytes that name a party out of a borrowed slice.
    pub fn from_slice(bytes: &[u8]) -> (who: Identity)
        ensures
            who@ == bytes@,
    {
        Identity { bytes: slice_to_vec(bytes) }
    }

    /// The bytes that name this party.
    pub fn as_slice(&self) -> (bytes: &[u8])
        ensures
            bytes@ == self@,
    {
        self.bytes.as_slice()
    }
}

impl Clone for Identity {
    fn clone(&self) -> (copy: Identity)
        ensures
            copy@ == self@,
    {
        let bytes = self.bytes.clone();
        Identity { bytes }
    }
}

impl PartialEq for Identity {
    fn eq(&self, other: &Identity) -> (same: bool) {
        let same = self.bytes == other.bytes;
        proof {
            if same {
                assert(self.bytes@ =~= other.bytes@);
            }
        }
        same
    }
}

impl Eq for Identity {}

impl PartialEqSpecImpl for Identity {
    open spec fn obeys_eq_spec() -> bool {
        true
    }

    open spec fn eq_spec(&self, other: &Identity) -> bool {
        self@ == other@
    }
}

} // verus!
