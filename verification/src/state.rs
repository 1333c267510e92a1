use vstd::prelude::*;

verus! {

/// The serialized values included in the state.
#[derive(Debug, PartialEq, Eq)]
pub struct StateValues {
    /// The index of the leaf of the record in the ledger.
    pub leaf_index: u32,
    /// The root of the ledger, as bytes.
    pub root: Vec<u8>,
}

} // verus!
