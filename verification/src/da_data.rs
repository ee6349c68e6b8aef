//! Data-availability evidence carried by a header.

use vstd::prelude::*;
use crate::bytes::clone_bytes;

verus! {

/// Mathematical model of [`DaData`].
pub ghost struct DaDataView {
    pub shared_proof: Seq<u8>,
}

/// An inclusion proof that the block data committed to by a header was
/// actually published on the data-availability layer.
#[derive(Clone, Debug, PartialEq, Eq)]
pub struct DaData {
    /// Opaque proof bytes checked against the companion DA light client.
    pub shared_proof: Vec<u8>,
}

impl View for DaData {
    type V = DaDataView;

    open spec fn view(&self) -> DaDataView {
        DaDataView { shared_proof: self.shared_proof@ }
    }
}

impl DaData {
    pub fn new(shared_proof: Vec<u8>) -> (r: DaData)
        ensures
            r@.shared_proof == shared_proof@,
    {
        DaData { shared_proof }
    }

    /// Copies the evidence; the copy models the same proof bytes.
    pub fn clone_value(&self) -> (r: DaData)
        ensures
            r@ == self@,
    {
        DaData { shared_proof: clone_bytes(&self.shared_proof) }
    }
}

} // verus!
