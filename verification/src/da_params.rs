//! Parameters identifying the companion data-availability light client.

use vstd::prelude::*;
use crate::bytes::clone_bytes;

verus! {

/// Mathematical model of [`DaParams`].
pub ghost struct DaParamsView {
    pub client_id: Seq<u8>,
    pub fraud_period_window: u64,
}

/// Identifies the companion light client used to verify data-availability
/// inclusion, and the window (in blocks) during which a block may still be
/// disputed.
#[derive(Clone, Debug, PartialEq, Eq)]
pub struct DaParams {
    /// Identifier of the DA light client on the host chain.
    pub client_id: Vec<u8>,
    /// Number of blocks during which a block may still be disputed.
    pub fraud_period_window: u64,
}

impl View for DaParams {
    type V = DaParamsView;

    open spec fn view(&self) -> DaParamsView {
        DaParamsView { client_id: self.client_id@, fraud_period_window: self.fraud_period_window }
    }
}

impl DaParams {
    pub fn new(client_id: Vec<u8>, fraud_period_window: u64) -> (r: DaParams)
        ensures
            r@.client_id == client_id@,
            r@.fraud_period_window == fraud_period_window,
    {
        DaParams { client_id, fraud_period_window }
    }

    /// Copies the parameters; the copy models the same values.
    pub fn clone_value(&self) -> (r: DaParams)
        ensures
            r@ == self@,
    {
        DaParams {
            client_id: clone_bytes(&self.client_id),
            fraud_period_window: self.fraud_period_window,
        }
    }
}

} // verus!
