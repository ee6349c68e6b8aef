//! The client state of the Rollkit light client: the trusted Tendermint
//! consensus parameters together with the data-availability parameters.

use vstd::prelude::*;
use crate::bytes::{clone_bytes, clone_bytes_vec};
use crate::height::Height;
use crate::da_params::{DaParams, DaParamsView};

verus! {

/// Mathematical model of [`TendermintClientParams`].
pub ghost struct TendermintClientParamsView {
    pub chain_id: Seq<u8>,
    pub trust_level_numerator: u64,
    pub trust_level_denominator: u64,
    pub trusting_period: u64,
    pub unbonding_period: u64,
    pub max_clock_drift: u64,
    pub frozen_height: Option<Height>,
    pub latest_height: Height,
    pub upgrade_path: Seq<Seq<u8>>,
}

/// The Tendermint consensus parameters the client trusts: trust level,
/// trusting/unbonding/clock-drift periods, the frozen and latest heights,
/// the chain identifier and the upgrade path.
#[derive(Clone, Debug, PartialEq, Eq)]
pub struct TendermintClientParams {
    /// Identifier of the tracked chain.
    pub chain_id: Vec<u8>,
    /// Numerator of the fraction of validator voting power that must sign.
    pub trust_level_numerator: u64,
    /// Denominator of that fraction.
    pub trust_level_denominator: u64,
    /// How long a consensus state stays trusted, in nanoseconds.
    pub trusting_period: u64,
    /// The tracked chain's unbonding period, in nanoseconds.
    pub unbonding_period: u64,
    /// Tolerated clock skew between chains, in nanoseconds.
    pub max_clock_drift: u64,
    /// Set once misbehaviour is proven; halts further updates.
    pub frozen_height: Option<Height>,
    /// The highest height the client has trusted so far.
    pub latest_height: Height,
    /// Store-key prefix under which the tracked chain commits upgrades.
    pub upgrade_path: Vec<Vec<u8>>,
}

impl View for TendermintClientParams {
    type V = TendermintClientParamsView;

    open spec fn view(&self) -> TendermintClientParamsView {
        TendermintClientParamsView {
            chain_id: self.chain_id@,
            trust_level_numerator: self.trust_level_numerator,
            trust_level_denominator: self.trust_level_denominator,
            trusting_period: self.trusting_period,
            unbonding_period: self.unbonding_period,
            max_clock_drift: self.max_clock_drift,
            frozen_height: self.frozen_height,
            latest_height: self.latest_height,
            upgrade_path: self.upgrade_path.deep_view(),
        }
    }
}

impl TendermintClientParams {
    /// Copies the parameters; the copy models the same values.
    pub fn clone_value(&self) -> (r: TendermintClientParams)
        ensures
            r@ == self@,
    {
        TendermintClientParams {
            chain_id: clone_bytes(&self.chain_id),
            trust_level_numerator: self.trust_level_numerator,
            trust_level_denominator: self.trust_level_denominator,
            trusting_period: self.trusting_period,
            unbonding_period: self.unbonding_period,
            max_clock_drift: self.max_clock_drift,
            frozen_height: self.frozen_height,
            latest_height: self.latest_height,
            upgrade_path: clone_bytes_vec(&self.upgrade_path),
        }
    }
}

/// Mathematical model of [`ClientState`].
pub ghost struct ClientStateView {
    pub tendermint_client_state: TendermintClientParamsView,
    pub da_params: DaParamsView,
}

impl ClientStateView {
    /// The frozen height recorded on the client, if any.
    pub open spec fn frozen_height(self) -> Option<Height> {
        self.tendermint_client_state.frozen_height
    }

    /// Whether the client has been frozen by proven misbehaviour.
    pub open spec fn is_frozen(self) -> bool {
        self.tendermint_client_state.frozen_height is Some
    }

    /// The highest height the client has trusted so far.
    pub open spec fn latest_height(self) -> Height {
        self.tendermint_client_state.latest_height
    }
}

/// The client state for Rollkit rollups: Tendermint consensus parameters
/// plus the parameters of the companion data-availability client.
#[derive(Clone, Debug, PartialEq, Eq)]
pub struct ClientState {
    /// The trusted Tendermint consensus parameters.
    pub tendermint_client_state: TendermintClientParams,
    /// The data-availability companion-client parameters.
    pub da_params: DaParams,
}

impl View for ClientState {
    type V = ClientStateView;

    open spec fn view(&self) -> ClientStateView {
        ClientStateView {
            tendermint_client_state: self.tendermint_client_state@,
            da_params: self.da_params@,
        }
    }
}

impl ClientState {
    pub fn new(tendermint_client_state: TendermintClientParams, da_params: DaParams) -> (r:
        ClientState)
        ensures
            r@.tendermint_client_state == tendermint_client_state@,
            r@.da_params == da_params@,
    {
        ClientState { tendermint_client_state, da_params }
    }

    /// Copies the client state; the copy models the same state.
    pub fn clone_value(&self) -> (r: ClientState)
        ensures
            r@ == self@,
    {
        ClientState {
            tendermint_client_state: self.tendermint_client_state.clone_value(),
            da_params: self.da_params.clone_value(),
        }
    }

    /// Identifier of the companion data-availability light client.
    pub fn da_client_id(&self) -> (r: &Vec<u8>)
        ensures
            r@ == self@.da_params.client_id,
    {
        &self.da_params.client_id
    }

    /// The dispute window of the data-availability layer, in blocks.
    pub fn da_fraud_period_window(&self) -> (r: u64)
        ensures
            r == self@.da_params.fraud_period_window,
    {
        self.da_params.fraud_period_window
    }

    /// The client-type identifier of this light client.
    pub fn client_type(&self) -> (r: Vec<u8>)
        ensures
            r@ == crate::client_type::spec_rollkit_client_type(),
    {
        crate::client_type::rollkit_client_type()
    }

    /// The highest height the client has trusted so far.
    pub fn latest_height(&self) -> (r: Height)
        ensures
            r == self@.latest_height(),
    {
        self.tendermint_client_state.latest_height
    }

    /// Whether the client has been frozen by proven misbehaviour.
    pub fn is_frozen(&self) -> (r: bool)
        ensures
            r == self@.is_frozen(),
    {
        self.tendermint_client_state.frozen_height.is_some()
    }

    /// A copy of this client state with `frozen_height` set to `h`; a
    /// functional update, the receiver is consumed and nothing is mutated
    /// in place.
    pub fn with_frozen_height(self, h: Height) -> (r: ClientState)
        ensures
            r@.tendermint_client_state == (TendermintClientParamsView {
                frozen_height: Some(h),
                ..self@.tendermint_client_state
            }),
            r@.da_params == self@.da_params,
    {
        let mut tendermint_client_state = self.tendermint_client_state;
        tendermint_client_state.frozen_height = Some(h);
        ClientState { tendermint_client_state, da_params: self.da_params }
    }
}

} // verus!
