//! The union of messages that update a client or report misbehaviour.

use vstd::prelude::*;
use crate::header::{Header, HeaderView, TendermintHeader, TendermintHeaderView};

verus! {

/// Mathematical model of [`Misbehaviour`].
pub ghost struct MisbehaviourView {
    pub client_id: Seq<u8>,
    pub header1: TendermintHeaderView,
    pub header2: TendermintHeaderView,
}

/// Evidence of misbehaviour on the tracked chain: two conflicting consensus
/// headers attributable to the same trusted validator sets.
#[derive(Clone, Debug, PartialEq, Eq)]
pub struct Misbehaviour {
    /// Identifier of the client the evidence is submitted against.
    pub client_id: Vec<u8>,
    /// The first conflicting header.
    pub header1: TendermintHeader,
    /// The second conflicting header.
    pub header2: TendermintHeader,
}

impl View for Misbehaviour {
    type V = MisbehaviourView;

    open spec fn view(&self) -> MisbehaviourView {
        MisbehaviourView {
            client_id: self.client_id@,
            header1: self.header1@,
            header2: self.header2@,
        }
    }
}

/// Mathematical model of [`ClientMessage`].
pub ghost enum ClientMessageView {
    Header(HeaderView),
    Misbehaviour(MisbehaviourView),
}

/// The union of all messages that may be submitted to update the client or
/// to report misbehaviour, distinguished by type URL at decode time.
#[derive(Clone, Debug, PartialEq, Eq)]
pub enum ClientMessage {
    Header(Header),
    Misbehaviour(Misbehaviour),
}

impl View for ClientMessage {
    type V = ClientMessageView;

    open spec fn view(&self) -> ClientMessageView {
        match self {
            ClientMessage::Header(h) => ClientMessageView::Header(h@),
            ClientMessage::Misbehaviour(m) => ClientMessageView::Misbehaviour(m@),
        }
    }
}

} // verus!
