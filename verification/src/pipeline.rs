//! The publish pipeline as a transition function.
//!
//! A request starts at [`Stage::Gated`]. Each stage but the last three waits
//! for one answer: `Gated` for the request itself, `Resolving` for the store,
//! `Verifying` for the history index, `Sending` for the transport. [`awaited`]
//! tells the caller whom to ask and what; the caller hands the answer to
//! [`reduce_publish`], which gives the next stage. There is one pass and one
//! attempt: no stage leads back.
use vstd::prelude::*;
use crate::message::{build_message, message_for, MessageView, PublishMessage};
use crate::resolver::{entry_from_cas, fetched_view, resolution, Fetched, FetchedView};
use crate::state::{NetworkState, NetworkStateView, NodeIdentity, NodeIdentityView};
use crate::types::{
    AnchorProof, ContentAddress, ErrorDetail, ErrorDetailView, Outcome, OutcomeView,
    PublishRequest, Record, RecordView, TransportError,
};

verus! {

/// Why a request left the pipeline without an outcome.
#[derive(Clone, Debug, PartialEq, Eq)]
pub enum DropReason {
    /// The node holds no transport session, or lacks an identity.
    NotReady,
    /// The store failed, or holds nothing at the address.
    Unresolved(ErrorDetail),
    /// The record is not in the node's own history.
    NoLocalAnchor,
}

/// What a [`DropReason`] is to a contract.
pub enum DropReasonView {
    NotReady,
    Unresolved(ErrorDetailView),
    NoLocalAnchor,
}

impl View for DropReason {
    type V = DropReasonView;

    open spec fn view(&self) -> DropReasonView {
        match self {
            DropReason::NotReady => DropReasonView::NotReady,
            DropReason::Unresolved(detail) => DropReasonView::Unresolved(detail@),
            DropReason::NoLocalAnchor => DropReasonView::NoLocalAnchor,
        }
    }
}

/// Where a request stands, with what it has gathered so far.
#[derive(Debug, PartialEq)]
pub enum Stage {
    /// Not yet past the dispatch gate.
    Gated,
    /// Waiting for the store to answer for the request's address.
    Resolving { identity: NodeIdentity },
    /// Waiting for the history index to answer for `record`.
    Verifying { identity: NodeIdentity, record: Record },
    /// Waiting for the transport to answer for `message`.
    Sending { record: Record, message: PublishMessage },
    /// The outcome is in the table.
    Recorded,
    /// Left silently; the table is as it was.
    Dropped { reason: DropReason },
    /// The payload did not read as a document. This breaks an invariant of
    /// the data, and is fatal to the request; the table is as it was.
    Faulted,
}

/// What a [`Stage`] is to a contract.
pub enum StageView {
    Gated,
    Resolving { identity: NodeIdentityView },
    Verifying { identity: NodeIdentityView, record: RecordView },
    Sending { record: RecordView, message: MessageView },
    Recorded,
    Dropped { reason: DropReasonView },
    Faulted,
}

impl View for Stage {
    type V = StageView;

    open spec fn view(&self) -> StageView {
        match self {
            Stage::Gated => StageView::Gated,
            Stage::Resolving { identity } => StageView::Resolving { identity: identity@ },
            Stage::Verifying { identity, record } => StageView::Verifying {
                identity: identity@,
                record: record@,
            },
            Stage::Sending { record, message } => StageView::Sending {
                record: record@,
                message: message@,
            },
            Stage::Recorded => StageView::Recorded,
            Stage::Dropped { reason } => StageView::Dropped { reason: reason@ },
            Stage::Faulted => StageView::Faulted,
        }
    }
}

/// What the transport answers to a send: any acknowledgment, or a refusal.
pub type Sent = Result<(), TransportError>;

/// What a [`Sent`] is to a contract.
pub type SentView = Result<(), Seq<char>>;

/// The view of the transport's answer.
pub open spec fn sent_view(sent: Sent) -> SentView {
    match sent {
        Ok(_) => Ok(()),
        Err(refusal) => Err(refusal@),
    }
}

/// What the history index answers to a lookup, as a contract reads it.
pub open spec fn anchored_view(anchored: Option<AnchorProof>) -> Option<Seq<char>> {
    match anchored {
        Some(proof) => Some(proof@),
        None => None,
    }
}

/// An answer that moves the pipeline on.
#[derive(Debug, PartialEq, Eq)]
pub enum Event {
    /// The request has come in.
    Requested,
    /// The store has answered.
    Fetched(Fetched),
    /// The history index has answered.
    Anchored(Option<AnchorProof>),
    /// The transport has answered.
    Sent(Sent),
}

/// What an [`Event`] is to a contract.
pub enum EventView {
    Requested,
    Fetched(FetchedView),
    Anchored(Option<Seq<char>>),
    Sent(SentView),
}

impl View for Event {
    type V = EventView;

    open spec fn view(&self) -> EventView {
        match self {
            Event::Requested => EventView::Requested,
            Event::Fetched(fetched) => EventView::Fetched(fetched_view(*fetched)),
            Event::Anchored(anchored) => EventView::Anchored(anchored_view(*anchored)),
            Event::Sent(sent) => EventView::Sent(sent_view(*sent)),
        }
    }
}

/// What a stage waits for: whom the caller is to ask, and what.
#[derive(Debug, PartialEq)]
pub enum Awaited<'a> {
    /// The request itself; nobody is asked.
    Request,
    /// What the store holds at the address.
    Store(&'a ContentAddress),
    /// The anchor proof that the history index has for the record.
    History(&'a Record),
    /// Whether the transport takes the message.
    Transport(&'a PublishMessage),
    /// Nothing: the request is finished.
    Nothing,
}

/// What an [`Awaited`] is to a contract.
pub enum AwaitedView {
    Request,
    Store(Seq<char>),
    History(RecordView),
    Transport(MessageView),
    Nothing,
}

impl<'a> View for Awaited<'a> {
    type V = AwaitedView;

    open spec fn view(&self) -> AwaitedView {
        match self {
            Awaited::Request => AwaitedView::Request,
            Awaited::Store(address) => AwaitedView::Store(address@),
            Awaited::History(record) => AwaitedView::History(record@),
            Awaited::Transport(message) => AwaitedView::Transport(message@),
            Awaited::Nothing => AwaitedView::Nothing,
        }
    }
}

/// What `stage` waits for, in the pipeline of a request for the record at
/// `address`.
pub open spec fn awaited_at(address: Seq<char>, stage: StageView) -> AwaitedView {
    match stage {
        StageView::Gated => AwaitedView::Request,
        StageView::Resolving { .. } => AwaitedView::Store(address),
        StageView::Verifying { record, .. } => AwaitedView::History(record),
        StageView::Sending { message, .. } => AwaitedView::Transport(message),
        _ => AwaitedView::Nothing,
    }
}

/// The outcome of a send of the record at `address`: the address where the
/// transport took the message, and its refusal as a generic failure where it
/// did not.
pub open spec fn outcome_for(address: Seq<char>, sent: SentView) -> OutcomeView {
    match sent {
        Ok(_) => Ok(address),
        Err(description) => Err(ErrorDetailView::Generic(description)),
    }
}

/// The stage after `stage` has been given `event`. An event that the stage
/// does not wait for leaves it where it is.
pub open spec fn next_stage(state: NetworkStateView, stage: StageView, event: EventView) -> StageView {
    match (stage, event) {
        (StageView::Gated, EventView::Requested) => match state.identity_at_gate() {
            Some(identity) => StageView::Resolving { identity },
            None => StageView::Dropped { reason: DropReasonView::NotReady },
        },
        (StageView::Resolving { identity }, EventView::Fetched(fetched)) => match resolution(
            fetched,
        ) {
            Ok(record) => StageView::Verifying { identity, record },
            Err(detail) => StageView::Dropped { reason: DropReasonView::Unresolved(detail) },
        },
        (StageView::Verifying { identity, record }, EventView::Anchored(anchored)) => match anchored {
            Some(proof) => match message_for(identity, record, proof) {
                Some(message) => StageView::Sending { record, message },
                None => StageView::Faulted,
            },
            None => StageView::Dropped { reason: DropReasonView::NoLocalAnchor },
        },
        (StageView::Sending { record, message }, EventView::Sent(sent)) => StageView::Recorded,
        _ => stage,
    }
}

/// The outcome table after `stage` has been given `event`. Only the
/// transport's answer to a pending send writes to it, and only under the
/// identity of the request.
pub open spec fn next_outcomes(
    outcomes: Map<u64, OutcomeView>,
    request_identity: u64,
    stage: StageView,
    event: EventView,
) -> Map<u64, OutcomeView> {
    match (stage, event) {
        (StageView::Sending { record, message }, EventView::Sent(sent)) => outcomes.insert(
            request_identity,
            outcome_for(record.address, sent),
        ),
        _ => outcomes,
    }
}

/// What the caller is to do next for `request` at `stage`.
pub fn awaited<'a>(request: &'a PublishRequest, stage: &'a Stage) -> (awaited: Awaited<'a>)
    ensures
        awaited@ == awaited_at(request@.content_address, stage@),
{
    match stage {
        Stage::Gated => Awaited::Request,
        Stage::Resolving { .. } => Awaited::Store(&request.content_address),
        Stage::Verifying { record, .. } => Awaited::History(record),
        Stage::Sending { message, .. } => Awaited::Transport(message),
        _ => Awaited::Nothing,
    }
}

/// Files the outcome of the send of `record` under the identity of `request`.
pub fn record_outcome<N>(
    network_state: &mut NetworkState<N>,
    request: &PublishRequest,
    record: Record,
    sent: Sent,
)
    ensures
        final(network_state).outcomes@ == old(network_state).outcomes@.insert(
            request.request_identity,
            outcome_for(record@.address, sent_view(sent)),
        ),
        final(network_state).network == old(network_state).network,
        final(network_state).group_identity == old(network_state).group_identity,
        final(network_state).agent_identity == old(network_state).agent_identity,
{
    let outcome: Outcome = match sent {
        Ok(_) => Ok(record.address),
        Err(refusal) => Err(ErrorDetail::Generic(refusal.description)),
    };
    network_state.outcomes.insert(request.request_identity, outcome);
}

/// Moves `request` on from `stage` by `event`, and gives the stage it is at
/// then.
///
/// At `Gated` the dispatch gate reads the readiness of `network_state`, and
/// the identities it finds travel on in the stage. At `Resolving` the store's
/// answer is resolved to a record, at `Verifying` the message is built from
/// record and anchor proof, and at `Sending` the outcome of the send is filed
/// in `network_state`: the one write of the whole pipeline. An event that
/// `stage` does not wait for changes nothing.
pub fn reduce_publish<N>(
    network_state: &mut NetworkState<N>,
    request: &PublishRequest,
    stage: Stage,
    event: Event,
) -> (next: Stage)
    ensures
        next@ == next_stage(old(network_state)@, stage@, event@),
        final(network_state).outcomes@ == next_outcomes(
            old(network_state).outcomes@,
            request.request_identity,
            stage@,
            event@,
        ),
        final(network_state).network == old(network_state).network,
        final(network_state).group_identity == old(network_state).group_identity,
        final(network_state).agent_identity == old(network_state).agent_identity,
{
    match stage {
        Stage::Gated => match event {
            Event::Requested => match network_state.dispatch_gate() {
                Some(identity) => Stage::Resolving { identity },
                None => Stage::Dropped { reason: DropReason::NotReady },
            },
            _ => Stage::Gated,
        },
        Stage::Resolving { identity } => match event {
            Event::Fetched(fetched) => match entry_from_cas(fetched) {
                Ok(record) => Stage::Verifying { identity, record },
                Err(detail) => Stage::Dropped { reason: DropReason::Unresolved(detail) },
            },
            _ => Stage::Resolving { identity },
        },
        Stage::Verifying { identity, record } => match event {
            Event::Anchored(Some(proof)) => match build_message(&identity, &record, &proof) {
                Some(message) => Stage::Sending { record, message },
                None => Stage::Faulted,
            },
            Event::Anchored(None) => Stage::Dropped { reason: DropReason::NoLocalAnchor },
            _ => Stage::Verifying { identity, record },
        },
        Stage::Sending { record, message } => match event {
            Event::Sent(sent) => {
                record_outcome(network_state, request, record, sent);
                Stage::Recorded
            },
            _ => Stage::Sending { record, message },
        },
        Stage::Recorded => Stage::Recorded,
        Stage::Dropped { reason } => Stage::Dropped { reason },
        Stage::Faulted => Stage::Faulted,
    }
}

} // verus!
