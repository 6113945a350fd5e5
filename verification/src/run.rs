//! Whole runs of the pipeline, and what holds of every one of them.
//!
//! A run takes one request from [`StageView::Gated`] to a stage that waits for
//! nothing. The collaborators are modelled by what they answer, so that a run
//! is a value: the stage it ends at, the outcome table it leaves, and what it
//! had its caller ask of the collaborators, in order.
use vstd::prelude::*;
use crate::message::{message_for, MessageView};
use crate::pipeline::{
    awaited_at, next_outcomes, next_stage, outcome_for, AwaitedView, DropReasonView, EventView,
    SentView, StageView,
};
use crate::resolver::{not_found, resolution, FetchedView};
use crate::state::NetworkStateView;
use crate::types::{ErrorDetailView, OutcomeView, RecordView, RequestView};

verus! {

/// The collaborators of a node, each by what it answers when asked.
pub struct Collaborators {
    /// The content-addressable store: what it holds at an address.
    pub fetch: spec_fn(Seq<char>) -> FetchedView,
    /// The history index: the anchor proof of a record.
    pub lookup_anchor: spec_fn(RecordView) -> Option<Seq<char>>,
    /// The transport: whether it takes a message.
    pub send: spec_fn(MessageView) -> SentView,
}

/// The event that answers `awaited`, as `world` gives it; `None` where
/// nothing is awaited.
pub open spec fn answer(world: Collaborators, awaited: AwaitedView) -> Option<EventView> {
    match awaited {
        AwaitedView::Request => Some(EventView::Requested),
        AwaitedView::Store(address) => Some(EventView::Fetched((world.fetch)(address))),
        AwaitedView::History(record) => Some(EventView::Anchored((world.lookup_anchor)(record))),
        AwaitedView::Transport(message) => Some(EventView::Sent((world.send)(message))),
        AwaitedView::Nothing => None,
    }
}

/// Whether `awaited` has the caller ask a collaborator.
pub open spec fn asks_collaborator(awaited: AwaitedView) -> bool {
    awaited is Store || awaited is History || awaited is Transport
}

/// How many answers `stage` may still need.
pub open spec fn steps_left(stage: StageView) -> nat {
    match stage {
        StageView::Gated => 4,
        StageView::Resolving { .. } => 3,
        StageView::Verifying { .. } => 2,
        StageView::Sending { .. } => 1,
        _ => 0,
    }
}

/// A stage that waits for nothing.
pub open spec fn finished(stage: StageView) -> bool {
    stage is Recorded || stage is Dropped || stage is Faulted
}

/// Where a run has got to.
pub struct Run {
    /// The stage of the request.
    pub stage: StageView,
    /// The outcome table of the node.
    pub outcomes: Map<u64, OutcomeView>,
    /// What the collaborators have been asked, oldest first.
    pub asked: Seq<AwaitedView>,
}

/// The run that goes on from `so_far`: while the stage waits for something,
/// the caller asks for it, and the answer moves the pipeline on.
pub open spec fn run_on(
    world: Collaborators,
    state: NetworkStateView,
    request: RequestView,
    so_far: Run,
) -> Run
    decreases steps_left(so_far.stage),
{
    let awaited = awaited_at(request.content_address, so_far.stage);
    match answer(world, awaited) {
        Some(event) => run_on(
            world,
            state,
            request,
            Run {
                stage: next_stage(state, so_far.stage, event),
                outcomes: next_outcomes(
                    so_far.outcomes,
                    request.request_identity,
                    so_far.stage,
                    event,
                ),
                asked: if asks_collaborator(awaited) {
                    so_far.asked.push(awaited)
                } else {
                    so_far.asked
                },
            },
        ),
        None => so_far,
    }
}

/// The run of `request` on a node in `state`, from start to end.
pub open spec fn run(world: Collaborators, state: NetworkStateView, request: RequestView) -> Run {
    run_on(
        world,
        state,
        request,
        Run { stage: StageView::Gated, outcomes: state.outcomes, asked: Seq::empty() },
    )
}

/// The node state that a run of `request` leaves.
pub open spec fn state_after(
    world: Collaborators,
    state: NetworkStateView,
    request: RequestView,
) -> NetworkStateView {
    NetworkStateView { outcomes: run(world, state, request).outcomes, ..state }
}

/// The outcome that a run of `request` files, if it files one: the run must
/// pass the dispatch gate, resolve the address, find the anchor and build the
/// message; the transport's answer then decides which outcome it is.
pub open spec fn filed_outcome(
    world: Collaborators,
    state: NetworkStateView,
    request: RequestView,
) -> Option<OutcomeView> {
    match state.identity_at_gate() {
        Some(identity) => match resolution((world.fetch)(request.content_address)) {
            Ok(record) => match (world.lookup_anchor)(record) {
                Some(proof) => match message_for(identity, record, proof) {
                    Some(message) => Some(outcome_for(record.address, (world.send)(message))),
                    None => None,
                },
                None => None,
            },
            Err(_) => None,
        },
        None => None,
    }
}

/// One pass, one attempt: a stage that is not finished waits for an answer,
/// and that answer, whatever it is, moves the request to a later stage.
pub proof fn lemma_each_answer_moves_on(
    world: Collaborators,
    state: NetworkStateView,
    address: Seq<char>,
    stage: StageView,
)
    requires
        !finished(stage),
    ensures
        answer(world, awaited_at(address, stage)) is Some,
        steps_left(next_stage(state, stage, answer(world, awaited_at(address, stage))->Some_0))
            < steps_left(stage),
{
}

/// Every run ends at a stage that waits for nothing.
pub proof fn lemma_run_finishes(world: Collaborators, state: NetworkStateView, request: RequestView)
    ensures
        finished(run(world, state, request).stage),
{
    reveal_with_fuel(run_on, 5);
}

/// A run writes to the outcome table at most once, and only under the
/// identity of its request: the table it leaves is the table it found, with
/// the outcome that it files, if any, under that identity. It files one
/// exactly where it ends at `Recorded`.
pub proof fn lemma_run_files_at_most_one_outcome(
    world: Collaborators,
    state: NetworkStateView,
    request: RequestView,
)
    ensures
        run(world, state, request).outcomes == match filed_outcome(world, state, request) {
            Some(outcome) => state.outcomes.insert(request.request_identity, outcome),
            None => state.outcomes,
        },
        run(world, state, request).stage is Recorded <==> filed_outcome(world, state, request)
            is Some,
{
    reveal_with_fuel(run_on, 5);
}

/// While the node is not ready, a run asks no collaborator anything and
/// leaves the outcome table as it found it.
pub proof fn lemma_not_ready_short_circuits(
    world: Collaborators,
    state: NetworkStateView,
    request: RequestView,
)
    requires
        !state.readiness().ready(),
    ensures
        run(world, state, request).asked == Seq::<AwaitedView>::empty(),
        run(world, state, request).outcomes == state.outcomes,
        run(world, state, request).stage == (StageView::Dropped {
            reason: DropReasonView::NotReady,
        }),
{
    reveal_with_fuel(run_on, 5);
}

/// Where the store fails, or holds nothing at the address, a run asks the
/// store and nobody else: the transport is not called, and the outcome table
/// is left as it was found. An address that the store lacks is reported as
/// the generic failure "Entry not found".
pub proof fn lemma_unresolved_is_dropped(
    world: Collaborators,
    state: NetworkStateView,
    request: RequestView,
)
    requires
        state.readiness().ready(),
        !((world.fetch)(request.content_address) matches Ok(Some(_))),
    ensures
        run(world, state, request).asked == seq![AwaitedView::Store(request.content_address)],
        run(world, state, request).outcomes == state.outcomes,
        run(world, state, request).stage == (StageView::Dropped {
            reason: DropReasonView::Unresolved(
                match (world.fetch)(request.content_address) {
                    Err(detail) => detail,
                    _ => ErrorDetailView::Generic(not_found()),
                },
            ),
        }),
{
    reveal_with_fuel(run_on, 5);
    assert(run(world, state, request).asked =~= seq![
        AwaitedView::Store(request.content_address),
    ]);
}

/// Where the history index has no anchor proof for the resolved record, a
/// run asks the store and the history index, never the transport, and leaves
/// the outcome table as it found it.
pub proof fn lemma_unanchored_is_dropped(
    world: Collaborators,
    state: NetworkStateView,
    request: RequestView,
    record: RecordView,
)
    requires
        state.readiness().ready(),
        (world.fetch)(request.content_address) == Ok::<Option<RecordView>, ErrorDetailView>(
            Some(record),
        ),
        (world.lookup_anchor)(record) is None,
    ensures
        run(world, state, request).asked == seq![
            AwaitedView::Store(request.content_address),
            AwaitedView::History(record),
        ],
        run(world, state, request).outcomes == state.outcomes,
        run(world, state, request).stage == (StageView::Dropped {
            reason: DropReasonView::NoLocalAnchor,
        }),
{
    reveal_with_fuel(run_on, 5);
    assert(run(world, state, request).asked =~= seq![
        AwaitedView::Store(request.content_address),
        AwaitedView::History(record),
    ]);
}

/// Where the record has an anchor proof but the two do not frame a payload
/// that reads as a document, the run ends at `Faulted`: the transport is not
/// asked, and the outcome table is left as it was found.
pub proof fn lemma_unreadable_payload_faults(
    world: Collaborators,
    state: NetworkStateView,
    request: RequestView,
    record: RecordView,
    proof: Seq<char>,
)
    requires
        state.readiness().ready(),
        (world.fetch)(request.content_address) == Ok::<Option<RecordView>, ErrorDetailView>(
            Some(record),
        ),
        (world.lookup_anchor)(record) == Some(proof),
        message_for(state.identity_at_gate()->Some_0, record, proof) is None,
    ensures
        run(world, state, request).asked == seq![
            AwaitedView::Store(request.content_address),
            AwaitedView::History(record),
        ],
        run(world, state, request).outcomes == state.outcomes,
        run(world, state, request).stage == StageView::Faulted,
{
    reveal_with_fuel(run_on, 5);
    assert(run(world, state, request).asked =~= seq![
        AwaitedView::Store(request.content_address),
        AwaitedView::History(record),
    ]);
}

/// Where the record has an anchor proof and the transport takes the message,
/// the run leaves the table it found with one entry written: under the
/// identity of the request, success with the record's own address. The
/// transport was asked once, for the message built from record and proof.
pub proof fn lemma_accepted_send_files_the_address(
    world: Collaborators,
    state: NetworkStateView,
    request: RequestView,
    record: RecordView,
    proof: Seq<char>,
    message: MessageView,
)
    requires
        state.readiness().ready(),
        (world.fetch)(request.content_address) == Ok::<Option<RecordView>, ErrorDetailView>(
            Some(record),
        ),
        (world.lookup_anchor)(record) == Some(proof),
        message_for(state.identity_at_gate()->Some_0, record, proof) == Some(message),
        (world.send)(message) is Ok,
    ensures
        run(world, state, request).outcomes == state.outcomes.insert(
            request.request_identity,
            Ok(record.address),
        ),
        run(world, state, request).asked == seq![
            AwaitedView::Store(request.content_address),
            AwaitedView::History(record),
            AwaitedView::Transport(message),
        ],
        run(world, state, request).stage == StageView::Recorded,
{
    reveal_with_fuel(run_on, 5);
    assert(run(world, state, request).asked =~= seq![
        AwaitedView::Store(request.content_address),
        AwaitedView::History(record),
        AwaitedView::Transport(message),
    ]);
}

/// Where the record has an anchor proof and the transport refuses the
/// message, the run leaves the table it found with one entry written: under
/// the identity of the request, the generic failure that holds the
/// transport's description.
pub proof fn lemma_refused_send_files_the_failure(
    world: Collaborators,
    state: NetworkStateView,
    request: RequestView,
    record: RecordView,
    proof: Seq<char>,
    message: MessageView,
    description: Seq<char>,
)
    requires
        state.readiness().ready(),
        (world.fetch)(request.content_address) == Ok::<Option<RecordView>, ErrorDetailView>(
            Some(record),
        ),
        (world.lookup_anchor)(record) == Some(proof),
        message_for(state.identity_at_gate()->Some_0, record, proof) == Some(message),
        (world.send)(message) == Err::<(), Seq<char>>(description),
    ensures
        run(world, state, request).outcomes == state.outcomes.insert(
            request.request_identity,
            Err(ErrorDetailView::Generic(description)),
        ),
        run(world, state, request).asked == seq![
            AwaitedView::Store(request.content_address),
            AwaitedView::History(record),
            AwaitedView::Transport(message),
        ],
        run(world, state, request).stage == StageView::Recorded,
{
    reveal_with_fuel(run_on, 5);
    assert(run(world, state, request).asked =~= seq![
        AwaitedView::Store(request.content_address),
        AwaitedView::History(record),
        AwaitedView::Transport(message),
    ]);
}

/// Two requests under different identities do not touch each other's
/// outcome: whichever runs first, the table ends the same, and under each
/// identity stands what that request's run alone would have left there.
pub proof fn lemma_distinct_requests_keep_their_outcomes(
    world: Collaborators,
    state: NetworkStateView,
    first: RequestView,
    second: RequestView,
)
    requires
        first.request_identity != second.request_identity,
    ensures
        state_after(world, state_after(world, state, first), second).outcomes == state_after(
            world,
            state_after(world, state, second),
            first,
        ).outcomes,
        state_after(world, state_after(world, state, first), second).outcomes.get(
            first.request_identity,
        ) == state_after(world, state, first).outcomes.get(first.request_identity),
        state_after(world, state_after(world, state, first), second).outcomes.get(
            second.request_identity,
        ) == state_after(world, state, second).outcomes.get(second.request_identity),
{
    lemma_run_files_at_most_one_outcome(world, state, first);
    lemma_run_files_at_most_one_outcome(world, state, second);
    lemma_run_files_at_most_one_outcome(world, state_after(world, state, first), second);
    lemma_run_files_at_most_one_outcome(world, state_after(world, state, second), first);
    assert(state_after(world, state_after(world, state, first), second).outcomes =~= state_after(
        world,
        state_after(world, state, second),
        first,
    ).outcomes);
}

} // verus!
