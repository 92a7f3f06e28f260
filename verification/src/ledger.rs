//! The record store as the protocol sees it, and what a punch does to it.
//!
//! The store itself is outside this library. What is stated here is what a
//! store owes a flow: that its replies agree with its records. Against every
//! store that keeps to this, and with the punches of a user taken one after
//! another, the laws at the end of this file hold.

use crate::engine::{any_with_role, first_match_from, TransitionViolation};
use crate::flow::{
    advance_spec, opening, NewCheckIn, PairUpdate, PunchError, PunchFlow, PunchRequest, StoreAction, StoreEvent,
};
use crate::models::{ActionType, CheckIn};
use crate::registry::{lookup, role_of, PunchStatus, Role};
use vstd::prelude::*;

verus! {

/// The record waits for the punch that closes it.
pub open spec fn is_ongoing(record: CheckIn) -> bool {
    record.status@ == PunchStatus::Ongoing.spec_text()
}

/// The record is a shift that has started and not ended.
pub open spec fn is_open_shift(record: CheckIn, registry: Seq<ActionType>) -> bool {
    is_ongoing(record) && role_of(registry, record.action_type_id) == Some(Role::MainStart)
}

/// No user has two open shifts: of the records that are ongoing shift starts,
/// at most one belongs to any user.
pub open spec fn one_open_shift(ledger: Seq<CheckIn>, registry: Seq<ActionType>) -> bool {
    forall|i: int, j: int|
        0 <= i < ledger.len() && 0 <= j < ledger.len() && is_open_shift(#[trigger] ledger[i], registry)
            && is_open_shift(#[trigger] ledger[j], registry) && ledger[i].user_id == ledger[j].user_id ==> i
            == j
}

/// The user has no ongoing record.
pub open spec fn idle(ledger: Seq<CheckIn>, user_id: i32) -> bool {
    forall|k: int| 0 <= k < ledger.len() && (#[trigger] ledger[k]).user_id == user_id ==> !is_ongoing(ledger[k])
}

/// The rows are the user's ongoing records: each row is such a record of the
/// ledger, and each such record is among the rows.
pub open spec fn lists_ongoing(ledger: Seq<CheckIn>, user_id: i32, rows: Seq<CheckIn>) -> bool {
    &&& forall|i: int|
        0 <= i < rows.len() ==> ledger.contains(#[trigger] rows[i]) && rows[i].user_id == user_id && is_ongoing(
            rows[i],
        )
    &&& forall|k: int|
        0 <= k < ledger.len() && (#[trigger] ledger[k]).user_id == user_id && is_ongoing(ledger[k])
            ==> rows.contains(ledger[k])
}

/// The stored row is the record, under an identifier that the ledger does
/// not hold yet.
pub open spec fn stores(ledger: Seq<CheckIn>, record: NewCheckIn, stored: CheckIn) -> bool {
    &&& stored.user_id == record.user_id
    &&& stored.action_type_id == record.action_type_id
    &&& stored.check_time@ == record.check_time@
    &&& stored.status@ == record.status.spec_text()
    &&& stored.pair_check_in_id == record.pair_check_in_id
    &&& stored.duration_minutes == record.duration_minutes
    &&& stored.is_late == record.is_late
    &&& stored.is_early_leave == record.is_early_leave
    &&& stored.is_manual == record.is_manual
    &&& forall|k: int| 0 <= k < ledger.len() ==> (#[trigger] ledger[k]).id != stored.id
}

/// The record after the update: completed, pointing at the end record, with
/// the duration; who punched what and when stays.
pub open spec fn closed_by(before: CheckIn, update: PairUpdate, after: CheckIn) -> bool {
    &&& after.id == before.id
    &&& after.user_id == before.user_id
    &&& after.action_type_id == before.action_type_id
    &&& after.check_time@ == before.check_time@
    &&& after.status@ == PunchStatus::Completed.spec_text()
    &&& after.pair_check_in_id == Some(update.pair_check_in_id)
    &&& after.duration_minutes == update.duration_minutes
}

/// The ledger after the update: the records of that identifier are closed,
/// the others are untouched.
pub open spec fn updates(ledger: Seq<CheckIn>, update: PairUpdate, after: Seq<CheckIn>) -> bool {
    &&& after.len() == ledger.len()
    &&& forall|k: int|
        0 <= k < ledger.len() ==> if (#[trigger] ledger[k]).id == update.id {
            closed_by(ledger[k], update, after[k])
        } else {
            after[k] == ledger[k]
        }
}

/// What a store owes a flow: the reply answers the action on the ledger, and
/// the ledger changes only as the action says. A store may fail any action,
/// and then changes nothing.
pub open spec fn replies_to(
    ledger: Seq<CheckIn>,
    registry: Seq<ActionType>,
    action: StoreAction,
    event: StoreEvent,
    after: Seq<CheckIn>,
) -> bool {
    if event is Failed {
        after == ledger
    } else {
        match action {
            StoreAction::LoadActionType(id) => {
                &&& after == ledger
                &&& event matches StoreEvent::ActionTypes(rows)
                &&& lookup(registry, id) == if rows@.len() > 0 {
                    Some(rows@[0])
                } else {
                    None
                }
            },
            StoreAction::LoadContext(query) => {
                &&& after == ledger
                &&& event matches StoreEvent::Context(context)
                &&& context.registry@ == registry
                &&& lists_ongoing(ledger, query.user_id, context.ongoing@)
                &&& forall|i: int|
                    0 <= i < context.unpaired@.len() ==> context.ongoing@.contains(#[trigger] context.unpaired@[i])
            },
            StoreAction::LoadBreakRules(id) => {
                &&& after == ledger
                &&& event is Rules
            },
            StoreAction::Insert(record) => {
                &&& event matches StoreEvent::Inserted(stored)
                &&& stores(ledger, record, stored)
                &&& after == ledger.push(stored)
            },
            StoreAction::CompletePair(update) => {
                &&& event is Updated
                &&& updates(ledger, update, after)
            },
            StoreAction::Finish(_) => false,
        }
    }
}

/// Where a flow stands after the first `steps` replies of a run.
pub open spec fn state_at(state: (PunchFlow, StoreAction), replies: Seq<StoreEvent>, steps: int) -> (
    PunchFlow,
    StoreAction,
)
    decreases steps,
{
    if steps <= 0 {
        state
    } else {
        advance_spec(state_at(state, replies, steps - 1).0, replies[steps - 1])
    }
}

/// The ledger after the first `steps` replies of a run, where `ledgers`
/// holds the ledger after each reply.
pub open spec fn ledger_at(ledger: Seq<CheckIn>, ledgers: Seq<Seq<CheckIn>>, steps: int) -> Seq<CheckIn> {
    if steps <= 0 {
        ledger
    } else {
        ledgers[steps - 1]
    }
}

/// A run of a flow against a store, with nothing else changing the ledger
/// meanwhile: each reply answers the action that the flow has reached, on the
/// ledger as the reply before left it.
pub open spec fn runs(
    ledger: Seq<CheckIn>,
    registry: Seq<ActionType>,
    state: (PunchFlow, StoreAction),
    replies: Seq<StoreEvent>,
    ledgers: Seq<Seq<CheckIn>>,
) -> bool {
    &&& ledgers.len() == replies.len()
    &&& forall|k: int|
        0 <= k < replies.len() ==> replies_to(
            ledger_at(ledger, ledgers, k),
            registry,
            state_at(state, replies, k).1,
            #[trigger] replies[k],
            ledgers[k],
        )
}

/// Where a flow stands after a run.
pub open spec fn end_of(state: (PunchFlow, StoreAction), replies: Seq<StoreEvent>) -> (PunchFlow, StoreAction) {
    state_at(state, replies, replies.len() as int)
}

/// What a run hands to the caller, once the flow is over.
pub open spec fn outcome(state: (PunchFlow, StoreAction), replies: Seq<StoreEvent>) -> Option<
    Result<CheckIn, PunchError>,
> {
    match end_of(state, replies).1 {
        StoreAction::Finish(result) => Some(result),
        _ => None,
    }
}

/// The ledger after a run.
pub open spec fn ledger_after(ledger: Seq<CheckIn>, ledgers: Seq<Seq<CheckIn>>) -> Seq<CheckIn> {
    ledger_at(ledger, ledgers, ledgers.len() as int)
}

/// The store never failed in a run.
pub open spec fn unfailing(replies: Seq<StoreEvent>) -> bool {
    forall|k: int| 0 <= k < replies.len() ==> !(#[trigger] replies[k] is Failed)
}

/// The registry holds the action type, switched on, with this role.
pub open spec fn active_role(registry: Seq<ActionType>, id: i32, role: Role) -> bool {
    &&& lookup(registry, id) matches Some(action_type)
    &&& action_type.is_active
    &&& Role::spec_from_code(action_type.action_role) == Some(role)
}

/// A run in which the store never failed and the flow came to its end.
pub open spec fn completes(
    ledger: Seq<CheckIn>,
    registry: Seq<ActionType>,
    request: PunchRequest,
    replies: Seq<StoreEvent>,
    ledgers: Seq<Seq<CheckIn>>,
) -> bool {
    &&& runs(ledger, registry, opening(request), replies, ledgers)
    &&& unfailing(replies)
    &&& outcome(opening(request), replies) is Some
}

/// The record is the user's one ongoing record.
pub open spec fn only_open(ledger: Seq<CheckIn>, user_id: i32, open: CheckIn) -> bool {
    &&& ledger.contains(open)
    &&& open.user_id == user_id
    &&& is_ongoing(open)
    &&& forall|k: int|
        0 <= k < ledger.len() && (#[trigger] ledger[k]).user_id == user_id && is_ongoing(ledger[k]) ==> ledger[k]
            == open
}

/// The record is the start record after the end record closed it.
pub open spec fn closed_start(record: CheckIn, started: CheckIn, ended: CheckIn) -> bool {
    &&& record.id == started.id
    &&& record.user_id == started.user_id
    &&& record.status@ == PunchStatus::Completed.spec_text()
    &&& record.pair_check_in_id == Some(ended.id)
    &&& record.duration_minutes == ended.duration_minutes
}

/// Two punches paired up: both were recorded, the end record is completed
/// and points at the start record, and in the ledger the start record is
/// completed, points back, and carries the same duration.
pub open spec fn paired(
    start_outcome: Option<Result<CheckIn, PunchError>>,
    end_outcome: Option<Result<CheckIn, PunchError>>,
    ledger: Seq<CheckIn>,
) -> bool {
    &&& start_outcome matches Some(Ok(started))
    &&& end_outcome matches Some(Ok(ended))
    &&& ended.status@ == PunchStatus::Completed.spec_text()
    &&& ended.pair_check_in_id == Some(started.id)
    &&& exists|k: int| 0 <= k < ledger.len() && closed_start(#[trigger] ledger[k], started, ended)
    &&& forall|k: int|
        0 <= k < ledger.len() && (#[trigger] ledger[k]).id == started.id ==> closed_start(
            ledger[k],
            started,
            ended,
        )
}

/// What holds between the ledger and an automatic punch under way, from its
/// first step to its last: no user has two open shifts; the flow knows the
/// action type by the role that the registry gives it; and a shift start that
/// is about to be stored belongs to a user with no ongoing record.
pub open spec fn protocol_invariant(
    ledger: Seq<CheckIn>,
    registry: Seq<ActionType>,
    flow: PunchFlow,
    action: StoreAction,
) -> bool {
    &&& one_open_shift(ledger, registry)
    &&& match flow {
        PunchFlow::AwaitActionType { request } => {
            &&& !request.spec_is_manual()
            &&& action == StoreAction::LoadActionType(request.action_type_id)
        },
        PunchFlow::AwaitContext { request, role, now } => {
            &&& !request.spec_is_manual()
            &&& role_of(registry, request.action_type_id) == Some(role)
            &&& action matches StoreAction::LoadContext(query)
            &&& query.user_id == request.user_id
        },
        PunchFlow::AwaitBreakRules { record, start_id, duration } => {
            &&& record.status == PunchStatus::Completed
            &&& action is LoadBreakRules
        },
        PunchFlow::AwaitInsert { pair, warning } => {
            &&& action matches StoreAction::Insert(record)
            &&& record.status == PunchStatus::Ongoing && role_of(registry, record.action_type_id) == Some(
                Role::MainStart,
            ) ==> idle(ledger, record.user_id)
        },
        PunchFlow::AwaitUpdate { stored, update } => action is CompletePair,
        PunchFlow::Done { unreconciled, warning } => action is Finish,
    }
}

/// The two stored texts of a status differ.
pub proof fn lemma_status_texts_differ()
    ensures
        PunchStatus::Ongoing.spec_text() != PunchStatus::Completed.spec_text(),
{
    reveal_strlit("ongoing");
    reveal_strlit("completed");
    assert("ongoing"@.len() == 7);
    assert("completed"@.len() == 9);
}

/// Storing a record that is no open shift, or that belongs to a user with no
/// ongoing record, leaves no user with two open shifts.
proof fn lemma_insert_keeps_one_open_shift(
    ledger: Seq<CheckIn>,
    registry: Seq<ActionType>,
    record: NewCheckIn,
    stored: CheckIn,
)
    requires
        one_open_shift(ledger, registry),
        stores(ledger, record, stored),
        record.status == PunchStatus::Ongoing && role_of(registry, record.action_type_id) == Some(Role::MainStart)
            ==> idle(ledger, record.user_id),
    ensures
        one_open_shift(ledger.push(stored), registry),
{
    lemma_status_texts_differ();
    let after = ledger.push(stored);
    assert forall|i: int, j: int|
        0 <= i < after.len() && 0 <= j < after.len() && is_open_shift(#[trigger] after[i], registry)
            && is_open_shift(#[trigger] after[j], registry) && after[i].user_id == after[j].user_id implies i
        == j by {
        if i < ledger.len() && j < ledger.len() {
            assert(after[i] == ledger[i]);
            assert(after[j] == ledger[j]);
        } else if i < ledger.len() {
            assert(after[i] == ledger[i]);
            assert(after[j] == stored);
        } else if j < ledger.len() {
            assert(after[j] == ledger[j]);
            assert(after[i] == stored);
        }
    }
}

/// Closing records leaves no user with two open shifts.
proof fn lemma_update_keeps_one_open_shift(
    ledger: Seq<CheckIn>,
    registry: Seq<ActionType>,
    update: PairUpdate,
    after: Seq<CheckIn>,
)
    requires
        one_open_shift(ledger, registry),
        updates(ledger, update, after),
    ensures
        one_open_shift(after, registry),
{
    lemma_status_texts_differ();
    assert forall|i: int, j: int|
        0 <= i < after.len() && 0 <= j < after.len() && is_open_shift(#[trigger] after[i], registry)
            && is_open_shift(#[trigger] after[j], registry) && after[i].user_id == after[j].user_id implies i
        == j by {
        assert(ledger[i].id != update.id);
        assert(ledger[j].id != update.id);
        assert(after[i] == ledger[i]);
        assert(after[j] == ledger[j]);
    }
}

/// A user whose ongoing records are listed by an empty list has none.
proof fn lemma_empty_list_means_idle(ledger: Seq<CheckIn>, user_id: i32, rows: Seq<CheckIn>)
    requires
        lists_ongoing(ledger, user_id, rows),
        rows.len() == 0,
    ensures
        idle(ledger, user_id),
{
    assert forall|k: int| 0 <= k < ledger.len() && (#[trigger] ledger[k]).user_id == user_id implies !is_ongoing(
        ledger[k],
    ) by {
        if is_ongoing(ledger[k]) {
            assert(rows.contains(ledger[k]));
        }
    }
}

/// Each step of an automatic punch keeps the protocol invariant, whatever a
/// store that keeps to `replies_to` answers.
pub proof fn law_step_keeps_protocol(
    ledger: Seq<CheckIn>,
    registry: Seq<ActionType>,
    flow: PunchFlow,
    action: StoreAction,
    event: StoreEvent,
    after: Seq<CheckIn>,
)
    requires
        protocol_invariant(ledger, registry, flow, action),
        replies_to(ledger, registry, action, event, after),
    ensures
        protocol_invariant(after, registry, advance_spec(flow, event).0, advance_spec(flow, event).1),
{
    let next = advance_spec(flow, event);
    if event is Failed {
    } else {
        match flow {
            PunchFlow::AwaitActionType { request } => {},
            PunchFlow::AwaitContext { request, role, now } => {
                let context = event->Context_0;
                if role == Role::MainStart && next.1 is Insert {
                    lemma_empty_list_means_idle(ledger, request.user_id, context.ongoing@);
                }
            },
            PunchFlow::AwaitBreakRules { record, start_id, duration } => {},
            PunchFlow::AwaitInsert { pair, warning } => {
                lemma_insert_keeps_one_open_shift(ledger, registry, action->Insert_0, event->Inserted_0);
            },
            PunchFlow::AwaitUpdate { stored, update } => {
                lemma_update_keeps_one_open_shift(ledger, registry, action->CompletePair_0, after);
            },
            PunchFlow::Done { unreconciled, warning } => {},
        }
    }
}

/// A run from a state in which the protocol invariant holds keeps it.
proof fn lemma_run_keeps_protocol(
    ledger: Seq<CheckIn>,
    registry: Seq<ActionType>,
    state: (PunchFlow, StoreAction),
    replies: Seq<StoreEvent>,
    ledgers: Seq<Seq<CheckIn>>,
    steps: int,
)
    requires
        protocol_invariant(ledger, registry, state.0, state.1),
        runs(ledger, registry, state, replies, ledgers),
        0 <= steps <= replies.len(),
    ensures
        protocol_invariant(
            ledger_at(ledger, ledgers, steps),
            registry,
            state_at(state, replies, steps).0,
            state_at(state, replies, steps).1,
        ),
    decreases steps,
{
    if steps > 0 {
        lemma_run_keeps_protocol(ledger, registry, state, replies, ledgers, steps - 1);
        let before = state_at(state, replies, steps - 1);
        assert(replies_to(
            ledger_at(ledger, ledgers, steps - 1),
            registry,
            before.1,
            replies[steps - 1],
            ledgers[steps - 1],
        ));
        law_step_keeps_protocol(
            ledger_at(ledger, ledgers, steps - 1),
            registry,
            before.0,
            before.1,
            replies[steps - 1],
            ledgers[steps - 1],
        );
    }
}

/// No user ever has two open shifts. Where no user has two before an
/// automatic punch, none has two after any of its steps, however the store
/// answers, as long as nothing else changes the ledger while the punch runs.
/// A backfilled punch is not covered: it may start a shift while one is open.
pub proof fn law_one_open_shift(
    ledger: Seq<CheckIn>,
    registry: Seq<ActionType>,
    request: PunchRequest,
    replies: Seq<StoreEvent>,
    ledgers: Seq<Seq<CheckIn>>,
)
    requires
        one_open_shift(ledger, registry),
        !request.spec_is_manual(),
        runs(ledger, registry, opening(request), replies, ledgers),
    ensures
        forall|k: int| 0 <= k < ledgers.len() ==> one_open_shift(#[trigger] ledgers[k], registry),
        one_open_shift(ledger_after(ledger, ledgers), registry),
{
    assert forall|k: int| 0 <= k < ledgers.len() implies one_open_shift(#[trigger] ledgers[k], registry) by {
        lemma_run_keeps_protocol(ledger, registry, opening(request), replies, ledgers, k + 1);
    }
    lemma_run_keeps_protocol(ledger, registry, opening(request), replies, ledgers, ledgers.len() as int);
}

/// The course of an automatic shift start of a user with no ongoing record:
/// it is stored as an ongoing record, and that is all that changes.
proof fn lemma_shift_start_from_idle(
    ledger: Seq<CheckIn>,
    registry: Seq<ActionType>,
    request: PunchRequest,
    replies: Seq<StoreEvent>,
    ledgers: Seq<Seq<CheckIn>>,
)
    requires
        idle(ledger, request.user_id),
        !request.spec_is_manual(),
        active_role(registry, request.action_type_id, Role::MainStart),
        completes(ledger, registry, request, replies, ledgers),
    ensures
        replies.len() == 3,
        replies[2] is Inserted,
        outcome(opening(request), replies) == Some(Ok::<CheckIn, PunchError>(replies[2]->Inserted_0)),
        ledger_after(ledger, ledgers) == ledger.push(replies[2]->Inserted_0),
        ({
            let started = replies[2]->Inserted_0;
            &&& started.user_id == request.user_id
            &&& started.action_type_id == request.action_type_id
            &&& is_ongoing(started)
            &&& forall|k: int| 0 <= k < ledger.len() ==> (#[trigger] ledger[k]).id != started.id
        }),
{
    reveal_with_fuel(state_at, 5);
    let start = opening(request);
    assert(replies.len() > 0);
    assert(replies_to(ledger_at(ledger, ledgers, 0), registry, state_at(start, replies, 0).1, replies[0], ledgers[0]));
    let s1 = state_at(start, replies, 1);
    assert(s1.0 is AwaitContext);
    assert(replies.len() > 1);
    assert(replies_to(ledger_at(ledger, ledgers, 1), registry, s1.1, replies[1], ledgers[1]));
    let context = replies[1]->Context_0;
    assert(context.ongoing@.len() == 0) by {
        if context.ongoing@.len() > 0 {
            let row = context.ongoing@[0];
            assert(ledger.contains(row));
        }
    }
    let s2 = state_at(start, replies, 2);
    assert(s2.0 is AwaitInsert);
    assert(replies.len() > 2);
    assert(replies_to(ledger_at(ledger, ledgers, 2), registry, s2.1, replies[2], ledgers[2]));
    let s3 = state_at(start, replies, 3);
    assert(s3.1 is Finish);
    if replies.len() > 3 {
        assert(replies_to(ledger_at(ledger, ledgers, 3), registry, s3.1, replies[3], ledgers[3]));
    }
}

/// The course of an automatic shift end of a user whose one ongoing record
/// is a shift start: the end is stored as completed and pointing at the
/// start, and then the start is closed.
proof fn lemma_shift_end_closes_open_shift(
    ledger: Seq<CheckIn>,
    registry: Seq<ActionType>,
    open: CheckIn,
    request: PunchRequest,
    replies: Seq<StoreEvent>,
    ledgers: Seq<Seq<CheckIn>>,
)
    requires
        only_open(ledger, request.user_id, open),
        role_of(registry, open.action_type_id) == Some(Role::MainStart),
        !request.spec_is_manual(),
        active_role(registry, request.action_type_id, Role::MainEnd),
        completes(ledger, registry, request, replies, ledgers),
    ensures
        replies.len() == 4,
        replies[2] is Inserted,
        outcome(opening(request), replies) == Some(Ok::<CheckIn, PunchError>(replies[2]->Inserted_0)),
        ({
            let ended = replies[2]->Inserted_0;
            &&& ended.user_id == request.user_id
            &&& ended.status@ == PunchStatus::Completed.spec_text()
            &&& ended.pair_check_in_id == Some(open.id)
            &&& forall|k: int| 0 <= k < ledger.len() ==> (#[trigger] ledger[k]).id != ended.id
            &&& updates(
                ledger.push(ended),
                PairUpdate { id: open.id, pair_check_in_id: ended.id, duration_minutes: ended.duration_minutes },
                ledger_after(ledger, ledgers),
            )
        }),
{
    reveal_with_fuel(state_at, 6);
    reveal_with_fuel(first_match_from, 2);
    let start = opening(request);
    assert(replies.len() > 0);
    assert(replies_to(ledger_at(ledger, ledgers, 0), registry, state_at(start, replies, 0).1, replies[0], ledgers[0]));
    let s1 = state_at(start, replies, 1);
    assert(s1.0 is AwaitContext);
    assert(replies.len() > 1);
    assert(replies_to(ledger_at(ledger, ledgers, 1), registry, s1.1, replies[1], ledgers[1]));
    let context = replies[1]->Context_0;
    let rows = context.ongoing@;
    assert(rows.contains(open));
    assert forall|i: int| 0 <= i < rows.len() implies #[trigger] rows[i] == open by {
        assert(ledger.contains(rows[i]));
    }
    assert(rows[0] == open);
    assert(any_with_role(rows, registry, Role::MainStart));
    assert(!any_with_role(rows, registry, Role::BreakStart));
    assert(first_match_from(rows, registry, Role::MainStart, false, 0) == Some(0int));
    let s2 = state_at(start, replies, 2);
    assert(s2.0 is AwaitInsert);
    assert(replies.len() > 2);
    assert(replies_to(ledger_at(ledger, ledgers, 2), registry, s2.1, replies[2], ledgers[2]));
    let s3 = state_at(start, replies, 3);
    assert(s3.0 is AwaitUpdate);
    assert(replies.len() > 3);
    assert(replies_to(ledger_at(ledger, ledgers, 3), registry, s3.1, replies[3], ledgers[3]));
    let s4 = state_at(start, replies, 4);
    assert(s4.1 is Finish);
    if replies.len() > 4 {
        assert(replies_to(ledger_at(ledger, ledgers, 4), registry, s4.1, replies[4], ledgers[4]));
    }
}

/// The course of an automatic shift end of a user with no ongoing record: it
/// is rejected, and nothing changes.
proof fn lemma_shift_end_from_idle(
    ledger: Seq<CheckIn>,
    registry: Seq<ActionType>,
    request: PunchRequest,
    replies: Seq<StoreEvent>,
    ledgers: Seq<Seq<CheckIn>>,
)
    requires
        idle(ledger, request.user_id),
        !request.spec_is_manual(),
        active_role(registry, request.action_type_id, Role::MainEnd),
        completes(ledger, registry, request, replies, ledgers),
    ensures
        outcome(opening(request), replies) == Some(
            Err::<CheckIn, PunchError>(PunchError::IllegalStateTransition(TransitionViolation::NoOpenShift)),
        ),
        ledger_after(ledger, ledgers) == ledger,
{
    reveal_with_fuel(state_at, 4);
    let start = opening(request);
    assert(replies.len() > 0);
    assert(replies_to(ledger_at(ledger, ledgers, 0), registry, state_at(start, replies, 0).1, replies[0], ledgers[0]));
    let s1 = state_at(start, replies, 1);
    assert(s1.0 is AwaitContext);
    assert(replies.len() > 1);
    assert(replies_to(ledger_at(ledger, ledgers, 1), registry, s1.1, replies[1], ledgers[1]));
    let context = replies[1]->Context_0;
    assert(context.ongoing@.len() == 0) by {
        if context.ongoing@.len() > 0 {
            let row = context.ongoing@[0];
            assert(ledger.contains(row));
        }
    }
    assert(!any_with_role(context.ongoing@, registry, Role::MainStart));
    let s2 = state_at(start, replies, 2);
    assert(s2.1 is Finish);
    if replies.len() > 2 {
        assert(replies_to(ledger_at(ledger, ledgers, 2), registry, s2.1, replies[2], ledgers[2]));
    }
}

/// After a shift start and a shift end of a user who had no ongoing record,
/// the two records are paired and the user has no ongoing record again.
proof fn lemma_start_then_end(
    ledger: Seq<CheckIn>,
    registry: Seq<ActionType>,
    start: PunchRequest,
    start_replies: Seq<StoreEvent>,
    start_ledgers: Seq<Seq<CheckIn>>,
    end: PunchRequest,
    end_replies: Seq<StoreEvent>,
    end_ledgers: Seq<Seq<CheckIn>>,
)
    requires
        idle(ledger, start.user_id),
        end.user_id == start.user_id,
        !start.spec_is_manual(),
        !end.spec_is_manual(),
        active_role(registry, start.action_type_id, Role::MainStart),
        active_role(registry, end.action_type_id, Role::MainEnd),
        completes(ledger, registry, start, start_replies, start_ledgers),
        completes(ledger_after(ledger, start_ledgers), registry, end, end_replies, end_ledgers),
    ensures
        paired(
            outcome(opening(start), start_replies),
            outcome(opening(end), end_replies),
            ledger_after(ledger_after(ledger, start_ledgers), end_ledgers),
        ),
        idle(ledger_after(ledger_after(ledger, start_ledgers), end_ledgers), start.user_id),
{
    lemma_status_texts_differ();
    lemma_shift_start_from_idle(ledger, registry, start, start_replies, start_ledgers);
    let started = start_replies[2]->Inserted_0;
    let opened = ledger.push(started);
    assert(opened[ledger.len() as int] == started);
    assert(only_open(opened, end.user_id, started)) by {
        assert forall|k: int|
            0 <= k < opened.len() && (#[trigger] opened[k]).user_id == end.user_id && is_ongoing(
                opened[k],
            ) implies opened[k] == started by {
            if k < ledger.len() {
                assert(opened[k] == ledger[k]);
            }
        }
    }
    lemma_shift_end_closes_open_shift(opened, registry, started, end, end_replies, end_ledgers);
    let ended = end_replies[2]->Inserted_0;
    let both = opened.push(ended);
    let closed = ledger_after(opened, end_ledgers);
    let at = ledger.len() as int;
    assert(both[at] == started);
    assert(closed_start(closed[at], started, ended));
    assert forall|k: int| 0 <= k < closed.len() && (#[trigger] closed[k]).id == started.id implies closed_start(
        closed[k],
        started,
        ended,
    ) by {
        if both[k].id == started.id {
            assert(k == at) by {
                if k < at {
                    assert(both[k] == ledger[k]);
                } else if k > at {
                    assert(both[k] == ended);
                    assert(opened[at].id != ended.id);
                }
            }
        } else {
            assert(closed[k] == both[k]);
        }
    }
    assert forall|k: int| 0 <= k < closed.len() && (#[trigger] closed[k]).user_id == start.user_id implies !is_ongoing(
        closed[k],
    ) by {
        if both[k].id != started.id {
            assert(closed[k] == both[k]);
            if k < at {
                assert(both[k] == ledger[k]);
            } else {
                assert(k > at);
                assert(both[k] == ended);
            }
        }
    }
}

/// A shift start and then a shift end of the same user pair up. Where the
/// user has no ongoing record, the store never fails and nothing else changes
/// the ledger: both punches are recorded; the end record is completed and
/// points at the start record; the start record has become completed, points
/// back at the end record, and carries the same duration.
pub proof fn law_start_then_end_pairs(
    ledger: Seq<CheckIn>,
    registry: Seq<ActionType>,
    start: PunchRequest,
    start_replies: Seq<StoreEvent>,
    start_ledgers: Seq<Seq<CheckIn>>,
    end: PunchRequest,
    end_replies: Seq<StoreEvent>,
    end_ledgers: Seq<Seq<CheckIn>>,
)
    requires
        idle(ledger, start.user_id),
        end.user_id == start.user_id,
        !start.spec_is_manual(),
        !end.spec_is_manual(),
        active_role(registry, start.action_type_id, Role::MainStart),
        active_role(registry, end.action_type_id, Role::MainEnd),
        completes(ledger, registry, start, start_replies, start_ledgers),
        completes(ledger_after(ledger, start_ledgers), registry, end, end_replies, end_ledgers),
    ensures
        paired(
            outcome(opening(start), start_replies),
            outcome(opening(end), end_replies),
            ledger_after(ledger_after(ledger, start_ledgers), end_ledgers),
        ),
{
    lemma_start_then_end(ledger, registry, start, start_replies, start_ledgers, end, end_replies, end_ledgers);
}

/// A second shift end right after a shift was started and ended is rejected
/// as an illegal transition; no record is paired twice. With the user's
/// shift closed as in `law_start_then_end_pairs`, a further automatic shift
/// end fails because no shift is open, and leaves the ledger as it was.
pub proof fn law_second_end_is_rejected(
    ledger: Seq<CheckIn>,
    registry: Seq<ActionType>,
    start: PunchRequest,
    start_replies: Seq<StoreEvent>,
    start_ledgers: Seq<Seq<CheckIn>>,
    end: PunchRequest,
    end_replies: Seq<StoreEvent>,
    end_ledgers: Seq<Seq<CheckIn>>,
    again: PunchRequest,
    again_replies: Seq<StoreEvent>,
    again_ledgers: Seq<Seq<CheckIn>>,
)
    requires
        idle(ledger, start.user_id),
        end.user_id == start.user_id,
        again.user_id == start.user_id,
        !start.spec_is_manual(),
        !end.spec_is_manual(),
        !again.spec_is_manual(),
        active_role(registry, start.action_type_id, Role::MainStart),
        active_role(registry, end.action_type_id, Role::MainEnd),
        active_role(registry, again.action_type_id, Role::MainEnd),
        completes(ledger, registry, start, start_replies, start_ledgers),
        completes(ledger_after(ledger, start_ledgers), registry, end, end_replies, end_ledgers),
        completes(
            ledger_after(ledger_after(ledger, start_ledgers), end_ledgers),
            registry,
            again,
            again_replies,
            again_ledgers,
        ),
    ensures
        outcome(opening(again), again_replies) == Some(
            Err::<CheckIn, PunchError>(PunchError::IllegalStateTransition(TransitionViolation::NoOpenShift)),
        ),
        ledger_after(ledger_after(ledger_after(ledger, start_ledgers), end_ledgers), again_ledgers)
            == ledger_after(ledger_after(ledger, start_ledgers), end_ledgers),
{
    lemma_start_then_end(ledger, registry, start, start_replies, start_ledgers, end, end_replies, end_ledgers);
    lemma_shift_end_from_idle(
        ledger_after(ledger_after(ledger, start_ledgers), end_ledgers),
        registry,
        again,
        again_replies,
        again_ledgers,
    );
}

/// The record is a break that has started and not ended.
pub open spec fn is_open_break(record: CheckIn, registry: Seq<ActionType>) -> bool {
    is_ongoing(record) && role_of(registry, record.action_type_id) == Some(Role::BreakStart)
}

/// The user has an open shift.
pub open spec fn has_open_shift(ledger: Seq<CheckIn>, registry: Seq<ActionType>, user_id: i32) -> bool {
    exists|j: int| 0 <= j < ledger.len() && (#[trigger] ledger[j]).user_id == user_id && is_open_shift(ledger[j], registry)
}

/// The user has no open break.
pub open spec fn no_open_break(ledger: Seq<CheckIn>, registry: Seq<ActionType>, user_id: i32) -> bool {
    forall|k: int| 0 <= k < ledger.len() && (#[trigger] ledger[k]).user_id == user_id ==> !is_open_break(ledger[k], registry)
}

/// A break is open only inside an open shift: whoever has an ongoing break
/// start has an ongoing shift start too.
pub open spec fn breaks_nested(ledger: Seq<CheckIn>, registry: Seq<ActionType>) -> bool {
    forall|i: int|
        0 <= i < ledger.len() && is_open_break(#[trigger] ledger[i], registry) ==> has_open_shift(
            ledger,
            registry,
            ledger[i].user_id,
        )
}

/// No user has two open breaks.
pub open spec fn one_open_break(ledger: Seq<CheckIn>, registry: Seq<ActionType>) -> bool {
    forall|i: int, j: int|
        0 <= i < ledger.len() && 0 <= j < ledger.len() && is_open_break(#[trigger] ledger[i], registry)
            && is_open_break(#[trigger] ledger[j], registry) && ledger[i].user_id == ledger[j].user_id ==> i
            == j
}

/// No two records share an identifier.
pub open spec fn unique_ids(ledger: Seq<CheckIn>) -> bool {
    forall|i: int, j: int|
        0 <= i < ledger.len() && 0 <= j < ledger.len() && (#[trigger] ledger[i]).id == (#[trigger] ledger[j]).id
            ==> i == j
}

/// Closing the records of an identifier strands no break: where such a
/// record is an open shift, its user has no open break.
pub open spec fn closing_is_safe(ledger: Seq<CheckIn>, registry: Seq<ActionType>, id: i32) -> bool {
    forall|k: int|
        0 <= k < ledger.len() && (#[trigger] ledger[k]).id == id && is_open_shift(ledger[k], registry)
            ==> no_open_break(ledger, registry, ledger[k].user_id)
}

/// What holds between the ledger and an automatic punch under way, as far
/// as breaks go: every open break lies inside an open shift; no user has two
/// open breaks; identifiers are unique; a break start that is about to be
/// stored belongs to a user with an open shift and no open break; and a start
/// record that is about to be closed strands no break.
pub open spec fn nesting_invariant(
    ledger: Seq<CheckIn>,
    registry: Seq<ActionType>,
    flow: PunchFlow,
    action: StoreAction,
) -> bool {
    &&& breaks_nested(ledger, registry)
    &&& one_open_break(ledger, registry)
    &&& unique_ids(ledger)
    &&& match flow {
        PunchFlow::AwaitActionType { request } => {
            &&& !request.spec_is_manual()
            &&& action == StoreAction::LoadActionType(request.action_type_id)
        },
        PunchFlow::AwaitContext { request, role, now } => {
            &&& !request.spec_is_manual()
            &&& role_of(registry, request.action_type_id) == Some(role)
            &&& action matches StoreAction::LoadContext(query)
            &&& query.user_id == request.user_id
        },
        PunchFlow::AwaitBreakRules { record, start_id, duration } => {
            &&& record.status == PunchStatus::Completed
            &&& action is LoadBreakRules
            &&& closing_is_safe(ledger, registry, start_id)
        },
        PunchFlow::AwaitInsert { pair, warning } => {
            &&& action matches StoreAction::Insert(record)
            &&& record.status == PunchStatus::Ongoing && role_of(registry, record.action_type_id) == Some(
                Role::BreakStart,
            ) ==> has_open_shift(ledger, registry, record.user_id) && no_open_break(
                ledger,
                registry,
                record.user_id,
            )
            &&& pair matches Some(plan) ==> record.status == PunchStatus::Completed && closing_is_safe(
                ledger,
                registry,
                plan.start_id,
            )
        },
        PunchFlow::AwaitUpdate { stored, update } => {
            &&& action == StoreAction::CompletePair(update)
            &&& closing_is_safe(ledger, registry, update.id)
        },
        PunchFlow::Done { unreconciled, warning } => action is Finish,
    }
}

/// Where some record of a list plays a role, the search for the first such
/// record finds one.
proof fn lemma_match_with_role(records: Seq<CheckIn>, registry: Seq<ActionType>, opener: Role, from: int, at: int)
    requires
        0 <= from <= at < records.len(),
        role_of(registry, records[at].action_type_id) == Some(opener),
    ensures
        first_match_from(records, registry, opener, false, from) matches Some(found) && from <= found <= at
            && role_of(registry, records[found].action_type_id) == Some(opener),
    decreases at - from,
{
    if role_of(registry, records[from].action_type_id) != Some(opener) {
        lemma_match_with_role(records, registry, opener, from + 1, at);
    }
}

/// A user whose list of ongoing records holds no break start has no open
/// break.
proof fn lemma_no_break_listed(
    ledger: Seq<CheckIn>,
    registry: Seq<ActionType>,
    user_id: i32,
    rows: Seq<CheckIn>,
)
    requires
        lists_ongoing(ledger, user_id, rows),
        !any_with_role(rows, registry, Role::BreakStart),
    ensures
        no_open_break(ledger, registry, user_id),
{
    assert forall|k: int| 0 <= k < ledger.len() && (#[trigger] ledger[k]).user_id == user_id implies !is_open_break(
        ledger[k],
        registry,
    ) by {
        if is_open_break(ledger[k], registry) {
            assert(rows.contains(ledger[k]));
            let r = choose|r: int| 0 <= r < rows.len() && rows[r] == ledger[k];
            assert(role_of(registry, rows[r].action_type_id) == Some(Role::BreakStart));
        }
    }
}

/// The context step of an automatic punch keeps the nesting invariant.
proof fn lemma_context_keeps_nesting(
    ledger: Seq<CheckIn>,
    registry: Seq<ActionType>,
    flow: PunchFlow,
    action: StoreAction,
    event: StoreEvent,
)
    requires
        nesting_invariant(ledger, registry, flow, action),
        flow is AwaitContext,
        !(event is Failed),
        replies_to(ledger, registry, action, event, ledger),
    ensures
        nesting_invariant(ledger, registry, advance_spec(flow, event).0, advance_spec(flow, event).1),
{
    let request = flow->AwaitContext_request;
    let role = flow->AwaitContext_role;
    let context = event->Context_0;
    let rows = context.ongoing@;
    let next = advance_spec(flow, event);
    let user_id = request.user_id;
    if next.1 is Finish {
    } else {
        match role {
            Role::MainStart => {},
            Role::BreakStart => {
                let i = choose|i: int|
                    0 <= i < rows.len() && role_of(registry, (#[trigger] rows[i]).action_type_id) == Some(
                        Role::MainStart,
                    );
                let j = choose|j: int| 0 <= j < ledger.len() && ledger[j] == rows[i];
                assert(ledger[j].user_id == user_id && is_open_shift(ledger[j], registry));
                lemma_no_break_listed(ledger, registry, user_id, rows);
            },
            Role::MainEnd => {
                let i = choose|i: int|
                    0 <= i < rows.len() && role_of(registry, (#[trigger] rows[i]).action_type_id) == Some(
                        Role::MainStart,
                    );
                lemma_match_with_role(rows, registry, Role::MainStart, 0, i);
                let found = first_match_from(rows, registry, Role::MainStart, false, 0)->Some_0;
                let start = rows[found];
                assert(ledger.contains(start));
                lemma_no_break_listed(ledger, registry, user_id, rows);
                assert(closing_is_safe(ledger, registry, start.id)) by {
                    let p = choose|p: int| 0 <= p < ledger.len() && ledger[p] == start;
                    assert forall|k: int|
                        0 <= k < ledger.len() && (#[trigger] ledger[k]).id == start.id && is_open_shift(
                            ledger[k],
                            registry,
                        ) implies no_open_break(ledger, registry, ledger[k].user_id) by {
                        assert(k == p);
                    }
                }
            },
            Role::BreakEnd => {
                lemma_match_with_role(rows, registry, Role::BreakStart, 0, 0);
                let start = rows[0];
                assert(ledger.contains(start));
                assert(closing_is_safe(ledger, registry, start.id)) by {
                    let p = choose|p: int| 0 <= p < ledger.len() && ledger[p] == start;
                    assert forall|k: int|
                        0 <= k < ledger.len() && (#[trigger] ledger[k]).id == start.id && is_open_shift(
                            ledger[k],
                            registry,
                        ) implies no_open_break(ledger, registry, ledger[k].user_id) by {
                        assert(k == p);
                    }
                }
            },
        }
    }
}

/// Storing a record keeps the breaks nested and the identifiers unique, and
/// leaves safe to close what was safe to close.
proof fn lemma_insert_keeps_nesting(
    ledger: Seq<CheckIn>,
    registry: Seq<ActionType>,
    record: NewCheckIn,
    stored: CheckIn,
    start_id: Option<i32>,
)
    requires
        breaks_nested(ledger, registry),
        one_open_break(ledger, registry),
        unique_ids(ledger),
        stores(ledger, record, stored),
        record.status == PunchStatus::Ongoing && role_of(registry, record.action_type_id) == Some(Role::BreakStart)
            ==> has_open_shift(ledger, registry, record.user_id) && no_open_break(
            ledger,
            registry,
            record.user_id,
        ),
        start_id matches Some(id) ==> record.status == PunchStatus::Completed && closing_is_safe(
            ledger,
            registry,
            id,
        ),
    ensures
        breaks_nested(ledger.push(stored), registry),
        one_open_break(ledger.push(stored), registry),
        unique_ids(ledger.push(stored)),
        start_id matches Some(id) ==> closing_is_safe(ledger.push(stored), registry, id),
{
    lemma_status_texts_differ();
    let after = ledger.push(stored);
    assert forall|i: int, j: int|
        0 <= i < after.len() && 0 <= j < after.len() && is_open_break(#[trigger] after[i], registry)
            && is_open_break(#[trigger] after[j], registry) && after[i].user_id == after[j].user_id implies i
        == j by {
        if i < ledger.len() {
            assert(after[i] == ledger[i]);
        }
        if j < ledger.len() {
            assert(after[j] == ledger[j]);
        }
    }
    assert forall|i: int| 0 <= i < after.len() && is_open_break(#[trigger] after[i], registry) implies has_open_shift(
        after,
        registry,
        after[i].user_id,
    ) by {
        let user_id = after[i].user_id;
        assert(has_open_shift(ledger, registry, user_id)) by {
            if i < ledger.len() {
                assert(after[i] == ledger[i]);
            }
        }
        let j = choose|j: int|
            0 <= j < ledger.len() && (#[trigger] ledger[j]).user_id == user_id && is_open_shift(ledger[j], registry);
        assert(after[j] == ledger[j]);
    }
    assert forall|i: int, j: int|
        0 <= i < after.len() && 0 <= j < after.len() && (#[trigger] after[i]).id == (#[trigger] after[j]).id implies i
        == j by {
        if i < ledger.len() {
            assert(after[i] == ledger[i]);
        }
        if j < ledger.len() {
            assert(after[j] == ledger[j]);
        }
    }
    if let Some(id) = start_id {
        assert forall|k: int|
            0 <= k < after.len() && (#[trigger] after[k]).id == id && is_open_shift(
                after[k],
                registry,
            ) implies no_open_break(after, registry, after[k].user_id) by {
            assert(k < ledger.len());
            assert(after[k] == ledger[k]);
            assert(no_open_break(ledger, registry, ledger[k].user_id));
            assert forall|m: int| 0 <= m < after.len() && (#[trigger] after[m]).user_id == after[k].user_id implies !is_open_break(
                after[m],
                registry,
            ) by {
                if m < ledger.len() {
                    assert(after[m] == ledger[m]);
                }
            }
        }
    }
}

/// Closing records that are safe to close keeps the breaks nested and the
/// identifiers unique.
proof fn lemma_update_keeps_nesting(
    ledger: Seq<CheckIn>,
    registry: Seq<ActionType>,
    update: PairUpdate,
    after: Seq<CheckIn>,
)
    requires
        breaks_nested(ledger, registry),
        one_open_break(ledger, registry),
        unique_ids(ledger),
        closing_is_safe(ledger, registry, update.id),
        updates(ledger, update, after),
    ensures
        breaks_nested(after, registry),
        one_open_break(after, registry),
        unique_ids(after),
{
    lemma_status_texts_differ();
    assert forall|i: int, j: int|
        0 <= i < after.len() && 0 <= j < after.len() && is_open_break(#[trigger] after[i], registry)
            && is_open_break(#[trigger] after[j], registry) && after[i].user_id == after[j].user_id implies i
        == j by {
        assert(ledger[i].id != update.id);
        assert(ledger[j].id != update.id);
        assert(after[i] == ledger[i]);
        assert(after[j] == ledger[j]);
    }
    assert forall|i: int| 0 <= i < after.len() && is_open_break(#[trigger] after[i], registry) implies has_open_shift(
        after,
        registry,
        after[i].user_id,
    ) by {
        assert(ledger[i].id != update.id);
        assert(after[i] == ledger[i]);
        let user_id = ledger[i].user_id;
        let j = choose|j: int|
            0 <= j < ledger.len() && (#[trigger] ledger[j]).user_id == user_id && is_open_shift(ledger[j], registry);
        if ledger[j].id == update.id {
            assert(no_open_break(ledger, registry, user_id));
        } else {
            assert(after[j] == ledger[j]);
        }
    }
    assert forall|i: int, j: int|
        0 <= i < after.len() && 0 <= j < after.len() && (#[trigger] after[i]).id == (#[trigger] after[j]).id implies i
        == j by {
        assert(after[i].id == ledger[i].id);
        assert(after[j].id == ledger[j].id);
    }
}

/// Each step of an automatic punch keeps the nesting invariant, whatever a
/// store that keeps to `replies_to` answers.
pub proof fn law_step_keeps_nesting(
    ledger: Seq<CheckIn>,
    registry: Seq<ActionType>,
    flow: PunchFlow,
    action: StoreAction,
    event: StoreEvent,
    after: Seq<CheckIn>,
)
    requires
        nesting_invariant(ledger, registry, flow, action),
        replies_to(ledger, registry, action, event, after),
    ensures
        nesting_invariant(after, registry, advance_spec(flow, event).0, advance_spec(flow, event).1),
{
    if event is Failed {
    } else {
        match flow {
            PunchFlow::AwaitActionType { request } => {},
            PunchFlow::AwaitContext { request, role, now } => {
                lemma_context_keeps_nesting(ledger, registry, flow, action, event);
            },
            PunchFlow::AwaitBreakRules { record, start_id, duration } => {},
            PunchFlow::AwaitInsert { pair, warning } => {
                let start_id = match pair {
                    Some(plan) => Some(plan.start_id),
                    None => None,
                };
                lemma_insert_keeps_nesting(ledger, registry, action->Insert_0, event->Inserted_0, start_id);
            },
            PunchFlow::AwaitUpdate { stored, update } => {
                lemma_update_keeps_nesting(ledger, registry, update, after);
            },
            PunchFlow::Done { unreconciled, warning } => {},
        }
    }
}

/// A run from a state in which the nesting invariant holds keeps it.
proof fn lemma_run_keeps_nesting(
    ledger: Seq<CheckIn>,
    registry: Seq<ActionType>,
    state: (PunchFlow, StoreAction),
    replies: Seq<StoreEvent>,
    ledgers: Seq<Seq<CheckIn>>,
    steps: int,
)
    requires
        nesting_invariant(ledger, registry, state.0, state.1),
        runs(ledger, registry, state, replies, ledgers),
        0 <= steps <= replies.len(),
    ensures
        nesting_invariant(
            ledger_at(ledger, ledgers, steps),
            registry,
            state_at(state, replies, steps).0,
            state_at(state, replies, steps).1,
        ),
    decreases steps,
{
    if steps > 0 {
        lemma_run_keeps_nesting(ledger, registry, state, replies, ledgers, steps - 1);
        let before = state_at(state, replies, steps - 1);
        assert(replies_to(
            ledger_at(ledger, ledgers, steps - 1),
            registry,
            before.1,
            replies[steps - 1],
            ledgers[steps - 1],
        ));
        law_step_keeps_nesting(
            ledger_at(ledger, ledgers, steps - 1),
            registry,
            before.0,
            before.1,
            replies[steps - 1],
            ledgers[steps - 1],
        );
    }
}

/// A break is never open outside an open shift, and never two of one user
/// at once. Where every open break lies inside an open shift of its user, no
/// user has two open breaks and no two records share an identifier before an
/// automatic punch, the same holds after each of its steps, however the store
/// answers, as long as nothing else changes the ledger while the punch runs.
/// A backfilled punch is not covered: it may start a break on a day whose
/// shift has ended.
pub proof fn law_breaks_stay_nested(
    ledger: Seq<CheckIn>,
    registry: Seq<ActionType>,
    request: PunchRequest,
    replies: Seq<StoreEvent>,
    ledgers: Seq<Seq<CheckIn>>,
)
    requires
        breaks_nested(ledger, registry),
        one_open_break(ledger, registry),
        unique_ids(ledger),
        !request.spec_is_manual(),
        runs(ledger, registry, opening(request), replies, ledgers),
    ensures
        forall|k: int|
            0 <= k < ledgers.len() ==> breaks_nested(#[trigger] ledgers[k], registry) && one_open_break(
                ledgers[k],
                registry,
            ) && unique_ids(ledgers[k]),
        breaks_nested(ledger_after(ledger, ledgers), registry),
        one_open_break(ledger_after(ledger, ledgers), registry),
{
    assert forall|k: int| 0 <= k < ledgers.len() implies breaks_nested(#[trigger] ledgers[k], registry)
        && one_open_break(ledgers[k], registry) && unique_ids(ledgers[k]) by {
        lemma_run_keeps_nesting(ledger, registry, opening(request), replies, ledgers, k + 1);
    }
    lemma_run_keeps_nesting(ledger, registry, opening(request), replies, ledgers, ledgers.len() as int);
}

} // verus!
