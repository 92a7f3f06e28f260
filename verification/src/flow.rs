//! One punch, step by step.
//!
//! The record store is outside this library, so a punch is a conversation:
//! the flow names what it needs from the store, the caller performs it and
//! hands back what the store replied, and the flow decides what comes next.
//! `create_check_in` and `create_manual_check_in` open the conversation,
//! `PunchFlow::advance` continues it, and `StoreAction::Finish` closes it.
//!
//! No lock spans the steps: two punches of one user that run at the same time
//! both read the state before either writes, and both may be admitted. A
//! caller that needs more must serialise the punches of a user itself.

use crate::clock::{format_time, civil_text, parse_time, parsed_time, storage_pattern, CivilTime, CompanyTime};
use crate::engine::{
    any_with_role, break_ran_over, check_manual_transition, check_transition, duration_since, end_is_early,
    find_pairing_start, first_match_from, has_role, judge_break, judge_end, judge_start, manual_verdict, measure_duration,
    pairing_start, standing_of, start_is_late, survey, transition_verdict, TransitionViolation, COMPANY_ZONE,
};
use crate::models::{ActionType, CheckIn, CheckInRequest, ManualCheckInRequest, TimeRule};
use crate::registry::{lookup, role_of, PunchStatus, Role};
use vstd::prelude::*;
use vstd::string::StringExecFns;

verus! {

/// The reply that a flow waited for when it failed.
#[derive(Clone, Copy, Debug, PartialEq, Eq, Structural)]
pub enum Stage {
    ActionType,
    Context,
    BreakRules,
    Insert,
    /// The flow was over already.
    Finished,
}

/// Why a punch was not recorded.
#[derive(Debug)]
pub enum PunchError {
    /// The store has no such action type, or it is switched off.
    ActionTypeNotFound,
    /// The action type carries a role code outside 1 to 4.
    InvalidActionRole,
    /// The punch is not admitted in the user's current state.
    IllegalStateTransition(TransitionViolation),
    /// An end punch found no start record to close.
    PairNotFound,
    /// The time of a backfilled punch cannot be read.
    InvalidTimestampFormat,
    /// The store failed, or replied with something that was not asked for
    /// (then without a detail).
    Upstream { stage: Stage, detail: Option<String> },
}

/// A record that the store is asked to keep. The store adds the identifier
/// and the time of creation.
#[derive(Debug)]
pub struct NewCheckIn {
    pub user_id: i32,
    pub action_type_id: i32,
    pub check_time: String,
    pub status: PunchStatus,
    pub is_late: bool,
    pub is_early_leave: bool,
    pub is_manual: bool,
    pub note: Option<String>,
    pub pair_check_in_id: Option<i32>,
    pub duration_minutes: Option<i32>,
}

/// What closing a start record changes in it: it becomes completed, points
/// at the end record, and carries the same duration.
#[derive(Clone, Copy, Debug, PartialEq, Eq, Structural)]
pub struct PairUpdate {
    /// The start record to change.
    pub id: i32,
    /// The end record that closes it.
    pub pair_check_in_id: i32,
    pub duration_minutes: Option<i32>,
}

/// The calendar day of a backfilled punch, from its first to its last second.
#[derive(Clone, Copy, Debug, PartialEq, Eq, Structural)]
pub struct DayWindow {
    pub from: CivilTime,
    pub to: CivilTime,
}

/// What a flow reads before it decides: the active rules of the action type,
/// the user's ongoing records and the whole registry; for a backfilled punch
/// the user's records of that day; for an automatic end punch the user's
/// ongoing records from before the punch.
#[derive(Clone, Copy, Debug, PartialEq, Eq, Structural)]
pub struct ContextQuery {
    pub user_id: i32,
    pub action_type_id: i32,
    pub day: Option<DayWindow>,
    pub unpaired_before: Option<CompanyTime>,
}

/// The store's reply to a `ContextQuery`. Lists of records are newest first;
/// a list that was not asked for is empty.
#[derive(Debug)]
pub struct PunchContext {
    pub rules: Vec<TimeRule>,
    pub ongoing: Vec<CheckIn>,
    pub registry: Vec<ActionType>,
    pub day_records: Vec<CheckIn>,
    pub unpaired: Vec<CheckIn>,
}

/// What the caller is to do next.
#[derive(Debug)]
pub enum StoreAction {
    /// Read the action type of this identifier.
    LoadActionType(i32),
    LoadContext(ContextQuery),
    /// Read the active rules of this action type.
    LoadBreakRules(i32),
    Insert(NewCheckIn),
    /// Change the start record. If the store fails here the punch still
    /// stands: report the failure to the flow and go on.
    CompletePair(PairUpdate),
    /// The punch is over: hand this to whoever asked for it.
    Finish(Result<CheckIn, PunchError>),
}

/// What the store replied.
#[derive(Debug)]
pub enum StoreEvent {
    ActionTypes(Vec<ActionType>),
    Context(PunchContext),
    Rules(Vec<TimeRule>),
    Inserted(CheckIn),
    Updated,
    Failed(String),
}

/// What was asked for: who punches what, the text of the time to store, and
/// the clock's reading for an automatic punch. A backfilled punch has no
/// clock reading: its time is read from the text.
#[derive(Debug)]
pub struct PunchRequest {
    pub user_id: i32,
    pub action_type_id: i32,
    pub check_time: String,
    pub note: Option<String>,
    pub clock: Option<CompanyTime>,
}

/// The start record that an end punch closes, and the minutes between them.
#[derive(Clone, Copy, Debug, PartialEq, Eq, Structural)]
pub struct PairPlan {
    pub start_id: i32,
    pub duration_minutes: Option<i32>,
}

/// A punch under way: what it waits for, and what it knows so far.
#[derive(Debug)]
pub enum PunchFlow {
    AwaitActionType { request: PunchRequest },
    AwaitContext { request: PunchRequest, role: Role, now: CompanyTime },
    AwaitBreakRules { record: NewCheckIn, start_id: i32, duration: i32 },
    /// `warning` holds the guard that a backfilled shift start passed over,
    /// if it did.
    AwaitInsert { pair: Option<PairPlan>, warning: Option<TransitionViolation> },
    AwaitUpdate { stored: CheckIn, update: PairUpdate },
    /// Over. `unreconciled` holds the change of the start record that the
    /// store did not confirm, if any: that record is still ongoing. `warning`
    /// holds the guard that a backfilled shift start passed over, if it did.
    Done { unreconciled: Option<PairUpdate>, warning: Option<TransitionViolation> },
}

impl Stage {
    /// How a failure of the store at this stage is announced.
    pub open spec fn spec_failure_prefix(self) -> Seq<char> {
        match self {
            Stage::ActionType => "Failed to get action type: "@,
            Stage::Context => "Failed to get check-ins: "@,
            Stage::BreakRules => "Failed to get time rules: "@,
            Stage::Insert => "Failed to create check-in: "@,
            Stage::Finished => "Check-in already finished: "@,
        }
    }

    pub fn failure_prefix(self) -> (text: &'static str)
        ensures
            text@ == self.spec_failure_prefix(),
    {
        match self {
            Stage::ActionType => "Failed to get action type: ",
            Stage::Context => "Failed to get check-ins: ",
            Stage::BreakRules => "Failed to get time rules: ",
            Stage::Insert => "Failed to create check-in: ",
            Stage::Finished => "Check-in already finished: ",
        }
    }
}

impl PunchError {
    /// What the user is told: for a failure of the store, the stage's
    /// announcement and then the store's own words, if it gave any.
    pub open spec fn spec_message(&self) -> Seq<char> {
        match self {
            PunchError::ActionTypeNotFound => "Action type not found"@,
            PunchError::InvalidActionRole => "未知的打卡类型"@,
            PunchError::IllegalStateTransition(violation) => violation.spec_message(),
            PunchError::PairNotFound => "未找到对应的开始记录"@,
            PunchError::InvalidTimestampFormat => "Invalid check time format"@,
            PunchError::Upstream { stage, detail } => stage.spec_failure_prefix() + match detail {
                Some(words) => words@,
                None => "unexpected reply"@,
            },
        }
    }

    pub fn message(&self) -> (text: String)
        ensures
            text@ == self.spec_message(),
    {
        match self {
            PunchError::ActionTypeNotFound => "Action type not found".to_owned(),
            PunchError::InvalidActionRole => "未知的打卡类型".to_owned(),
            PunchError::IllegalStateTransition(violation) => violation.message().to_owned(),
            PunchError::PairNotFound => "未找到对应的开始记录".to_owned(),
            PunchError::InvalidTimestampFormat => "Invalid check time format".to_owned(),
            PunchError::Upstream { stage, detail } => {
                let mut text = stage.failure_prefix().to_owned();
                match detail {
                    Some(words) => text.append(words.as_str()),
                    None => text.append("unexpected reply"),
                }
                text
            },
        }
    }
}

impl PunchRequest {
    /// The punch is backfilled: it has no clock reading.
    pub open spec fn spec_is_manual(&self) -> bool {
        self.clock is None
    }

    /// Whether the punch is backfilled.
    #[verifier::when_used_as_spec(spec_is_manual)]
    pub fn is_manual(&self) -> (manual: bool)
        ensures
            manual == self.spec_is_manual(),
    {
        self.clock.is_none()
    }

    /// The clock reading, if there is one, is one that the calendar knows.
    pub open spec fn wf(&self) -> bool {
        self.clock matches Some(now) ==> now.wf()
    }
}

impl PunchFlow {
    /// Every time that the flow holds is one that the calendar knows.
    pub open spec fn wf(&self) -> bool {
        match self {
            PunchFlow::AwaitActionType { request } => request.wf(),
            PunchFlow::AwaitContext { request, role, now } => now.wf(),
            _ => true,
        }
    }
}

impl ContextQuery {
    /// Every time in the query is one that the calendar knows.
    pub open spec fn wf(&self) -> bool {
        &&& self.day matches Some(window) ==> window.from.wf() && window.to.wf()
        &&& self.unpaired_before matches Some(before) ==> before.wf()
    }
}

/// The flow and the action with which a punch opens.
pub open spec fn opening(request: PunchRequest) -> (PunchFlow, StoreAction) {
    (PunchFlow::AwaitActionType { request }, StoreAction::LoadActionType(request.action_type_id))
}

/// The flow is over with an error.
pub open spec fn finish_with(error: PunchError) -> (PunchFlow, StoreAction) {
    (PunchFlow::Done { unreconciled: None, warning: None }, StoreAction::Finish(Err(error)))
}

/// The error for a reply that the flow could not use: the store's failure
/// with its detail, or a reply of the wrong kind without one.
pub open spec fn upstream(stage: Stage, event: StoreEvent) -> PunchError {
    PunchError::Upstream {
        stage,
        detail: match event {
            StoreEvent::Failed(detail) => Some(detail),
            _ => None,
        },
    }
}

/// The flow asks for the record to be stored.
pub open spec fn insert(record: NewCheckIn, pair: Option<PairPlan>, warning: Option<TransitionViolation>) -> (
    PunchFlow,
    StoreAction,
) {
    (PunchFlow::AwaitInsert { pair, warning }, StoreAction::Insert(record))
}

/// What the flow reads before it decides.
pub open spec fn context_query(request: PunchRequest, role: Role, now: CompanyTime) -> ContextQuery {
    ContextQuery {
        user_id: request.user_id,
        action_type_id: request.action_type_id,
        day: if request.spec_is_manual() {
            Some(DayWindow { from: now.spec_day_start(), to: now.spec_day_end() })
        } else {
            None
        },
        unpaired_before: if !request.spec_is_manual() && !role.spec_is_start() {
            Some(now)
        } else {
            None
        },
    }
}

/// The time of the punch: the clock's reading, or for a backfilled punch the
/// time that its text names in the company's zone.
pub open spec fn punch_time(request: PunchRequest) -> Option<CompanyTime> {
    match request.clock {
        Some(now) => Some(now),
        None => parsed_time(request.check_time@, COMPANY_ZONE@),
    }
}

/// After the action type was read: the punch fails where the store has no
/// such type or the type is switched off, where the time of a backfilled
/// punch cannot be read, and where the role code is unknown, in this order.
/// Otherwise the flow reads its context.
pub open spec fn resolve(request: PunchRequest, rows: Seq<ActionType>) -> (PunchFlow, StoreAction) {
    if rows.len() == 0 || !rows[0].is_active {
        finish_with(PunchError::ActionTypeNotFound)
    } else {
        match punch_time(request) {
            None => finish_with(PunchError::InvalidTimestampFormat),
            Some(now) => match Role::spec_from_code(rows[0].action_role) {
                None => finish_with(PunchError::InvalidActionRole),
                Some(role) => (
                    PunchFlow::AwaitContext { request, role, now },
                    StoreAction::LoadContext(context_query(request, role, now)),
                ),
            },
        }
    }
}

/// The record of a punch.
pub open spec fn record_for(
    request: PunchRequest,
    role: Role,
    is_late: bool,
    is_early_leave: bool,
    pair: Option<PairPlan>,
) -> NewCheckIn {
    NewCheckIn {
        user_id: request.user_id,
        action_type_id: request.action_type_id,
        check_time: request.check_time,
        status: role.spec_status(),
        is_late,
        is_early_leave,
        is_manual: request.spec_is_manual(),
        note: request.note,
        pair_check_in_id: match pair {
            Some(plan) => Some(plan.start_id),
            None => None,
        },
        duration_minutes: match pair {
            Some(plan) => plan.duration_minutes,
            None => None,
        },
    }
}

/// The guard that applies: for a backfilled punch the one on the records of
/// that day, otherwise the one on the ongoing records.
pub open spec fn admission(request: PunchRequest, role: Role, context: PunchContext) -> Option<
    TransitionViolation,
> {
    if request.spec_is_manual() {
        manual_verdict(role, any_with_role(context.day_records@, context.registry@, Role::MainStart))
    } else {
        transition_verdict(role, standing_of(context.ongoing@, context.registry@))
    }
}

/// The guard that a backfilled shift start passes over: a shift start while
/// some record is ongoing is admitted in backfill, and remarked upon.
pub open spec fn overlap_warning(request: PunchRequest, context: PunchContext) -> Option<TransitionViolation> {
    if request.spec_is_manual() {
        transition_verdict(Role::MainStart, standing_of(context.ongoing@, context.registry@))
    } else {
        None
    }
}

/// The past records in which a start may be looked for: none for a
/// backfilled punch.
pub open spec fn searchable_history(request: PunchRequest, context: PunchContext) -> Seq<CheckIn> {
    if request.spec_is_manual() {
        Seq::empty()
    } else {
        context.unpaired@
    }
}

/// After the context was read. A punch that its guard rejects fails with the
/// violation. A start punch is stored as ongoing; a shift start is judged for
/// lateness, and a backfilled one carries a warning where the user has an
/// ongoing record. An end punch fails where it finds no start to close; otherwise it
/// is stored as completed with the start's identifier and the minutes between
/// the two. Where the start's stored time cannot be read, the record has no
/// duration and is not judged. A shift end is judged for early leave; a break
/// end first reads the rules of the break that it closes.
pub open spec fn decide(request: PunchRequest, role: Role, now: CompanyTime, context: PunchContext) -> (
    PunchFlow,
    StoreAction,
) {
    match admission(request, role, context) {
        Some(violation) => finish_with(PunchError::IllegalStateTransition(violation)),
        None => match role {
            Role::MainStart => insert(
                record_for(request, role, start_is_late(now, context.rules@), false, None),
                None,
                overlap_warning(request, context),
            ),
            Role::BreakStart => insert(record_for(request, role, false, false, None), None, None),
            _ => match pairing_start(
                role,
                context.ongoing@,
                searchable_history(request, context),
                context.registry@,
            ) {
                None => finish_with(PunchError::PairNotFound),
                Some(start) => {
                    let plan = PairPlan { start_id: start.id, duration_minutes: duration_since(start, now) };
                    match (role, plan.duration_minutes) {
                        (Role::MainEnd, Some(_)) => insert(
                            record_for(request, role, false, end_is_early(now, context.rules@), Some(plan)),
                            Some(plan),
                            None,
                        ),
                        (Role::BreakEnd, Some(duration)) => (
                            PunchFlow::AwaitBreakRules {
                                record: record_for(request, role, false, false, Some(plan)),
                                start_id: start.id,
                                duration,
                            },
                            StoreAction::LoadBreakRules(start.action_type_id),
                        ),
                        _ => insert(record_for(request, role, false, false, Some(plan)), Some(plan), None),
                    }
                },
            },
        },
    }
}

/// After the record was stored: where it closes a start record, that record
/// is changed next; otherwise the punch is over.
pub open spec fn follow_up(stored: CheckIn, pair: Option<PairPlan>, warning: Option<TransitionViolation>) -> (
    PunchFlow,
    StoreAction,
) {
    match pair {
        None => (PunchFlow::Done { unreconciled: None, warning }, StoreAction::Finish(Ok(stored))),
        Some(plan) => {
            let update = PairUpdate {
                id: plan.start_id,
                pair_check_in_id: stored.id,
                duration_minutes: plan.duration_minutes,
            };
            (PunchFlow::AwaitUpdate { stored, update }, StoreAction::CompletePair(update))
        },
    }
}

/// The next state and action for a state and a reply. A failure of the store,
/// or a reply of the wrong kind, ends the punch with an error as long as
/// nothing was stored. Once the record is stored the punch succeeds whatever
/// becomes of the change to the start record.
pub open spec fn advance_spec(flow: PunchFlow, event: StoreEvent) -> (PunchFlow, StoreAction) {
    match flow {
        PunchFlow::AwaitActionType { request } => match event {
            StoreEvent::ActionTypes(rows) => resolve(request, rows@),
            _ => finish_with(upstream(Stage::ActionType, event)),
        },
        PunchFlow::AwaitContext { request, role, now } => match event {
            StoreEvent::Context(context) => decide(request, role, now, context),
            _ => finish_with(upstream(Stage::Context, event)),
        },
        PunchFlow::AwaitBreakRules { record, start_id, duration } => match event {
            StoreEvent::Rules(rules) => insert(
                NewCheckIn { is_late: break_ran_over(duration, rules@), ..record },
                Some(PairPlan { start_id, duration_minutes: Some(duration) }),
                None,
            ),
            _ => finish_with(upstream(Stage::BreakRules, event)),
        },
        PunchFlow::AwaitInsert { pair, warning } => match event {
            StoreEvent::Inserted(stored) => follow_up(stored, pair, warning),
            _ => finish_with(upstream(Stage::Insert, event)),
        },
        PunchFlow::AwaitUpdate { stored, update } => (
            PunchFlow::Done {
                unreconciled: if event is Updated {
                    None
                } else {
                    Some(update)
                },
                warning: None,
            },
            StoreAction::Finish(Ok(stored)),
        ),
        PunchFlow::Done { unreconciled, warning } => (
            flow,
            StoreAction::Finish(Err(upstream(Stage::Finished, event))),
        ),
    }
}

fn fail(error: PunchError) -> (next: (PunchFlow, StoreAction))
    ensures
        next == finish_with(error),
{
    (PunchFlow::Done { unreconciled: None, warning: None }, StoreAction::Finish(Err(error)))
}

fn unusable(stage: Stage, event: StoreEvent) -> (error: PunchError)
    ensures
        error == upstream(stage, event),
{
    let detail = match event {
        StoreEvent::Failed(detail) => Some(detail),
        _ => None,
    };
    PunchError::Upstream { stage, detail }
}

fn make_record(request: PunchRequest, role: Role, is_late: bool, is_early_leave: bool, pair: Option<PairPlan>) -> (record:
    NewCheckIn)
    ensures
        record == record_for(request, role, is_late, is_early_leave, pair),
{
    let is_manual = request.is_manual();
    let (pair_check_in_id, duration_minutes) = match pair {
        Some(plan) => (Some(plan.start_id), plan.duration_minutes),
        None => (None, None),
    };
    NewCheckIn {
        user_id: request.user_id,
        action_type_id: request.action_type_id,
        check_time: request.check_time,
        status: role.status(),
        is_late,
        is_early_leave,
        is_manual,
        note: request.note,
        pair_check_in_id,
        duration_minutes,
    }
}

fn store(record: NewCheckIn, pair: Option<PairPlan>, warning: Option<TransitionViolation>) -> (next: (
    PunchFlow,
    StoreAction,
))
    ensures
        next == insert(record, pair, warning),
{
    (PunchFlow::AwaitInsert { pair, warning }, StoreAction::Insert(record))
}

fn on_action_types(request: PunchRequest, rows: Vec<ActionType>) -> (next: (PunchFlow, StoreAction))
    ensures
        next == resolve(request, rows@),
        request.wf() ==> next.0.wf(),
        request.wf() ==> (next.1 matches StoreAction::LoadContext(query) ==> query.wf()),
{
    if rows.len() == 0 || !rows[0].is_active {
        return fail(PunchError::ActionTypeNotFound);
    }
    let time = match request.clock {
        Some(now) => Some(now),
        None => parse_time(request.check_time.as_str(), COMPANY_ZONE),
    };
    let now = match time {
        Some(now) => now,
        None => {
            return fail(PunchError::InvalidTimestampFormat);
        },
    };
    let role = match Role::from_code(rows[0].action_role) {
        Some(role) => role,
        None => {
            return fail(PunchError::InvalidActionRole);
        },
    };
    let manual = request.is_manual();
    let query = ContextQuery {
        user_id: request.user_id,
        action_type_id: request.action_type_id,
        day: if manual {
            Some(DayWindow { from: now.day_start(), to: now.day_end() })
        } else {
            None
        },
        unpaired_before: if !manual && !role.is_start() {
            Some(now)
        } else {
            None
        },
    };
    (PunchFlow::AwaitContext { request, role, now }, StoreAction::LoadContext(query))
}

fn on_context(request: PunchRequest, role: Role, now: CompanyTime, context: PunchContext) -> (next: (
    PunchFlow,
    StoreAction,
))
    ensures
        next == decide(request, role, now, context),
{
    let manual = request.is_manual();
    let verdict = if manual {
        check_manual_transition(role, has_role(&context.day_records, &context.registry, Role::MainStart))
    } else {
        check_transition(role, &survey(&context.ongoing, &context.registry))
    };
    match verdict {
        Err(violation) => {
            return fail(PunchError::IllegalStateTransition(violation));
        },
        Ok(_) => {},
    }
    match role {
        Role::MainStart => {
            let late = judge_start(&now, &context.rules);
            let warning = if manual {
                match check_transition(role, &survey(&context.ongoing, &context.registry)) {
                    Err(violation) => Some(violation),
                    Ok(_) => None,
                }
            } else {
                None
            };
            return store(make_record(request, role, late, false, None), None, warning);
        },
        Role::BreakStart => {
            return store(make_record(request, role, false, false, None), None, None);
        },
        _ => {},
    }
    let nothing: Vec<CheckIn> = Vec::new();
    let found = if manual {
        find_pairing_start(role, &context.ongoing, &nothing, &context.registry)
    } else {
        find_pairing_start(role, &context.ongoing, &context.unpaired, &context.registry)
    };
    let start = match found {
        Some(start) => start,
        None => {
            return fail(PunchError::PairNotFound);
        },
    };
    let plan = PairPlan { start_id: start.id, duration_minutes: measure_duration(start, &now) };
    match (role, plan.duration_minutes) {
        (Role::MainEnd, Some(_)) => {
            let early = judge_end(&now, &context.rules);
            store(make_record(request, role, false, early, Some(plan)), Some(plan), None)
        },
        (Role::BreakEnd, Some(duration)) => {
            let break_type = start.action_type_id;
            (
                PunchFlow::AwaitBreakRules {
                    record: make_record(request, role, false, false, Some(plan)),
                    start_id: plan.start_id,
                    duration,
                },
                StoreAction::LoadBreakRules(break_type),
            )
        },
        _ => store(make_record(request, role, false, false, Some(plan)), Some(plan), None),
    }
}

fn on_break_rules(record: NewCheckIn, start_id: i32, duration: i32, rules: Vec<TimeRule>) -> (next: (
    PunchFlow,
    StoreAction,
))
    ensures
        next == insert(
            NewCheckIn { is_late: break_ran_over(duration, rules@), ..record },
            Some(PairPlan { start_id, duration_minutes: Some(duration) }),
            None,
        ),
{
    let mut record = record;
    record.is_late = judge_break(duration, &rules);
    store(record, Some(PairPlan { start_id, duration_minutes: Some(duration) }), None)
}

fn on_inserted(stored: CheckIn, pair: Option<PairPlan>, warning: Option<TransitionViolation>) -> (next: (
    PunchFlow,
    StoreAction,
))
    ensures
        next == follow_up(stored, pair, warning),
{
    match pair {
        None => (PunchFlow::Done { unreconciled: None, warning }, StoreAction::Finish(Ok(stored))),
        Some(plan) => {
            let update = PairUpdate {
                id: plan.start_id,
                pair_check_in_id: stored.id,
                duration_minutes: plan.duration_minutes,
            };
            (PunchFlow::AwaitUpdate { stored, update }, StoreAction::CompletePair(update))
        },
    }
}

impl PunchFlow {
    /// Takes the store's reply and says what comes next.
    pub fn advance(self, event: StoreEvent) -> (next: (PunchFlow, StoreAction))
        ensures
            next == advance_spec(self, event),
            self.wf() ==> next.0.wf(),
            self.wf() ==> (next.1 matches StoreAction::LoadContext(query) ==> query.wf()),
    {
        match self {
            PunchFlow::AwaitActionType { request } => match event {
                StoreEvent::ActionTypes(rows) => on_action_types(request, rows),
                other => fail(unusable(Stage::ActionType, other)),
            },
            PunchFlow::AwaitContext { request, role, now } => match event {
                StoreEvent::Context(context) => on_context(request, role, now, context),
                other => fail(unusable(Stage::Context, other)),
            },
            PunchFlow::AwaitBreakRules { record, start_id, duration } => match event {
                StoreEvent::Rules(rules) => on_break_rules(record, start_id, duration, rules),
                other => fail(unusable(Stage::BreakRules, other)),
            },
            PunchFlow::AwaitInsert { pair, warning } => match event {
                StoreEvent::Inserted(stored) => on_inserted(stored, pair, warning),
                other => fail(unusable(Stage::Insert, other)),
            },
            PunchFlow::AwaitUpdate { stored, update } => {
                let unreconciled = match event {
                    StoreEvent::Updated => None,
                    _ => Some(update),
                };
                (PunchFlow::Done { unreconciled, warning: None }, StoreAction::Finish(Ok(stored)))
            },
            PunchFlow::Done { unreconciled, warning } => (
                PunchFlow::Done { unreconciled, warning },
                StoreAction::Finish(Err(unusable(Stage::Finished, event))),
            ),
        }
    }
}

/// Opens an automatic punch at the clock's reading `now`. The text of the
/// time to store is chrono's, to the second.
pub fn create_check_in(request: &CheckInRequest, now: CompanyTime) -> (next: (PunchFlow, StoreAction))
    requires
        now.wf(),
    ensures
        next.0 matches PunchFlow::AwaitActionType { request: opened } && {
            &&& next == opening(opened)
            &&& opened.user_id == request.user_id
            &&& opened.action_type_id == request.action_type_id
            &&& opened.check_time@ == civil_text(now.local, storage_pattern())
            &&& opened.note is None
            &&& opened.clock == Some(now)
        },
        next.0.wf(),
{
    let opened = PunchRequest {
        user_id: request.user_id,
        action_type_id: request.action_type_id,
        check_time: format_time(&now),
        note: None,
        clock: Some(now),
    };
    (PunchFlow::AwaitActionType { request: opened }, StoreAction::LoadActionType(request.action_type_id))
}

/// Opens a backfilled punch. Its time is stored as given, and read once the
/// action type is known.
pub fn create_manual_check_in(request: ManualCheckInRequest) -> (next: (PunchFlow, StoreAction))
    ensures
        next == opening(
            PunchRequest {
                user_id: request.user_id,
                action_type_id: request.action_type_id,
                check_time: request.check_time,
                note: request.note,
                clock: None,
            },
        ),
        next.0.wf(),
{
    let action_type_id = request.action_type_id;
    let opened = PunchRequest {
        user_id: request.user_id,
        action_type_id,
        check_time: request.check_time,
        note: request.note,
        clock: None,
    };
    (PunchFlow::AwaitActionType { request: opened }, StoreAction::LoadActionType(action_type_id))
}

/// A shift end with no open shift fails. An automatic one is rejected as an
/// illegal transition, because no shift is open. A backfilled one is rejected
/// as an illegal transition where the day has no shift start, and otherwise
/// fails because it finds no start record to close.
pub proof fn law_shift_end_needs_open_shift(request: PunchRequest, now: CompanyTime, context: PunchContext)
    requires
        !any_with_role(context.ongoing@, context.registry@, Role::MainStart),
    ensures
        !request.spec_is_manual() ==> decide(request, Role::MainEnd, now, context) == finish_with(
            PunchError::IllegalStateTransition(TransitionViolation::NoOpenShift),
        ),
        request.spec_is_manual() ==> decide(request, Role::MainEnd, now, context) == finish_with(
            PunchError::IllegalStateTransition(TransitionViolation::NoShiftThatDay),
        ) || decide(request, Role::MainEnd, now, context) == finish_with(PunchError::PairNotFound),
{
    if request.spec_is_manual() {
        lemma_no_match_without_role(context.ongoing@, context.registry@, Role::MainStart, false, 0);
        lemma_no_match_without_role(Seq::<CheckIn>::empty(), context.registry@, Role::MainStart, true, 0);
    }
}

/// A break start with no open shift fails, and so does a second break start
/// while a break is open: an automatic break start is rejected as an illegal
/// transition in both cases.
pub proof fn law_break_start_guards(request: PunchRequest, now: CompanyTime, context: PunchContext)
    requires
        !request.spec_is_manual(),
    ensures
        !any_with_role(context.ongoing@, context.registry@, Role::MainStart) ==> decide(
            request,
            Role::BreakStart,
            now,
            context,
        ) == finish_with(PunchError::IllegalStateTransition(TransitionViolation::ShiftNotStarted)),
        any_with_role(context.ongoing@, context.registry@, Role::MainStart) && any_with_role(
            context.ongoing@,
            context.registry@,
            Role::BreakStart,
        ) ==> decide(request, Role::BreakStart, now, context) == finish_with(
            PunchError::IllegalStateTransition(TransitionViolation::BreakAlreadyOpen),
        ),
{
}

/// A break end is late exactly where the break took more minutes than the
/// rule of the break allows: with the rules of the break read, the record to
/// store has `is_late` set where the first rule has a longest duration and
/// the break exceeded it, and not otherwise.
pub proof fn law_break_end_is_late_iff_over(record: NewCheckIn, start_id: i32, duration: i32, rules: Vec<TimeRule>)
    ensures
        advance_spec(PunchFlow::AwaitBreakRules { record, start_id, duration }, StoreEvent::Rules(rules)).1
            matches StoreAction::Insert(stored) && stored.is_late == (rules@.len() > 0 && (
        rules@[0].max_duration_minutes matches Some(longest) && duration > longest)),
{
}

/// The record that an end punch is stored with: completed, pointing at the
/// start that `pairing_start` finds, with the minutes since that start.
pub open spec fn closes_start(record: NewCheckIn, start: CheckIn, now: CompanyTime) -> bool {
    &&& record.status == PunchStatus::Completed
    &&& record.pair_check_in_id == Some(start.id)
    &&& record.duration_minutes == duration_since(start, now)
}

/// Every end record points at the start record that it closes. Whatever an
/// end punch goes on to store, at once or after reading the rules of the
/// break, is completed, carries the identifier of the start record that the
/// pairing search found, and the minutes since that start; and the change
/// that the flow asks for afterwards is aimed at that start record, points
/// back at the stored end record, and carries the same minutes.
pub proof fn law_end_record_points_at_start(
    request: PunchRequest,
    role: Role,
    now: CompanyTime,
    context: PunchContext,
    rules: Vec<TimeRule>,
    stored: CheckIn,
)
    requires
        !role.spec_is_start(),
    ensures
        ({
            let decided = decide(request, role, now, context);
            let start = pairing_start(
                role,
                context.ongoing@,
                searchable_history(request, context),
                context.registry@,
            );
            let to_store = if decided.0 is AwaitBreakRules {
                advance_spec(decided.0, StoreEvent::Rules(rules))
            } else {
                decided
            };
            to_store.1 matches StoreAction::Insert(record) ==> {
                &&& start matches Some(found)
                &&& closes_start(record, found, now)
                &&& advance_spec(to_store.0, StoreEvent::Inserted(stored)).1 == StoreAction::CompletePair(
                    PairUpdate {
                        id: found.id,
                        pair_check_in_id: stored.id,
                        duration_minutes: record.duration_minutes,
                    },
                )
            }
        }),
{
}

/// A break end closes the open break. Where the newest ongoing record is a
/// break start, an automatic break end is admitted and closes that record:
/// what it goes on to store is completed and points at it.
pub proof fn law_break_end_closes_newest_break(
    request: PunchRequest,
    now: CompanyTime,
    context: PunchContext,
    rules: Vec<TimeRule>,
)
    requires
        !request.spec_is_manual(),
        context.ongoing@.len() > 0,
        role_of(context.registry@, context.ongoing@[0].action_type_id) == Some(Role::BreakStart),
    ensures
        ({
            let decided = decide(request, Role::BreakEnd, now, context);
            let to_store = if decided.0 is AwaitBreakRules {
                advance_spec(decided.0, StoreEvent::Rules(rules))
            } else {
                decided
            };
            to_store.1 matches StoreAction::Insert(record) && closes_start(record, context.ongoing@[0], now)
        }),
{
    reveal_with_fuel(first_match_from, 2);
    assert(lookup(context.registry@, context.ongoing@[0].action_type_id) is Some);
}

/// Each flag belongs to one role. Only a shift start or a break end is ever
/// stored as late, and only a shift end as an early leave: a shift start is
/// late by its expected start, a break end by the longest duration of the
/// break, and nothing else sets the flags.
pub proof fn law_flags_belong_to_roles(
    request: PunchRequest,
    role: Role,
    now: CompanyTime,
    context: PunchContext,
    rules: Vec<TimeRule>,
)
    ensures
        ({
            let decided = decide(request, role, now, context);
            let to_store = if decided.0 is AwaitBreakRules {
                advance_spec(decided.0, StoreEvent::Rules(rules))
            } else {
                decided
            };
            to_store.1 matches StoreAction::Insert(record) ==> {
                &&& record.is_late ==> role == Role::MainStart || role == Role::BreakEnd
                &&& record.is_early_leave ==> role == Role::MainEnd
                &&& role == Role::MainStart ==> record.is_late == start_is_late(now, context.rules@)
                &&& role == Role::MainEnd ==> record.is_early_leave == (record.duration_minutes is Some
                    && end_is_early(now, context.rules@))
                &&& role == Role::BreakEnd ==> record.is_late == (record.duration_minutes matches Some(minutes)
                    && break_ran_over(minutes, rules@))
            }
        }),
{
}

/// Where no record of a list plays a role, no record of it can be closed as
/// one of that role.
pub proof fn lemma_no_match_without_role(
    records: Seq<CheckIn>,
    registry: Seq<ActionType>,
    opener: Role,
    unpaired_only: bool,
    from: int,
)
    requires
        !any_with_role(records, registry, opener),
        0 <= from,
    ensures
        first_match_from(records, registry, opener, unpaired_only, from) is None,
    decreases records.len() - from,
{
    if from < records.len() {
        assert(role_of(registry, records[from].action_type_id) != Some(opener));
        lemma_no_match_without_role(records, registry, opener, unpaired_only, from + 1);
    }
}

} // verus!
