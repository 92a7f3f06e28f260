//! What a punch reads from the store, and the day's list of a user.

use crate::clock::{CivilTime, CompanyTime};
use crate::flow::ContextQuery;
use crate::models::{CheckIn, UpdateCheckInRequest};
use crate::registry::PunchStatus;
use crate::store::{
    asks, flag_set, newest_first, number_is, still_ongoing, Collection, Column, Comparison, Direction, Operand,
    Predicate, Query, Sort,
};
use vstd::prelude::*;

verus! {

/// The check time lies in the comparison to a time with the letter T.
pub open spec fn check_time_bound(comparison: Comparison, time: CivilTime) -> Predicate {
    Predicate { column: Column::CheckTime, comparison, operand: Operand::BoundTime(time) }
}

/// The check time lies in the comparison to a time in the stored form.
pub open spec fn check_time_stored(comparison: Comparison, time: CivilTime) -> Predicate {
    Predicate { column: Column::CheckTime, comparison, operand: Operand::StoredTime(time) }
}

/// The action type of an identifier.
pub fn action_type_query(id: i32) -> (query: Query)
    ensures
        asks(query, Collection::ActionTypes, seq![number_is(Column::Id, id)], None),
{
    Query::all(Collection::ActionTypes).and(Column::Id, Comparison::Equal, Operand::Number(id))
}

/// The rules of an action type that are switched on.
pub fn active_rules_query(action_type_id: i32) -> (query: Query)
    ensures
        asks(
            query,
            Collection::TimeRules,
            seq![number_is(Column::ActionTypeId, action_type_id), flag_set(Column::IsActive)],
            None,
        ),
{
    Query::all(Collection::TimeRules).and(
        Column::ActionTypeId,
        Comparison::Equal,
        Operand::Number(action_type_id),
    ).and(Column::IsActive, Comparison::Equal, Operand::Flag(true))
}

/// The ongoing records of a user, whatever day they are from, newest first.
pub fn ongoing_query(user_id: i32) -> (query: Query)
    ensures
        asks(
            query,
            Collection::CheckIns,
            seq![number_is(Column::UserId, user_id), still_ongoing()],
            Some(newest_first()),
        ),
{
    Query::all(Collection::CheckIns).and(Column::UserId, Comparison::Equal, Operand::Number(user_id)).and(
        Column::Status,
        Comparison::Equal,
        Operand::Status(PunchStatus::Ongoing),
    ).sorted(Column::CheckTime, Direction::Descending)
}

/// The whole registry of action types.
pub fn registry_query() -> (query: Query)
    ensures
        asks(query, Collection::ActionTypes, Seq::<Predicate>::empty(), None),
{
    Query::all(Collection::ActionTypes)
}

impl ContextQuery {
    /// The user's records of the backfilled day, where one is asked for.
    pub fn day_query(&self) -> (query: Option<Query>)
        ensures
            match self.day {
                Some(window) => query matches Some(q) && asks(
                    q,
                    Collection::CheckIns,
                    seq![
                        number_is(Column::UserId, self.user_id),
                        check_time_bound(Comparison::GreaterOrEqual, window.from),
                        check_time_bound(Comparison::LessOrEqual, window.to),
                    ],
                    None,
                ) && (self.wf() ==> q.wf()),
                None => query is None,
            },
    {
        match self.day {
            Some(window) => Some(
                Query::all(Collection::CheckIns).and(
                    Column::UserId,
                    Comparison::Equal,
                    Operand::Number(self.user_id),
                ).and(Column::CheckTime, Comparison::GreaterOrEqual, Operand::BoundTime(window.from)).and(
                    Column::CheckTime,
                    Comparison::LessOrEqual,
                    Operand::BoundTime(window.to),
                ),
            ),
            None => None,
        }
    }

    /// The user's ongoing records from before the punch, newest first, where
    /// they are asked for.
    pub fn unpaired_query(&self) -> (query: Option<Query>)
        ensures
            match self.unpaired_before {
                Some(before) => query matches Some(q) && asks(
                    q,
                    Collection::CheckIns,
                    seq![
                        number_is(Column::UserId, self.user_id),
                        still_ongoing(),
                        check_time_stored(Comparison::Less, before.local),
                    ],
                    Some(newest_first()),
                ) && (self.wf() ==> q.wf()),
                None => query is None,
            },
    {
        match self.unpaired_before {
            Some(before) => Some(
                Query::all(Collection::CheckIns).and(
                    Column::UserId,
                    Comparison::Equal,
                    Operand::Number(self.user_id),
                ).and(Column::Status, Comparison::Equal, Operand::Status(PunchStatus::Ongoing)).and(
                    Column::CheckTime,
                    Comparison::Less,
                    Operand::StoredTime(before.local),
                ).sorted(Column::CheckTime, Direction::Descending),
            ),
            None => None,
        }
    }
}

/// What the day's list of a user is read with.
#[derive(Debug)]
pub struct TodayQueries {
    /// The ongoing records from before today: a shift may still be open from
    /// yesterday.
    pub still_open: Query,
    /// The records from today's first second on.
    pub today: Query,
}

/// The queries for the day's list of a user at the clock's reading `now`,
/// both newest first.
pub fn get_today_check_ins(user_id: i32, now: &CompanyTime) -> (queries: TodayQueries)
    ensures
        asks(
            queries.still_open,
            Collection::CheckIns,
            seq![
                number_is(Column::UserId, user_id),
                still_ongoing(),
                check_time_stored(Comparison::Less, now.spec_day_start()),
            ],
            Some(newest_first()),
        ),
        asks(
            queries.today,
            Collection::CheckIns,
            seq![
                number_is(Column::UserId, user_id),
                check_time_stored(Comparison::GreaterOrEqual, now.spec_day_start()),
            ],
            Some(newest_first()),
        ),
        now.wf() ==> queries.still_open.wf() && queries.today.wf(),
{
    let midnight = now.day_start();
    let still_open = Query::all(Collection::CheckIns).and(
        Column::UserId,
        Comparison::Equal,
        Operand::Number(user_id),
    ).and(Column::Status, Comparison::Equal, Operand::Status(PunchStatus::Ongoing)).and(
        Column::CheckTime,
        Comparison::Less,
        Operand::StoredTime(midnight),
    ).sorted(Column::CheckTime, Direction::Descending);
    let today = Query::all(Collection::CheckIns).and(
        Column::UserId,
        Comparison::Equal,
        Operand::Number(user_id),
    ).and(Column::CheckTime, Comparison::GreaterOrEqual, Operand::StoredTime(midnight)).sorted(
        Column::CheckTime,
        Direction::Descending,
    );
    TodayQueries { still_open, today }
}

/// The day's list: the records still open from before today, then today's
/// records, each part in the order in which the store gave it.
pub fn list_open_and_today(still_open: Vec<CheckIn>, today: Vec<CheckIn>) -> (list: Vec<CheckIn>)
    ensures
        list@ == still_open@ + today@,
{
    let mut list = still_open;
    let mut rest = today;
    list.append(&mut rest);
    list
}

/// The action types that are switched on, in display order.
pub fn get_action_types() -> (query: Query)
    ensures
        asks(
            query,
            Collection::ActionTypes,
            seq![flag_set(Column::IsActive)],
            Some(Sort { column: Column::DisplayOrder, direction: Direction::Ascending }),
        ),
{
    Query::all(Collection::ActionTypes).and(Column::IsActive, Comparison::Equal, Operand::Flag(true)).sorted(
        Column::DisplayOrder,
        Direction::Ascending,
    )
}

/// The time rules that are switched on.
pub fn get_time_rules() -> (query: Query)
    ensures
        asks(query, Collection::TimeRules, seq![flag_set(Column::IsActive)], None),
{
    Query::all(Collection::TimeRules).and(Column::IsActive, Comparison::Equal, Operand::Flag(true))
}

/// The record that a correction changes.
pub fn update_check_in(request: &UpdateCheckInRequest) -> (query: Query)
    ensures
        asks(query, Collection::CheckIns, seq![number_is(Column::Id, request.check_in_id)], None),
{
    Query::all(Collection::CheckIns).and(Column::Id, Comparison::Equal, Operand::Number(request.check_in_id))
}

} // verus!
