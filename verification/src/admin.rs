//! Administration: the lists of users, action types and time rules, and what
//! a new action type or time rule is stored with.

use crate::engine::COMPANY_ZONE;
use crate::models::{CreateActionTypeRequest, CreateTimeRuleRequest};
use crate::store::{asks, number_is, Collection, Column, Comparison, Direction, Operand, Predicate, Query, Sort};
use vstd::prelude::*;

verus! {

/// An action type that the store is asked to keep.
#[derive(Debug)]
pub struct NewActionType {
    pub name: String,
    pub button_text: String,
    pub button_color: String,
    pub display_order: i32,
    pub action_role: i32,
    pub requires_pair: bool,
    pub pair_action_id: Option<i32>,
    pub is_active: bool,
}

/// A time rule that the store is asked to keep.
#[derive(Debug)]
pub struct NewTimeRule {
    pub rule_name: String,
    pub action_type_id: i32,
    pub timezone: String,
    pub is_active: bool,
    pub expected_start_time: Option<String>,
    pub expected_end_time: Option<String>,
    pub max_duration_minutes: Option<i32>,
}

/// The display order of an action type that names none.
pub const DEFAULT_DISPLAY_ORDER: i32 = 100;

/// All users, by identifier.
pub fn get_all_users() -> (query: Query)
    ensures
        asks(
            query,
            Collection::Users,
            Seq::<Predicate>::empty(),
            Some(Sort { column: Column::Id, direction: Direction::Ascending }),
        ),
{
    Query::all(Collection::Users).sorted(Column::Id, Direction::Ascending)
}

/// All action types, switched on or off, in display order.
pub fn get_all_action_types() -> (query: Query)
    ensures
        asks(
            query,
            Collection::ActionTypes,
            Seq::<Predicate>::empty(),
            Some(Sort { column: Column::DisplayOrder, direction: Direction::Ascending }),
        ),
{
    Query::all(Collection::ActionTypes).sorted(Column::DisplayOrder, Direction::Ascending)
}

/// All time rules, switched on or off, by identifier.
pub fn get_all_time_rules() -> (query: Query)
    ensures
        asks(
            query,
            Collection::TimeRules,
            Seq::<Predicate>::empty(),
            Some(Sort { column: Column::Id, direction: Direction::Ascending }),
        ),
{
    Query::all(Collection::TimeRules).sorted(Column::Id, Direction::Ascending)
}

/// The row of a collection that an update or a removal is aimed at.
pub fn row_by_id(collection: Collection, id: i32) -> (query: Query)
    ensures
        asks(query, collection, seq![number_is(Column::Id, id)], None),
{
    Query::all(collection).and(Column::Id, Comparison::Equal, Operand::Number(id))
}

/// A new action type: as asked for, switched on, and at display order 100
/// where none is named.
pub fn create_action_type(request: CreateActionTypeRequest) -> (new: NewActionType)
    ensures
        new == (NewActionType {
            name: request.name,
            button_text: request.button_text,
            button_color: request.button_color,
            display_order: match request.display_order {
                Some(order) => order,
                None => DEFAULT_DISPLAY_ORDER,
            },
            action_role: request.action_role,
            requires_pair: request.requires_pair,
            pair_action_id: request.pair_action_id,
            is_active: true,
        }),
{
    let display_order = match request.display_order {
        Some(order) => order,
        None => DEFAULT_DISPLAY_ORDER,
    };
    NewActionType {
        name: request.name,
        button_text: request.button_text,
        button_color: request.button_color,
        display_order,
        action_role: request.action_role,
        requires_pair: request.requires_pair,
        pair_action_id: request.pair_action_id,
        is_active: true,
    }
}

/// A new time rule: as asked for, switched on, and in the company's zone
/// where none is named.
pub fn create_time_rule(request: CreateTimeRuleRequest) -> (new: NewTimeRule)
    ensures
        new.rule_name == request.rule_name,
        new.action_type_id == request.action_type_id,
        new.timezone@ == match request.timezone {
            Some(zone) => zone@,
            None => COMPANY_ZONE@,
        },
        new.is_active,
        new.expected_start_time == request.expected_start_time,
        new.expected_end_time == request.expected_end_time,
        new.max_duration_minutes == request.max_duration_minutes,
{
    let timezone = match request.timezone {
        Some(zone) => zone,
        None => COMPANY_ZONE.to_owned(),
    };
    NewTimeRule {
        rule_name: request.rule_name,
        action_type_id: request.action_type_id,
        timezone,
        is_active: true,
        expected_start_time: request.expected_start_time,
        expected_end_time: request.expected_end_time,
        max_duration_minutes: request.max_duration_minutes,
    }
}

} // verus!
