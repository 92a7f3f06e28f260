use attendance::checkin::{
    action_type_query, active_rules_query, get_action_types, get_time_rules, get_today_check_ins,
    list_open_and_today, ongoing_query, registry_query, update_check_in,
};
use attendance::clock::{parse_time, CivilTime};
use attendance::flow::{create_check_in, create_manual_check_in, ContextQuery, StoreAction, StoreEvent};
use attendance::models::{ActionType, CheckIn, CheckInRequest, ManualCheckInRequest, UpdateCheckInRequest};
use attendance::registry::PunchStatus;
use attendance::store::{Collection, Column, Comparison, Direction, Operand, Query};

fn record(id: i32) -> CheckIn {
    CheckIn {
        id,
        user_id: 7,
        action_type_id: 1,
        check_time: String::new(),
        status: "ongoing".to_string(),
        pair_check_in_id: None,
        duration_minutes: None,
        note: None,
        is_late: false,
        is_early_leave: false,
        is_manual: false,
        created_at: String::new(),
    }
}

fn kind(id: i32, role: i32) -> ActionType {
    ActionType {
        id,
        name: String::new(),
        button_text: String::new(),
        button_color: String::new(),
        display_order: 0,
        action_role: role,
        requires_pair: false,
        pair_action_id: None,
        is_active: true,
        created_at: String::new(),
    }
}

fn shape(query: &Query) -> Vec<(Column, Comparison)> {
    query.predicates.iter().map(|p| (p.column, p.comparison)).collect()
}

fn newest_first(query: &Query) -> bool {
    query.sort.map(|s| (s.column, s.direction)) == Some((Column::CheckTime, Direction::Descending))
}

/// The context query that a punch of this role asks for.
fn context_query(role: i32, backfilled: Option<&str>) -> ContextQuery {
    let opened = match backfilled {
        Some(time) => create_manual_check_in(ManualCheckInRequest {
            user_id: 7,
            action_type_id: 1,
            check_time: time.to_string(),
            note: None,
        }),
        None => create_check_in(
            &CheckInRequest { user_id: 7, action_type_id: 1 },
            parse_time("2024-03-05 17:00:00", "Asia/Phnom_Penh").unwrap(),
        ),
    };
    match opened.0.advance(StoreEvent::ActionTypes(vec![kind(1, role)])).1 {
        StoreAction::LoadContext(query) => query,
        other => panic!("expected a context query, got {:?}", other),
    }
}

#[test]
fn ongoing_records_are_asked_for_whatever_their_day() {
    let query = ongoing_query(7);
    assert_eq!(query.collection, Collection::CheckIns);
    assert_eq!(shape(&query), vec![(Column::UserId, Comparison::Equal), (Column::Status, Comparison::Equal)]);
    assert!(matches!(query.predicates[0].operand, Operand::Number(7)));
    assert!(matches!(query.predicates[1].operand, Operand::Status(PunchStatus::Ongoing)));
    assert!(newest_first(&query));
}

#[test]
fn rules_and_types_are_asked_for_by_identifier() {
    let query = action_type_query(3);
    assert_eq!(query.collection, Collection::ActionTypes);
    assert_eq!(shape(&query), vec![(Column::Id, Comparison::Equal)]);
    assert!(matches!(query.predicates[0].operand, Operand::Number(3)));
    let query = active_rules_query(3);
    assert_eq!(query.collection, Collection::TimeRules);
    assert_eq!(shape(&query), vec![(Column::ActionTypeId, Comparison::Equal), (Column::IsActive, Comparison::Equal)]);
    assert!(matches!(query.predicates[1].operand, Operand::Flag(true)));
    let query = registry_query();
    assert_eq!(query.collection, Collection::ActionTypes);
    assert!(query.predicates.is_empty() && query.sort.is_none());
}

#[test]
fn an_automatic_start_reads_no_history_and_no_day() {
    let query = context_query(1, None);
    assert_eq!((query.user_id, query.action_type_id), (7, 1));
    assert!(query.day_query().is_none());
    assert!(query.unpaired_query().is_none());
}

#[test]
fn an_automatic_end_reads_the_ongoing_records_from_before() {
    let query = context_query(2, None);
    assert!(query.day_query().is_none());
    let unpaired = query.unpaired_query().unwrap();
    assert_eq!(unpaired.collection, Collection::CheckIns);
    assert_eq!(
        shape(&unpaired),
        vec![(Column::UserId, Comparison::Equal), (Column::Status, Comparison::Equal), (Column::CheckTime, Comparison::Less)]
    );
    let bound = CivilTime { year: 2024, month: 3, day: 5, second_of_day: 17 * 3600, nanos: 0 };
    assert!(matches!(unpaired.predicates[2].operand, Operand::StoredTime(t) if t == bound));
    assert!(newest_first(&unpaired));
}

#[test]
fn a_backfilled_punch_reads_its_day() {
    let query = context_query(2, Some("2024-03-05 17:00:00"));
    assert!(query.unpaired_query().is_none());
    let day = query.day_query().unwrap();
    assert_eq!(
        shape(&day),
        vec![
            (Column::UserId, Comparison::Equal),
            (Column::CheckTime, Comparison::GreaterOrEqual),
            (Column::CheckTime, Comparison::LessOrEqual),
        ]
    );
    let midnight = CivilTime { year: 2024, month: 3, day: 5, second_of_day: 0, nanos: 0 };
    assert!(matches!(day.predicates[1].operand, Operand::BoundTime(t) if t == midnight));
    let last = CivilTime { second_of_day: 86_399, ..midnight };
    assert!(matches!(day.predicates[2].operand, Operand::BoundTime(t) if t == last));
    assert!(day.sort.is_none());
}

#[test]
fn the_day_list_is_read_from_midnight() {
    let now = parse_time("2024-03-05 17:00:00", "Asia/Phnom_Penh").unwrap();
    let queries = get_today_check_ins(7, &now);
    let midnight = CivilTime { year: 2024, month: 3, day: 5, second_of_day: 0, nanos: 0 };
    assert_eq!(
        shape(&queries.still_open),
        vec![(Column::UserId, Comparison::Equal), (Column::Status, Comparison::Equal), (Column::CheckTime, Comparison::Less)]
    );
    assert!(matches!(queries.still_open.predicates[2].operand, Operand::StoredTime(t) if t == midnight));
    assert_eq!(
        shape(&queries.today),
        vec![(Column::UserId, Comparison::Equal), (Column::CheckTime, Comparison::GreaterOrEqual)]
    );
    assert!(matches!(queries.today.predicates[1].operand, Operand::StoredTime(t) if t == midnight));
    assert!(newest_first(&queries.still_open) && newest_first(&queries.today));
}

#[test]
fn the_day_list_puts_what_is_still_open_first() {
    let list = list_open_and_today(vec![record(3), record(2)], vec![record(9), record(8), record(7)]);
    assert_eq!(list.iter().map(|r| r.id).collect::<Vec<_>>(), vec![3, 2, 9, 8, 7]);
    assert!(list_open_and_today(vec![], vec![]).is_empty());
    assert_eq!(list_open_and_today(vec![], vec![record(1)]).len(), 1);
}

#[test]
fn lists_of_types_and_rules_hold_what_is_switched_on() {
    let kinds = get_action_types();
    assert_eq!(kinds.collection, Collection::ActionTypes);
    assert_eq!(shape(&kinds), vec![(Column::IsActive, Comparison::Equal)]);
    assert_eq!(kinds.sort.map(|s| (s.column, s.direction)), Some((Column::DisplayOrder, Direction::Ascending)));
    let rules = get_time_rules();
    assert_eq!(rules.collection, Collection::TimeRules);
    assert_eq!(shape(&rules), vec![(Column::IsActive, Comparison::Equal)]);
    assert!(rules.sort.is_none());
}

#[test]
fn a_correction_is_aimed_at_its_record() {
    let request = UpdateCheckInRequest { check_in_id: 44, is_late: Some(false), is_early_leave: None, note: None };
    let query = update_check_in(&request);
    assert_eq!(query.collection, Collection::CheckIns);
    assert_eq!(shape(&query), vec![(Column::Id, Comparison::Equal)]);
    assert!(matches!(query.predicates[0].operand, Operand::Number(44)));
}
