use attendance::admin::{
    create_action_type, create_time_rule, get_all_action_types, get_all_time_rules, get_all_users, row_by_id,
};
use attendance::models::{CreateActionTypeRequest, CreateTimeRuleRequest};
use attendance::store::{Collection, Column, Comparison, Direction, Operand};

fn action_type_request(order: Option<i32>) -> CreateActionTypeRequest {
    CreateActionTypeRequest {
        name: "lunch".into(),
        button_text: "Lunch".into(),
        button_color: "#fff".into(),
        display_order: order,
        action_role: 3,
        requires_pair: true,
        pair_action_id: Some(4),
    }
}

fn rule_request(zone: Option<&str>) -> CreateTimeRuleRequest {
    CreateTimeRuleRequest {
        rule_name: "day shift".into(),
        action_type_id: 1,
        expected_start_time: Some("08:00:00".into()),
        expected_end_time: None,
        max_duration_minutes: Some(60),
        timezone: zone.map(str::to_string),
    }
}

#[test]
fn new_action_type_is_switched_on_at_order_100() {
    let new = create_action_type(action_type_request(None));
    assert_eq!(new.display_order, 100);
    assert!(new.is_active);
    assert_eq!((new.name.as_str(), new.button_text.as_str(), new.button_color.as_str()), ("lunch", "Lunch", "#fff"));
    assert_eq!((new.action_role, new.requires_pair, new.pair_action_id), (3, true, Some(4)));
    assert_eq!(create_action_type(action_type_request(Some(7))).display_order, 7);
}

#[test]
fn new_time_rule_is_in_the_company_zone_unless_told() {
    let new = create_time_rule(rule_request(None));
    assert_eq!(new.timezone, "Asia/Phnom_Penh");
    assert!(new.is_active);
    assert_eq!(new.rule_name, "day shift");
    assert_eq!(new.action_type_id, 1);
    assert_eq!(new.expected_start_time.as_deref(), Some("08:00:00"));
    assert_eq!(new.expected_end_time, None);
    assert_eq!(new.max_duration_minutes, Some(60));
    assert_eq!(create_time_rule(rule_request(Some("Asia/Tokyo"))).timezone, "Asia/Tokyo");
}

#[test]
fn lists_are_sorted() {
    let users = get_all_users();
    assert_eq!(users.collection, Collection::Users);
    assert!(users.predicates.is_empty());
    assert_eq!(users.sort.map(|s| (s.column, s.direction)), Some((Column::Id, Direction::Ascending)));
    let kinds = get_all_action_types();
    assert_eq!(kinds.collection, Collection::ActionTypes);
    assert_eq!(kinds.sort.map(|s| (s.column, s.direction)), Some((Column::DisplayOrder, Direction::Ascending)));
    let rules = get_all_time_rules();
    assert_eq!(rules.collection, Collection::TimeRules);
    assert_eq!(rules.sort.map(|s| (s.column, s.direction)), Some((Column::Id, Direction::Ascending)));
}

#[test]
fn a_row_is_aimed_at_by_its_identifier() {
    let query = row_by_id(Collection::TimeRules, 12);
    assert_eq!(query.collection, Collection::TimeRules);
    assert_eq!(query.predicates.len(), 1);
    assert_eq!(query.predicates[0].column, Column::Id);
    assert_eq!(query.predicates[0].comparison, Comparison::Equal);
    assert!(matches!(query.predicates[0].operand, Operand::Number(12)));
    assert!(query.sort.is_none());
}
