use attendance::models::ActionType;
use attendance::registry::{find_action_type, role_in, PunchStatus, Role};

fn action_type(id: i32, role: i32, name: &str) -> ActionType {
    ActionType {
        id,
        name: name.to_string(),
        button_text: String::new(),
        button_color: String::new(),
        display_order: 0,
        action_role: role,
        requires_pair: false,
        pair_action_id: None,
        is_active: true,
        created_at: String::new(),
    }
}

#[test]
fn role_codes_run_from_one_to_four() {
    assert_eq!(Role::from_code(1), Some(Role::MainStart));
    assert_eq!(Role::from_code(2), Some(Role::MainEnd));
    assert_eq!(Role::from_code(3), Some(Role::BreakStart));
    assert_eq!(Role::from_code(4), Some(Role::BreakEnd));
    assert_eq!(Role::from_code(0), None);
    assert_eq!(Role::from_code(5), None);
    assert_eq!(Role::from_code(-1), None);
    for role in [Role::MainStart, Role::MainEnd, Role::BreakStart, Role::BreakEnd] {
        assert_eq!(Role::from_code(role.code()), Some(role));
    }
}

#[test]
fn start_roles_are_stored_as_ongoing() {
    assert!(Role::MainStart.is_start());
    assert!(Role::BreakStart.is_start());
    assert!(!Role::MainEnd.is_start());
    assert!(!Role::BreakEnd.is_start());
    assert_eq!(Role::MainStart.status(), PunchStatus::Ongoing);
    assert_eq!(Role::BreakStart.status(), PunchStatus::Ongoing);
    assert_eq!(Role::MainEnd.status(), PunchStatus::Completed);
    assert_eq!(Role::BreakEnd.status(), PunchStatus::Completed);
    assert_eq!(PunchStatus::Ongoing.text(), "ongoing");
    assert_eq!(PunchStatus::Completed.text(), "completed");
}

#[test]
fn end_roles_close_their_start_role() {
    assert_eq!(Role::MainEnd.opener(), Some(Role::MainStart));
    assert_eq!(Role::BreakEnd.opener(), Some(Role::BreakStart));
    assert_eq!(Role::MainStart.opener(), None);
    assert_eq!(Role::BreakStart.opener(), None);
}

#[test]
fn registry_gives_the_first_type_of_an_identifier() {
    let registry = vec![action_type(1, 1, "in"), action_type(2, 2, "out"), action_type(1, 3, "twin"), action_type(9, 7, "odd")];
    assert_eq!(find_action_type(&registry, 1).unwrap().name, "in");
    assert_eq!(find_action_type(&registry, 2).unwrap().name, "out");
    assert!(find_action_type(&registry, 3).is_none());
    assert_eq!(role_in(&registry, 1), Some(Role::MainStart));
    assert_eq!(role_in(&registry, 2), Some(Role::MainEnd));
    assert_eq!(role_in(&registry, 3), None);
    assert_eq!(role_in(&registry, 9), None);
    assert_eq!(role_in(&Vec::new(), 1), None);
}
