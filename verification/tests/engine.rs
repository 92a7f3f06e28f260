use attendance::clock::parse_time;
use attendance::engine::{
    check_manual_transition, check_transition, find_pairing_start, first_match, has_role, judge_break, judge_end,
    judge_start, measure_duration, survey, Standing, TransitionViolation, COMPANY_ZONE,
};
use attendance::models::{ActionType, CheckIn, TimeRule};
use attendance::registry::Role;

fn kinds() -> Vec<ActionType> {
    [(1, 1), (2, 2), (3, 3), (4, 4), (5, 3), (8, 9)]
        .iter()
        .map(|&(id, role)| ActionType {
            id,
            name: String::new(),
            button_text: String::new(),
            button_color: String::new(),
            display_order: id,
            action_role: role,
            requires_pair: false,
            pair_action_id: None,
            is_active: true,
            created_at: String::new(),
        })
        .collect()
}

fn record(id: i32, action_type_id: i32, time: &str, pair: Option<i32>) -> CheckIn {
    CheckIn {
        id,
        user_id: 7,
        action_type_id,
        check_time: time.to_string(),
        status: "ongoing".to_string(),
        pair_check_in_id: pair,
        duration_minutes: None,
        note: None,
        is_late: false,
        is_early_leave: false,
        is_manual: false,
        created_at: String::new(),
    }
}

fn rule(start: Option<&str>, end: Option<&str>, longest: Option<i32>) -> TimeRule {
    TimeRule {
        id: 1,
        rule_name: String::new(),
        action_type_id: 1,
        expected_start_time: start.map(str::to_string),
        expected_end_time: end.map(str::to_string),
        max_duration_minutes: longest,
        timezone: COMPANY_ZONE.to_string(),
        is_active: true,
        created_at: String::new(),
    }
}

const IDLE: Standing =
    Standing { any_open: false, shift_open: false, break_open: false, latest_known: false, latest_is_break: false };
const MAIN_OPEN: Standing =
    Standing { any_open: true, shift_open: true, break_open: false, latest_known: true, latest_is_break: false };
const BREAK_OPEN: Standing =
    Standing { any_open: true, shift_open: true, break_open: true, latest_known: true, latest_is_break: true };

#[test]
fn survey_reads_the_state_off_the_ongoing_records() {
    let kinds = kinds();
    assert_eq!(survey(&vec![], &kinds), IDLE);
    assert_eq!(survey(&vec![record(10, 1, "2024-03-05 08:00:00", None)], &kinds), MAIN_OPEN);
    let both = vec![record(11, 3, "2024-03-05 12:00:00", None), record(10, 1, "2024-03-05 08:00:00", None)];
    assert_eq!(survey(&both, &kinds), BREAK_OPEN);
    let stray = vec![record(12, 99, "2024-03-05 12:00:00", None)];
    assert_eq!(
        survey(&stray, &kinds),
        Standing { any_open: true, shift_open: false, break_open: false, latest_known: false, latest_is_break: false }
    );
    let odd = vec![record(13, 8, "2024-03-05 12:00:00", None), record(11, 5, "2024-03-05 11:00:00", None)];
    assert_eq!(
        survey(&odd, &kinds),
        Standing { any_open: true, shift_open: false, break_open: true, latest_known: true, latest_is_break: false }
    );
}

#[test]
fn has_role_looks_each_record_up() {
    let kinds = kinds();
    let rows = vec![record(11, 5, "2024-03-05 12:00:00", None), record(10, 1, "2024-03-05 08:00:00", None)];
    assert!(has_role(&rows, &kinds, Role::MainStart));
    assert!(has_role(&rows, &kinds, Role::BreakStart));
    assert!(!has_role(&rows, &kinds, Role::MainEnd));
    assert!(!has_role(&vec![], &kinds, Role::MainStart));
    assert!(!has_role(&rows, &vec![], Role::MainStart));
}

#[test]
fn the_state_machine_admits_four_transitions() {
    assert_eq!(check_transition(Role::MainStart, &IDLE), Ok(()));
    assert_eq!(check_transition(Role::MainEnd, &MAIN_OPEN), Ok(()));
    assert_eq!(check_transition(Role::BreakStart, &MAIN_OPEN), Ok(()));
    assert_eq!(check_transition(Role::BreakEnd, &BREAK_OPEN), Ok(()));
}

#[test]
fn every_other_transition_has_its_violation() {
    assert_eq!(check_transition(Role::MainStart, &MAIN_OPEN), Err(TransitionViolation::UnfinishedPunch));
    assert_eq!(check_transition(Role::MainStart, &BREAK_OPEN), Err(TransitionViolation::UnfinishedPunch));
    assert_eq!(check_transition(Role::MainEnd, &IDLE), Err(TransitionViolation::NoOpenShift));
    assert_eq!(check_transition(Role::MainEnd, &BREAK_OPEN), Err(TransitionViolation::BreakStillOpen));
    assert_eq!(check_transition(Role::BreakStart, &IDLE), Err(TransitionViolation::ShiftNotStarted));
    assert_eq!(check_transition(Role::BreakStart, &BREAK_OPEN), Err(TransitionViolation::BreakAlreadyOpen));
    assert_eq!(check_transition(Role::BreakEnd, &IDLE), Err(TransitionViolation::NothingOpen));
    assert_eq!(check_transition(Role::BreakEnd, &MAIN_OPEN), Err(TransitionViolation::NoOpenBreak));
    let stray = Standing { latest_known: false, ..MAIN_OPEN };
    assert_eq!(check_transition(Role::BreakEnd, &stray), Err(TransitionViolation::UnknownOpenPunch));
}

#[test]
fn violations_have_distinct_messages() {
    let all = [
        TransitionViolation::UnfinishedPunch,
        TransitionViolation::NoOpenShift,
        TransitionViolation::BreakStillOpen,
        TransitionViolation::ShiftNotStarted,
        TransitionViolation::BreakAlreadyOpen,
        TransitionViolation::NothingOpen,
        TransitionViolation::UnknownOpenPunch,
        TransitionViolation::NoOpenBreak,
        TransitionViolation::NoShiftThatDay,
        TransitionViolation::NoShiftThatDayForBreak,
    ];
    for (i, a) in all.iter().enumerate() {
        assert!(!a.message().is_empty());
        for b in &all[i + 1..] {
            assert_ne!(a.message(), b.message());
        }
    }
    assert_eq!(TransitionViolation::NoOpenShift.message(), "未找到进行中的上班记录，请先打上班卡");
    assert_eq!(TransitionViolation::UnfinishedPunch.message(), "检测到有未完成的打卡记录，请先完成当前任务");
}

#[test]
fn backfill_guards_look_at_the_day() {
    assert_eq!(check_manual_transition(Role::MainStart, false), Ok(()));
    assert_eq!(check_manual_transition(Role::BreakEnd, false), Ok(()));
    assert_eq!(check_manual_transition(Role::MainEnd, true), Ok(()));
    assert_eq!(check_manual_transition(Role::BreakStart, true), Ok(()));
    assert_eq!(check_manual_transition(Role::MainEnd, false), Err(TransitionViolation::NoShiftThatDay));
    assert_eq!(check_manual_transition(Role::BreakStart, false), Err(TransitionViolation::NoShiftThatDayForBreak));
}

#[test]
fn pairing_prefers_an_ongoing_record_of_the_matching_role() {
    let kinds = kinds();
    let ongoing = vec![record(11, 3, "2024-03-05 12:00:00", None), record(10, 1, "2024-03-05 08:00:00", None)];
    let history = vec![record(5, 1, "2024-03-04 08:00:00", None)];
    assert_eq!(find_pairing_start(Role::MainEnd, &ongoing, &history, &kinds).unwrap().id, 10);
    assert_eq!(find_pairing_start(Role::BreakEnd, &ongoing, &history, &kinds).unwrap().id, 11);
    assert!(find_pairing_start(Role::MainStart, &ongoing, &history, &kinds).is_none());
    assert!(find_pairing_start(Role::BreakStart, &ongoing, &history, &kinds).is_none());
}

#[test]
fn pairing_falls_back_to_the_newest_unpaired_past_record() {
    let kinds = kinds();
    let ongoing = vec![record(11, 3, "2024-03-05 12:00:00", None)];
    let history = vec![
        record(9, 3, "2024-03-04 12:00:00", None),
        record(8, 1, "2024-03-04 09:00:00", Some(20)),
        record(7, 1, "2024-03-04 08:00:00", None),
        record(6, 1, "2024-03-03 08:00:00", None),
    ];
    assert_eq!(find_pairing_start(Role::MainEnd, &ongoing, &history, &kinds).unwrap().id, 7);
    assert_eq!(find_pairing_start(Role::BreakEnd, &vec![], &history, &kinds).unwrap().id, 9);
    assert!(find_pairing_start(Role::MainEnd, &ongoing, &vec![], &kinds).is_none());
    assert_eq!(first_match(&history, &kinds, Role::MainStart, false).unwrap().id, 8);
    assert_eq!(first_match(&history, &kinds, Role::MainStart, true).unwrap().id, 7);
    assert!(first_match(&history, &kinds, Role::MainEnd, false).is_none());
}

#[test]
fn duration_is_measured_from_the_stored_time_of_the_start() {
    let now = parse_time("2024-03-05 17:30:00", COMPANY_ZONE).unwrap();
    assert_eq!(measure_duration(&record(1, 1, "2024-03-05 08:00:00", None), &now), Some(570));
    assert_eq!(measure_duration(&record(1, 1, "2024-03-05T08:00:00.000", None), &now), Some(570));
    assert_eq!(measure_duration(&record(1, 1, "2024-03-05 18:00:00", None), &now), Some(-30));
    assert_eq!(measure_duration(&record(1, 1, "this morning", None), &now), None);
}

#[test]
fn only_the_first_rule_judges() {
    let now = parse_time("2024-03-05 08:30:00", COMPANY_ZONE).unwrap();
    assert!(judge_start(&now, &vec![rule(Some("08:00:00"), None, None), rule(Some("09:00:00"), None, None)]));
    assert!(!judge_start(&now, &vec![rule(Some("09:00:00"), None, None), rule(Some("08:00:00"), None, None)]));
    assert!(!judge_start(&now, &vec![rule(None, None, None), rule(Some("08:00:00"), None, None)]));
    assert!(!judge_start(&now, &vec![]));
    assert!(judge_end(&now, &vec![rule(None, Some("17:00:00"), None)]));
    assert!(!judge_end(&now, &vec![rule(None, Some("08:30:00"), None)]));
    assert!(!judge_end(&now, &vec![rule(Some("17:00:00"), None, None)]));
    assert!(!judge_end(&now, &vec![]));
    assert!(judge_break(61, &vec![rule(None, None, Some(60))]));
    assert!(!judge_break(60, &vec![rule(None, None, Some(60))]));
    assert!(!judge_break(600, &vec![rule(None, None, None)]));
    assert!(!judge_break(600, &vec![]));
    assert!(judge_break(-1, &vec![rule(None, None, Some(-2))]));
}
