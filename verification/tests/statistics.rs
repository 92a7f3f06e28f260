use attendance::models::CheckIn;
use attendance::statistics::{
    get_all_check_ins, get_paginated_check_ins, get_user_statistics, page_of, paginate, user_statistics_query,
};
use attendance::store::{Collection, Column, Comparison, Direction, Operand};

fn record(id: i32, status: &str, duration: Option<i32>, late: bool) -> CheckIn {
    CheckIn {
        id,
        user_id: 7,
        action_type_id: 1,
        check_time: String::new(),
        status: status.to_string(),
        pair_check_in_id: None,
        duration_minutes: duration,
        note: None,
        is_late: late,
        is_early_leave: false,
        is_manual: false,
        created_at: String::new(),
    }
}

fn ids(rows: &[CheckIn]) -> Vec<i32> {
    rows.iter().map(|r| r.id).collect()
}

#[test]
fn statistics_count_and_sum() {
    let rows = vec![
        record(1, "completed", Some(480), true),
        record(2, "completed", Some(480), false),
        record(3, "completed", Some(45), false),
        record(4, "ongoing", None, true),
        record(5, "completed", None, false),
        record(6, "ongoing", Some(10), false),
    ];
    let report = get_user_statistics(&rows).unwrap();
    assert_eq!(report.total_days, 3);
    assert_eq!(report.late_count, 2);
    assert_eq!(report.on_time_count, 4);
    assert_eq!(report.total_work_minutes, 1015);
    assert_eq!(report.average_work_minutes, 338);
}

#[test]
fn statistics_of_nothing_are_zero() {
    let report = get_user_statistics(&vec![]).unwrap();
    assert_eq!(
        (report.total_days, report.late_count, report.on_time_count, report.total_work_minutes, report.average_work_minutes),
        (0, 0, 0, 0, 0)
    );
    let report = get_user_statistics(&vec![record(1, "ongoing", Some(30), false)]).unwrap();
    assert_eq!((report.total_days, report.total_work_minutes, report.average_work_minutes), (0, 30, 0));
}

#[test]
fn statistics_average_rounds_toward_zero() {
    let rows = vec![record(1, "completed", Some(-5), false), record(2, "completed", Some(-2), false)];
    let report = get_user_statistics(&rows).unwrap();
    assert_eq!(report.total_work_minutes, -7);
    assert_eq!(report.average_work_minutes, -3);
}

#[test]
fn statistics_refuse_a_sum_out_of_range() {
    let rows = vec![record(1, "completed", Some(i32::MAX), false), record(2, "completed", Some(1), false)];
    assert!(get_user_statistics(&rows).is_none());
    let rows = vec![record(1, "completed", Some(i32::MIN), false), record(2, "completed", Some(-1), false)];
    assert!(get_user_statistics(&rows).is_none());
    let rows = vec![
        record(1, "completed", Some(i32::MAX), false),
        record(2, "completed", Some(1), false),
        record(3, "completed", Some(-1), false),
    ];
    assert_eq!(get_user_statistics(&rows).unwrap().total_work_minutes, i32::MAX);
}

#[test]
fn pages_are_cut_in_order() {
    let rows: Vec<CheckIn> = (1..=7).map(|id| record(id, "completed", None, false)).collect();
    assert_eq!(ids(&page_of(&rows, 1, 3)), vec![1, 2, 3]);
    assert_eq!(ids(&page_of(&rows, 2, 3)), vec![4, 5, 6]);
    assert_eq!(ids(&page_of(&rows, 3, 3)), vec![7]);
    assert_eq!(ids(&page_of(&rows, 4, 3)), Vec::<i32>::new());
    assert_eq!(ids(&page_of(&rows, 1, 100)), vec![1, 2, 3, 4, 5, 6, 7]);
    assert_eq!(ids(&page_of(&rows, 1, 0)), Vec::<i32>::new());
    assert_eq!(ids(&page_of(&vec![], 1, 10)), Vec::<i32>::new());
}

#[test]
fn pages_below_the_first_are_empty() {
    let rows: Vec<CheckIn> = (1..=7).map(|id| record(id, "completed", None, false)).collect();
    assert_eq!(ids(&page_of(&rows, 0, 3)), Vec::<i32>::new());
    assert_eq!(ids(&page_of(&rows, -1, 3)), Vec::<i32>::new());
    assert_eq!(ids(&page_of(&rows, i32::MIN, i32::MAX)), Vec::<i32>::new());
    assert_eq!(ids(&page_of(&rows, i32::MAX, i32::MAX)), Vec::<i32>::new());
}

#[test]
fn a_size_below_zero_takes_all_that_is_left() {
    let rows: Vec<CheckIn> = (1..=7).map(|id| record(id, "completed", None, false)).collect();
    // One page back of a negative size lies two records in.
    assert_eq!(ids(&page_of(&rows, 0, -2)), vec![3, 4, 5, 6, 7]);
    assert_eq!(ids(&page_of(&rows, 1, -2)), vec![1, 2, 3, 4, 5, 6, 7]);
    assert_eq!(ids(&page_of(&rows, 2, -2)), Vec::<i32>::new());
}

#[test]
fn statistics_query_bounds_the_check_time() {
    let query = user_statistics_query(7, "2024-03-01".to_string(), "2024-03-31".to_string());
    assert_eq!(query.collection, Collection::CheckIns);
    assert!(query.sort.is_none());
    assert_eq!(query.predicates.len(), 3);
    assert!(matches!(query.predicates[0].operand, Operand::Number(7)));
    assert_eq!(query.predicates[0].column, Column::UserId);
    assert_eq!(query.predicates[1].comparison, Comparison::GreaterOrEqual);
    assert!(matches!(&query.predicates[1].operand, Operand::Text(t) if t == "2024-03-01"));
    assert_eq!(query.predicates[2].comparison, Comparison::LessOrEqual);
    assert!(matches!(&query.predicates[2].operand, Operand::Text(t) if t == "2024-03-31"));
}

#[test]
fn period_queries_hold_only_the_bounds_given() {
    let query = get_all_check_ins(None, None);
    assert!(query.predicates.is_empty());
    let sort = query.sort.unwrap();
    assert_eq!((sort.column, sort.direction), (Column::CheckTime, Direction::Descending));

    let query = get_all_check_ins(Some("2024-03-01".to_string()), None);
    assert_eq!(query.predicates.len(), 1);
    assert_eq!(query.predicates[0].comparison, Comparison::GreaterOrEqual);
    assert!(matches!(&query.predicates[0].operand, Operand::DayStart(d) if d == "2024-03-01"));

    let query = get_paginated_check_ins(None, Some("2024-03-31".to_string()), Some(7));
    assert_eq!(query.predicates.len(), 2);
    assert_eq!(query.predicates[0].comparison, Comparison::LessOrEqual);
    assert!(matches!(&query.predicates[0].operand, Operand::DayEnd(d) if d == "2024-03-31"));
    assert_eq!(query.predicates[1].column, Column::UserId);
    assert!(matches!(query.predicates[1].operand, Operand::Number(7)));
}

#[test]
fn a_page_comes_with_the_size_of_the_list() {
    let rows: Vec<CheckIn> = (1..=7).map(|id| record(id, "completed", None, false)).collect();
    let paged = paginate(&rows, 2, 3, 3);
    assert_eq!(ids(&paged.data), vec![4, 5, 6]);
    assert_eq!((paged.total, paged.page, paged.page_size, paged.total_pages), (7, 2, 3, 3));
}
