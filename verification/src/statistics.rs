//! Reports over stored records: counts and sums for one user, and one page of
//! a long list.

use crate::clock::toward_zero;
use crate::models::{CheckIn, CheckInStatistics, PaginatedCheckIns};
use crate::registry::PunchStatus;
use crate::store::{asks, newest_first, number_is, Collection, Column, Comparison, Direction, Operand, Predicate, Query};
use vstd::prelude::*;

verus! {

/// The record counts as a piece of completed work: it is completed and has a
/// duration.
pub open spec fn is_completed_work(record: CheckIn) -> bool {
    record.status@ == PunchStatus::Completed.spec_text() && record.duration_minutes is Some
}

/// How many of the records are late.
pub open spec fn late_count(records: Seq<CheckIn>) -> int
    decreases records.len(),
{
    if records.len() == 0 {
        0
    } else {
        late_count(records.drop_last()) + if records.last().is_late {
            1int
        } else {
            0int
        }
    }
}

/// How many of the records are completed work.
pub open spec fn completed_count(records: Seq<CheckIn>) -> int
    decreases records.len(),
{
    if records.len() == 0 {
        0
    } else {
        completed_count(records.drop_last()) + if is_completed_work(records.last()) {
            1int
        } else {
            0int
        }
    }
}

/// The sum of the durations that the records carry.
pub open spec fn total_minutes(records: Seq<CheckIn>) -> int
    decreases records.len(),
{
    if records.len() == 0 {
        0
    } else {
        total_minutes(records.drop_last()) + match records.last().duration_minutes {
            Some(minutes) => minutes as int,
            None => 0int,
        }
    }
}

/// The report over a list of records: how many are completed work, how many
/// are late and how many are not, the sum of their durations, and that sum
/// divided by the number of completed records, rounded toward zero (zero
/// where none is completed). None where the list or the sum is too large
/// for the report's numbers.
pub open spec fn report(records: Seq<CheckIn>) -> Option<CheckInStatistics> {
    if records.len() > i32::MAX || total_minutes(records) < i32::MIN || total_minutes(records) > i32::MAX {
        None
    } else {
        Some(
            CheckInStatistics {
                total_days: completed_count(records) as i32,
                late_count: late_count(records) as i32,
                on_time_count: (records.len() - late_count(records)) as i32,
                total_work_minutes: total_minutes(records) as i32,
                average_work_minutes: if completed_count(records) > 0 {
                    toward_zero(total_minutes(records), completed_count(records)) as i32
                } else {
                    0
                },
            },
        )
    }
}

fn text_is(text: &String, expected: &str) -> (same: bool)
    ensures
        same == (text@ == expected@),
{
    let expected = expected.to_owned();
    *text == expected
}

/// The records of a user whose check time lies between two texts, both
/// included.
pub fn user_statistics_query(user_id: i32, start_date: String, end_date: String) -> (query: Query)
    ensures
        asks(
            query,
            Collection::CheckIns,
            seq![
                number_is(Column::UserId, user_id),
                Predicate {
                    column: Column::CheckTime,
                    comparison: Comparison::GreaterOrEqual,
                    operand: Operand::Text(start_date),
                },
                Predicate {
                    column: Column::CheckTime,
                    comparison: Comparison::LessOrEqual,
                    operand: Operand::Text(end_date),
                },
            ],
            None,
        ),
{
    Query::all(Collection::CheckIns).and(Column::UserId, Comparison::Equal, Operand::Number(user_id)).and(
        Column::CheckTime,
        Comparison::GreaterOrEqual,
        Operand::Text(start_date),
    ).and(Column::CheckTime, Comparison::LessOrEqual, Operand::Text(end_date))
}

/// The report over a user's records.
pub fn get_user_statistics(check_ins: &Vec<CheckIn>) -> (statistics: Option<CheckInStatistics>)
    ensures
        statistics == report(check_ins@),
{
    if check_ins.len() > i32::MAX as usize {
        return None;
    }
    let mut late: i32 = 0;
    let mut completed: i32 = 0;
    let mut total: i64 = 0;
    let mut index: usize = 0;
    while index < check_ins.len()
        invariant
            index <= check_ins.len() <= i32::MAX,
            late == late_count(check_ins@.take(index as int)),
            completed == completed_count(check_ins@.take(index as int)),
            total == total_minutes(check_ins@.take(index as int)),
            0 <= late <= index,
            0 <= completed <= index,
            -(index as int) * 0x8000_0000 <= total <= (index as int) * 0x8000_0000,
        decreases check_ins.len() - index,
    {
        let record = &check_ins[index];
        proof {
            let next = check_ins@.take(index as int + 1);
            assert(next.drop_last() == check_ins@.take(index as int));
            assert(next.last() == check_ins@[index as int]);
            assert((index as int + 1) * 0x8000_0000 == (index as int) * 0x8000_0000 + 0x8000_0000) by (nonlinear_arith);
            assert((index as int) * 0x8000_0000 <= 0x7fff_ffff * 0x8000_0000) by (nonlinear_arith)
                requires
                    0 <= index as int <= 0x7fff_ffff,
            ;
        }
        if record.is_late {
            late = late + 1;
        }
        let done = text_is(&record.status, PunchStatus::Completed.text());
        match record.duration_minutes {
            Some(minutes) => {
                total = total + minutes as i64;
                if done {
                    completed = completed + 1;
                }
            },
            None => {},
        }
        index = index + 1;
    }
    assert(check_ins@.take(index as int) == check_ins@);
    if total < i32::MIN as i64 || total > i32::MAX as i64 {
        return None;
    }
    let average: i64 = if completed > 0 {
        total / completed as i64
    } else {
        0
    };
    Some(
        CheckInStatistics {
            total_days: completed,
            late_count: late,
            on_time_count: check_ins.len() as i32 - late,
            total_work_minutes: total as i32,
            average_work_minutes: average as i32,
        },
    )
}

/// The first position of a page: `page_size` records for each page before
/// it, none before the first page. A page below the first, or a size below
/// zero, puts the page behind every record.
pub open spec fn page_start(total: int, page: int, page_size: int) -> int {
    let offset = (page - 1) * page_size;
    if offset < 0 || offset > total {
        total
    } else {
        offset
    }
}

/// The position behind the last record of a page: at most `page_size`
/// records, all that are left where the size is below zero.
pub open spec fn page_end(total: int, page: int, page_size: int) -> int {
    let start = page_start(total, page, page_size);
    if page_size < 0 || start + page_size > total {
        total
    } else {
        start + page_size
    }
}

/// The product of two numbers of at most 33 bits has at most 66.
proof fn lemma_product_fits(a: int, b: int)
    requires
        -0x1_0000_0000 <= a <= 0x1_0000_0000,
        -0x1_0000_0000 <= b <= 0x1_0000_0000,
    ensures
        -0x1_0000_0000_0000_0000 <= a * b <= 0x1_0000_0000_0000_0000,
{
    assert((0x1_0000_0000 - a) * (0x1_0000_0000 - b) >= 0) by (nonlinear_arith)
        requires
            a <= 0x1_0000_0000,
            b <= 0x1_0000_0000,
    ;
    assert((0x1_0000_0000 + a) * (0x1_0000_0000 + b) >= 0) by (nonlinear_arith)
        requires
            -0x1_0000_0000 <= a,
            -0x1_0000_0000 <= b,
    ;
    assert((0x1_0000_0000 - a) * (0x1_0000_0000 + b) >= 0) by (nonlinear_arith)
        requires
            a <= 0x1_0000_0000,
            -0x1_0000_0000 <= b,
    ;
    assert((0x1_0000_0000 + a) * (0x1_0000_0000 - b) >= 0) by (nonlinear_arith)
        requires
            -0x1_0000_0000 <= a,
            b <= 0x1_0000_0000,
    ;
    assert((0x1_0000_0000 - a) * (0x1_0000_0000 - b) == 0x1_0000_0000_0000_0000 - 0x1_0000_0000 * a
        - 0x1_0000_0000 * b + a * b) by (nonlinear_arith);
    assert((0x1_0000_0000 + a) * (0x1_0000_0000 + b) == 0x1_0000_0000_0000_0000 + 0x1_0000_0000 * a
        + 0x1_0000_0000 * b + a * b) by (nonlinear_arith);
    assert((0x1_0000_0000 - a) * (0x1_0000_0000 + b) == 0x1_0000_0000_0000_0000 - 0x1_0000_0000 * a
        + 0x1_0000_0000 * b - a * b) by (nonlinear_arith);
    assert((0x1_0000_0000 + a) * (0x1_0000_0000 - b) == 0x1_0000_0000_0000_0000 + 0x1_0000_0000 * a
        - 0x1_0000_0000 * b - a * b) by (nonlinear_arith);
}

/// One page of a list.
pub fn page_of(records: &Vec<CheckIn>, page: i32, page_size: i32) -> (data: Vec<CheckIn>)
    ensures
        data@ == records@.subrange(
            page_start(records@.len() as int, page as int, page_size as int),
            page_end(records@.len() as int, page as int, page_size as int),
        ),
{
    let total = records.len();
    proof {
        lemma_product_fits(page as int - 1, page_size as int);
    }
    let offset: i128 = (page as i128 - 1) * (page_size as i128);
    let start: usize = if offset < 0 || offset > total as i128 {
        total
    } else {
        offset as usize
    };
    let end: usize = if page_size < 0 || page_size as u64 > (total - start) as u64 {
        total
    } else {
        start + page_size as usize
    };
    let mut data: Vec<CheckIn> = Vec::new();
    let mut index = start;
    while index < end
        invariant
            start <= index <= end <= records.len(),
            data@ == records@.subrange(start as int, index as int),
        decreases end - index,
    {
        data.push(records[index].clone());
        index = index + 1;
    }
    data
}

/// One page of a list, with the size of the whole list. The number of pages
/// is the caller's: it is handed through.
pub fn paginate(records: &Vec<CheckIn>, page: i32, page_size: i32, total_pages: i32) -> (paged: PaginatedCheckIns)
    ensures
        paged.data@ == records@.subrange(
            page_start(records@.len() as int, page as int, page_size as int),
            page_end(records@.len() as int, page as int, page_size as int),
        ),
        paged.total == records@.len(),
        paged.page == page,
        paged.page_size == page_size,
        paged.total_pages == total_pages,
{
    PaginatedCheckIns { data: page_of(records, page, page_size), total: records.len(), page, page_size, total_pages }
}

/// The records from a first day to a last day, each optional, of one user
/// or of all, newest first.
pub fn check_ins_query(start_date: Option<String>, end_date: Option<String>, user_id: Option<i32>) -> (query:
    Query)
    ensures
        asks(query, Collection::CheckIns, period_predicates(start_date, end_date, user_id), Some(newest_first())),
{
    let mut query = Query::all(Collection::CheckIns);
    match start_date {
        Some(day) => {
            query = query.and(Column::CheckTime, Comparison::GreaterOrEqual, Operand::DayStart(day));
        },
        None => {},
    }
    match end_date {
        Some(day) => {
            query = query.and(Column::CheckTime, Comparison::LessOrEqual, Operand::DayEnd(day));
        },
        None => {},
    }
    match user_id {
        Some(id) => {
            query = query.and(Column::UserId, Comparison::Equal, Operand::Number(id));
        },
        None => {},
    }
    query.sorted(Column::CheckTime, Direction::Descending)
}

/// The predicates of `check_ins_query`: one for each bound that is given,
/// the first day, the last day and the user in this order.
pub open spec fn period_predicates(start_date: Option<String>, end_date: Option<String>, user_id: Option<i32>) -> Seq<
    Predicate,
> {
    let from = match start_date {
        Some(day) => seq![
            Predicate {
                column: Column::CheckTime,
                comparison: Comparison::GreaterOrEqual,
                operand: Operand::DayStart(day),
            },
        ],
        None => Seq::empty(),
    };
    let to = match end_date {
        Some(day) => seq![
            Predicate { column: Column::CheckTime, comparison: Comparison::LessOrEqual, operand: Operand::DayEnd(day) },
        ],
        None => Seq::empty(),
    };
    let who = match user_id {
        Some(id) => seq![number_is(Column::UserId, id)],
        None => Seq::empty(),
    };
    from + to + who
}

/// All records in a period, newest first.
pub fn get_all_check_ins(start_date: Option<String>, end_date: Option<String>) -> (query: Query)
    ensures
        asks(query, Collection::CheckIns, period_predicates(start_date, end_date, None), Some(newest_first())),
{
    check_ins_query(start_date, end_date, None)
}

/// The list that is cut into pages: the records in a period, of one user or
/// of all, newest first.
pub fn get_paginated_check_ins(start_date: Option<String>, end_date: Option<String>, user_id: Option<i32>) -> (query:
    Query)
    ensures
        asks(query, Collection::CheckIns, period_predicates(start_date, end_date, user_id), Some(newest_first())),
{
    check_ins_query(start_date, end_date, user_id)
}

} // verus!
