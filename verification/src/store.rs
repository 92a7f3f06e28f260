//! What the library asks of a record store: queries over its collections,
//! with predicates that all must hold and at most one column to sort by.
//! How a query travels to the store is the caller's business.

use crate::clock::CivilTime;
use crate::registry::PunchStatus;
use vstd::prelude::*;

verus! {

#[derive(Clone, Copy, Debug, PartialEq, Eq, Structural)]
pub enum Collection {
    Users,
    ActionTypes,
    TimeRules,
    CheckIns,
}

#[derive(Clone, Copy, Debug, PartialEq, Eq, Structural)]
pub enum Column {
    Id,
    UserId,
    Username,
    ActionTypeId,
    Status,
    CheckTime,
    IsActive,
    DisplayOrder,
}

#[derive(Clone, Copy, Debug, PartialEq, Eq, Structural)]
pub enum Comparison {
    Equal,
    Less,
    LessOrEqual,
    GreaterOrEqual,
}

/// The value that a column is compared with.
#[derive(Debug)]
pub enum Operand {
    Number(i32),
    Flag(bool),
    Status(PunchStatus),
    Text(String),
    /// A time in the stored form, date and time parted by a space.
    StoredTime(CivilTime),
    /// A time with date and time parted by the letter T.
    BoundTime(CivilTime),
    /// The first second of the day that the text names.
    DayStart(String),
    /// The last second of the day that the text names.
    DayEnd(String),
}

#[derive(Debug)]
pub struct Predicate {
    pub column: Column,
    pub comparison: Comparison,
    pub operand: Operand,
}

#[derive(Clone, Copy, Debug, PartialEq, Eq, Structural)]
pub enum Direction {
    Ascending,
    Descending,
}

#[derive(Clone, Copy, Debug, PartialEq, Eq, Structural)]
pub struct Sort {
    pub column: Column,
    pub direction: Direction,
}

/// The rows of a collection for which every predicate holds, sorted if a
/// sort is given.
#[derive(Debug)]
pub struct Query {
    pub collection: Collection,
    pub predicates: Vec<Predicate>,
    pub sort: Option<Sort>,
}

/// The column equals the number.
pub open spec fn number_is(column: Column, number: i32) -> Predicate {
    Predicate { column, comparison: Comparison::Equal, operand: Operand::Number(number) }
}

/// The flag is set.
pub open spec fn flag_set(column: Column) -> Predicate {
    Predicate { column, comparison: Comparison::Equal, operand: Operand::Flag(true) }
}

/// The record is ongoing.
pub open spec fn still_ongoing() -> Predicate {
    Predicate {
        column: Column::Status,
        comparison: Comparison::Equal,
        operand: Operand::Status(PunchStatus::Ongoing),
    }
}

/// The newest check time first.
pub open spec fn newest_first() -> Sort {
    Sort { column: Column::CheckTime, direction: Direction::Descending }
}

/// The query asks for these rows of this collection, in this order.
pub open spec fn asks(query: Query, collection: Collection, predicates: Seq<Predicate>, sort: Option<Sort>) -> bool {
    &&& query.collection == collection
    &&& query.predicates@ =~= predicates
    &&& query.sort == sort
}

impl Operand {
    /// Every time in the operand is one that the calendar knows.
    pub open spec fn wf(&self) -> bool {
        match self {
            Operand::StoredTime(time) => time.wf(),
            Operand::BoundTime(time) => time.wf(),
            _ => true,
        }
    }
}

impl Query {
    /// Every time in the query is one that the calendar knows.
    pub open spec fn wf(&self) -> bool {
        forall|i: int| 0 <= i < self.predicates@.len() ==> (#[trigger] self.predicates@[i]).operand.wf()
    }

    /// A query for all rows of a collection.
    pub fn all(collection: Collection) -> (query: Query)
        ensures
            query.collection == collection,
            query.predicates@ == Seq::<Predicate>::empty(),
            query.sort is None,
    {
        Query { collection, predicates: Vec::new(), sort: None }
    }

    /// The query with one more predicate.
    pub fn and(self, column: Column, comparison: Comparison, operand: Operand) -> (query: Query)
        ensures
            query.collection == self.collection,
            query.predicates@ == self.predicates@.push(Predicate { column, comparison, operand }),
            query.sort == self.sort,
    {
        let mut predicates = self.predicates;
        predicates.push(Predicate { column, comparison, operand });
        Query { collection: self.collection, predicates, sort: self.sort }
    }

    /// The query, sorted by a column.
    pub fn sorted(self, column: Column, direction: Direction) -> (query: Query)
        ensures
            query.collection == self.collection,
            query.predicates@ == self.predicates@,
            query.sort == Some(Sort { column, direction }),
    {
        Query { collection: self.collection, predicates: self.predicates, sort: Some(Sort { column, direction }) }
    }
}

} // verus!
