//! The punch protocol: which punch is admitted while which records are open,
//! which start record an end punch closes, and how a punch is judged against
//! its time rule.
//!
//! Per user a shift is open or not, and while it is open a break is open or
//! not:
//!
//! ```text
//! Idle      --MainStart-->  MainOpen
//! MainOpen  --MainEnd---->  Idle
//! MainOpen  --BreakStart->  MainOpen+BreakOpen
//! MainOpen+BreakOpen --BreakEnd--> MainOpen
//! ```
//!
//! The state is not stored. It is read off the user's ongoing records, newest
//! first, once per punch.

use crate::clock::{
    calculate_duration, checked_is_early_leave, early_leave_verdict, elapsed_minutes, is_late_strict, late_after,
    parse_time, parsed_time, time_of_day, CompanyTime,
};
use crate::models::{ActionType, CheckIn, TimeRule};
use crate::registry::{find_action_type, role_in, lookup, role_of, Role};
use vstd::prelude::*;

verus! {

/// Why a punch is not admitted in the user's current state.
#[derive(Clone, Copy, Debug, PartialEq, Eq, Structural)]
pub enum TransitionViolation {
    /// A shift start while some record is still ongoing.
    UnfinishedPunch,
    /// A shift end with no ongoing shift start.
    NoOpenShift,
    /// A shift end while a break is still ongoing.
    BreakStillOpen,
    /// A break start with no ongoing shift start.
    ShiftNotStarted,
    /// A break start while a break is already ongoing.
    BreakAlreadyOpen,
    /// A break end with no ongoing record at all.
    NothingOpen,
    /// A break end where the newest ongoing record is of no registered type.
    UnknownOpenPunch,
    /// A break end where the newest ongoing record is not a break start.
    NoOpenBreak,
    /// A backfilled shift end with no shift start on that date.
    NoShiftThatDay,
    /// A backfilled break start with no shift start on that date.
    NoShiftThatDayForBreak,
}

impl TransitionViolation {
    /// What the user is told.
    pub open spec fn spec_message(self) -> Seq<char> {
        match self {
            TransitionViolation::UnfinishedPunch => "检测到有未完成的打卡记录，请先完成当前任务"@,
            TransitionViolation::NoOpenShift => "未找到进行中的上班记录，请先打上班卡"@,
            TransitionViolation::BreakStillOpen => "检测到有未完成的临时事件（如上厕所、午餐等），请先打回座"@,
            TransitionViolation::ShiftNotStarted => "请先打上班卡再进行其他操作"@,
            TransitionViolation::BreakAlreadyOpen => "检测到有未完成的任务，请先打回座"@,
            TransitionViolation::NothingOpen => "未找到对应的开始记录"@,
            TransitionViolation::UnknownOpenPunch => "无法找到对应的打卡类型"@,
            TransitionViolation::NoOpenBreak => "当前没有进行中的临时事件"@,
            TransitionViolation::NoShiftThatDay => "未找到当日上班记录，请先补上班卡"@,
            TransitionViolation::NoShiftThatDayForBreak => "未找到当日上班记录，请先补上班卡再补临时事件"@,
        }
    }

    pub fn message(self) -> (text: &'static str)
        ensures
            text@ == self.spec_message(),
    {
        match self {
            TransitionViolation::UnfinishedPunch => "检测到有未完成的打卡记录，请先完成当前任务",
            TransitionViolation::NoOpenShift => "未找到进行中的上班记录，请先打上班卡",
            TransitionViolation::BreakStillOpen => "检测到有未完成的临时事件（如上厕所、午餐等），请先打回座",
            TransitionViolation::ShiftNotStarted => "请先打上班卡再进行其他操作",
            TransitionViolation::BreakAlreadyOpen => "检测到有未完成的任务，请先打回座",
            TransitionViolation::NothingOpen => "未找到对应的开始记录",
            TransitionViolation::UnknownOpenPunch => "无法找到对应的打卡类型",
            TransitionViolation::NoOpenBreak => "当前没有进行中的临时事件",
            TransitionViolation::NoShiftThatDay => "未找到当日上班记录，请先补上班卡",
            TransitionViolation::NoShiftThatDayForBreak => "未找到当日上班记录，请先补上班卡再补临时事件",
        }
    }
}

/// The user's state, read off the ongoing records.
#[derive(Clone, Copy, Debug, PartialEq, Eq, Structural)]
pub struct Standing {
    /// Some record is ongoing.
    pub any_open: bool,
    /// Some ongoing record is a shift start.
    pub shift_open: bool,
    /// Some ongoing record is a break start.
    pub break_open: bool,
    /// The newest ongoing record is of a registered type.
    pub latest_known: bool,
    /// The newest ongoing record is a break start.
    pub latest_is_break: bool,
}

/// Some record of the list plays the role.
pub open spec fn any_with_role(records: Seq<CheckIn>, registry: Seq<ActionType>, role: Role) -> bool {
    exists|i: int| 0 <= i < records.len() && role_of(registry, (#[trigger] records[i]).action_type_id) == Some(role)
}

/// The state that a list of ongoing records, newest first, stands for.
pub open spec fn standing_of(ongoing: Seq<CheckIn>, registry: Seq<ActionType>) -> Standing {
    Standing {
        any_open: ongoing.len() > 0,
        shift_open: any_with_role(ongoing, registry, Role::MainStart),
        break_open: any_with_role(ongoing, registry, Role::BreakStart),
        latest_known: ongoing.len() > 0 && lookup(registry, ongoing[0].action_type_id) is Some,
        latest_is_break: ongoing.len() > 0 && role_of(registry, ongoing[0].action_type_id) == Some(
            Role::BreakStart,
        ),
    }
}

/// The guard of each transition: none where the punch is admitted.
pub open spec fn transition_verdict(role: Role, standing: Standing) -> Option<TransitionViolation> {
    match role {
        Role::MainStart => if standing.any_open {
            Some(TransitionViolation::UnfinishedPunch)
        } else {
            None
        },
        Role::MainEnd => if !standing.shift_open {
            Some(TransitionViolation::NoOpenShift)
        } else if standing.break_open {
            Some(TransitionViolation::BreakStillOpen)
        } else {
            None
        },
        Role::BreakStart => if !standing.shift_open {
            Some(TransitionViolation::ShiftNotStarted)
        } else if standing.break_open {
            Some(TransitionViolation::BreakAlreadyOpen)
        } else {
            None
        },
        Role::BreakEnd => if !standing.any_open {
            Some(TransitionViolation::NothingOpen)
        } else if !standing.latest_known {
            Some(TransitionViolation::UnknownOpenPunch)
        } else if !standing.latest_is_break {
            Some(TransitionViolation::NoOpenBreak)
        } else {
            None
        },
    }
}

/// The guard of a backfilled punch: a shift end and a break start need a shift
/// start on the backfilled date; a shift start and a break end pass.
pub open spec fn manual_verdict(role: Role, shift_that_day: bool) -> Option<TransitionViolation> {
    match role {
        Role::MainEnd => if shift_that_day {
            None
        } else {
            Some(TransitionViolation::NoShiftThatDay)
        },
        Role::BreakStart => if shift_that_day {
            None
        } else {
            Some(TransitionViolation::NoShiftThatDayForBreak)
        },
        _ => None,
    }
}

/// Whether some record of the list plays the role.
pub fn has_role(records: &Vec<CheckIn>, registry: &Vec<ActionType>, role: Role) -> (found: bool)
    ensures
        found == any_with_role(records@, registry@, role),
{
    let mut index: usize = 0;
    while index < records.len()
        invariant
            index <= records.len(),
            forall|i: int| 0 <= i < index ==> role_of(registry@, (#[trigger] records@[i]).action_type_id) != Some(role),
        decreases records.len() - index,
    {
        if role_in(registry, records[index].action_type_id) == Some(role) {
            return true;
        }
        index = index + 1;
    }
    false
}

/// Reads the user's state off the ongoing records, newest first.
pub fn survey(ongoing: &Vec<CheckIn>, registry: &Vec<ActionType>) -> (standing: Standing)
    ensures
        standing == standing_of(ongoing@, registry@),
{
    let any_open = ongoing.len() > 0;
    let latest_known = any_open && find_action_type(registry, ongoing[0].action_type_id).is_some();
    let latest_is_break = any_open && role_in(registry, ongoing[0].action_type_id) == Some(Role::BreakStart);
    Standing {
        any_open,
        shift_open: has_role(ongoing, registry, Role::MainStart),
        break_open: has_role(ongoing, registry, Role::BreakStart),
        latest_known,
        latest_is_break,
    }
}

/// Admits or rejects a punch in a state.
pub fn check_transition(role: Role, standing: &Standing) -> (verdict: Result<(), TransitionViolation>)
    ensures
        match verdict {
            Ok(_) => transition_verdict(role, *standing) is None,
            Err(violation) => transition_verdict(role, *standing) == Some(violation),
        },
{
    match role {
        Role::MainStart => {
            if standing.any_open {
                return Err(TransitionViolation::UnfinishedPunch);
            }
        },
        Role::MainEnd => {
            if !standing.shift_open {
                return Err(TransitionViolation::NoOpenShift);
            }
            if standing.break_open {
                return Err(TransitionViolation::BreakStillOpen);
            }
        },
        Role::BreakStart => {
            if !standing.shift_open {
                return Err(TransitionViolation::ShiftNotStarted);
            }
            if standing.break_open {
                return Err(TransitionViolation::BreakAlreadyOpen);
            }
        },
        Role::BreakEnd => {
            if !standing.any_open {
                return Err(TransitionViolation::NothingOpen);
            }
            if !standing.latest_known {
                return Err(TransitionViolation::UnknownOpenPunch);
            }
            if !standing.latest_is_break {
                return Err(TransitionViolation::NoOpenBreak);
            }
        },
    }
    Ok(())
}

/// Admits or rejects a backfilled punch.
pub fn check_manual_transition(role: Role, shift_that_day: bool) -> (verdict: Result<(), TransitionViolation>)
    ensures
        match verdict {
            Ok(_) => manual_verdict(role, shift_that_day) is None,
            Err(violation) => manual_verdict(role, shift_that_day) == Some(violation),
        },
{
    match role {
        Role::MainEnd => {
            if !shift_that_day {
                return Err(TransitionViolation::NoShiftThatDay);
            }
        },
        Role::BreakStart => {
            if !shift_that_day {
                return Err(TransitionViolation::NoShiftThatDayForBreak);
            }
        },
        _ => {},
    }
    Ok(())
}


/// The zone in which the company keeps time.
pub const COMPANY_ZONE: &'static str = "Asia/Phnom_Penh";

/// Whether a record can be the start that a punch closes: it plays the start
/// role, and, where only unpaired records count, it has no pair yet.
pub open spec fn closes(record: CheckIn, registry: Seq<ActionType>, opener: Role, unpaired_only: bool) -> bool {
    &&& role_of(registry, record.action_type_id) == Some(opener)
    &&& unpaired_only ==> record.pair_check_in_id is None
}

/// The position of the first record from `from` on that the punch can close.
pub open spec fn first_match_from(
    records: Seq<CheckIn>,
    registry: Seq<ActionType>,
    opener: Role,
    unpaired_only: bool,
    from: int,
) -> Option<int>
    decreases records.len() - from,
{
    if from < 0 || from >= records.len() {
        None
    } else if closes(records[from], registry, opener, unpaired_only) {
        Some(from)
    } else {
        first_match_from(records, registry, opener, unpaired_only, from + 1)
    }
}

/// The start record that an end punch closes. An ongoing record of the
/// matching start role comes first; failing that, the most recent past
/// record of that role that has no pair yet. Both lists are newest first.
/// None for a start role, and where neither list holds a match.
pub open spec fn pairing_start(
    role: Role,
    ongoing: Seq<CheckIn>,
    history: Seq<CheckIn>,
    registry: Seq<ActionType>,
) -> Option<CheckIn> {
    match role.spec_opener() {
        None => None,
        Some(opener) => match first_match_from(ongoing, registry, opener, false, 0) {
            Some(i) => Some(ongoing[i]),
            None => match first_match_from(history, registry, opener, true, 0) {
                Some(j) => Some(history[j]),
                None => None,
            },
        },
    }
}

/// The first record of a list that a punch can close.
pub fn first_match<'a>(
    records: &'a Vec<CheckIn>,
    registry: &Vec<ActionType>,
    opener: Role,
    unpaired_only: bool,
) -> (found: Option<&'a CheckIn>)
    ensures
        match first_match_from(records@, registry@, opener, unpaired_only, 0) {
            Some(i) => 0 <= i < records@.len() && found == Some(&records@[i]),
            None => found is None,
        },
{
    let mut index: usize = 0;
    while index < records.len()
        invariant
            index <= records.len(),
            first_match_from(records@, registry@, opener, unpaired_only, 0) == first_match_from(
                records@,
                registry@,
                opener,
                unpaired_only,
                index as int,
            ),
        decreases records.len() - index,
    {
        let record = &records[index];
        if role_in(registry, record.action_type_id) == Some(opener) && (!unpaired_only
            || record.pair_check_in_id.is_none()) {
            return Some(record);
        }
        index = index + 1;
    }
    None
}

/// Finds the start record that an end punch closes.
pub fn find_pairing_start<'a>(
    role: Role,
    ongoing: &'a Vec<CheckIn>,
    history: &'a Vec<CheckIn>,
    registry: &Vec<ActionType>,
) -> (start: Option<&'a CheckIn>)
    ensures
        match start {
            Some(record) => pairing_start(role, ongoing@, history@, registry@) == Some(*record),
            None => pairing_start(role, ongoing@, history@, registry@) is None,
        },
{
    match role.opener() {
        None => None,
        Some(opener) => match first_match(ongoing, registry, opener, false) {
            Some(record) => Some(record),
            None => first_match(history, registry, opener, true),
        },
    }
}

/// The minutes between a start record and the punch that closes it, where the
/// stored time of the start can be read.
pub open spec fn duration_since(start: CheckIn, now: CompanyTime) -> Option<i32> {
    match parsed_time(start.check_time@, COMPANY_ZONE@) {
        Some(started) => Some(elapsed_minutes(started, now) as i32),
        None => None,
    }
}

/// A shift start is late where the first rule has an expected start and the
/// punch lies strictly after it.
pub open spec fn start_is_late(now: CompanyTime, rules: Seq<TimeRule>) -> bool {
    &&& rules.len() > 0
    &&& rules[0].expected_start_time matches Some(expected)
    &&& late_after(now.local.second_of_day, time_of_day(expected@))
}

/// A shift end is early where the first rule has an expected end and the
/// punch lies strictly before it on the day of the punch.
pub open spec fn end_is_early(now: CompanyTime, rules: Seq<TimeRule>) -> bool {
    &&& rules.len() > 0
    &&& rules[0].expected_end_time matches Some(expected)
    &&& early_leave_verdict(now, time_of_day(expected@), COMPANY_ZONE@) == Some(
        true,
    )
}

/// A break ran over where the first rule of the break has a longest duration
/// and the break took strictly more minutes.
pub open spec fn break_ran_over(duration: i32, rules: Seq<TimeRule>) -> bool {
    &&& rules.len() > 0
    &&& rules[0].max_duration_minutes matches Some(longest)
    &&& duration > longest
}

/// Measures the time from a start record to the punch that closes it.
pub fn measure_duration(start: &CheckIn, now: &CompanyTime) -> (duration: Option<i32>)
    ensures
        duration == duration_since(*start, *now),
{
    match parse_time(start.check_time.as_str(), COMPANY_ZONE) {
        Some(started) => Some(calculate_duration(&started, now)),
        None => None,
    }
}

/// Judges a shift start against the first of its rules.
pub fn judge_start(now: &CompanyTime, rules: &Vec<TimeRule>) -> (late: bool)
    ensures
        late == start_is_late(*now, rules@),
{
    if rules.len() == 0 {
        return false;
    }
    match &rules[0].expected_start_time {
        Some(expected) => is_late_strict(now, expected.as_str(), COMPANY_ZONE),
        None => false,
    }
}

/// Judges a shift end against the first of its rules.
pub fn judge_end(now: &CompanyTime, rules: &Vec<TimeRule>) -> (early: bool)
    ensures
        early == end_is_early(*now, rules@),
{
    if rules.len() == 0 {
        return false;
    }
    match &rules[0].expected_end_time {
        Some(expected) => match checked_is_early_leave(now, now, expected.as_str(), COMPANY_ZONE) {
            Some(early) => early,
            None => false,
        },
        None => false,
    }
}

/// Judges a break of some minutes against the first rule of the break.
pub fn judge_break(duration: i32, rules: &Vec<TimeRule>) -> (over: bool)
    ensures
        over == break_ran_over(duration, rules@),
{
    if rules.len() == 0 {
        return false;
    }
    match rules[0].max_duration_minutes {
        Some(longest) => duration > longest,
        None => false,
    }
}

} // verus!
