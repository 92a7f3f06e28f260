//! The rows of the record store and the requests of the callers, as plain data.

use vstd::prelude::*;

verus! {

/// A kind of punch, as configured: its button and the role it plays.
#[derive(Debug)]
pub struct ActionType {
    pub id: i32,
    pub name: String,
    pub button_text: String,
    pub button_color: String,
    pub display_order: i32,
    /// The role code: 1 starts a shift, 2 ends it, 3 starts a break, 4 ends it.
    pub action_role: i32,
    pub requires_pair: bool,
    pub pair_action_id: Option<i32>,
    pub is_active: bool,
    pub created_at: String,
}

#[derive(Debug)]
pub struct CreateActionTypeRequest {
    pub name: String,
    pub button_text: String,
    pub button_color: String,
    pub display_order: Option<i32>,
    pub action_role: i32,
    pub requires_pair: bool,
    pub pair_action_id: Option<i32>,
}

#[derive(Debug)]
pub struct UpdateActionTypeRequest {
    pub id: i32,
    pub button_text: Option<String>,
    pub button_color: Option<String>,
    pub display_order: Option<i32>,
    pub is_active: Option<bool>,
}

/// One punch, as stored.
#[derive(Debug)]
pub struct CheckIn {
    pub id: i32,
    pub user_id: i32,
    pub action_type_id: i32,
    pub check_time: String,
    pub status: String,
    pub pair_check_in_id: Option<i32>,
    pub duration_minutes: Option<i32>,
    pub note: Option<String>,
    pub is_late: bool,
    pub is_early_leave: bool,
    pub is_manual: bool,
    pub created_at: String,
}

#[derive(Debug)]
pub struct CheckInRequest {
    pub user_id: i32,
    pub action_type_id: i32,
}

#[derive(Debug)]
pub struct ManualCheckInRequest {
    pub user_id: i32,
    pub action_type_id: i32,
    pub check_time: String,
    pub note: Option<String>,
}

#[derive(Debug)]
pub struct CheckInWithType {
    pub check_in: CheckIn,
    pub action_type: Option<ActionType>,
}

/// The times that punches of one kind are judged by. The expected times
/// belong to shift rules, the longest duration to break rules.
#[derive(Debug)]
pub struct TimeRule {
    pub id: i32,
    pub rule_name: String,
    pub action_type_id: i32,
    pub expected_start_time: Option<String>,
    pub expected_end_time: Option<String>,
    pub max_duration_minutes: Option<i32>,
    pub timezone: String,
    pub is_active: bool,
    pub created_at: String,
}

#[derive(Debug)]
pub struct CreateTimeRuleRequest {
    pub rule_name: String,
    pub action_type_id: i32,
    pub expected_start_time: Option<String>,
    pub expected_end_time: Option<String>,
    pub max_duration_minutes: Option<i32>,
    pub timezone: Option<String>,
}

#[derive(Debug)]
pub struct UpdateTimeRuleRequest {
    pub id: i32,
    pub rule_name: Option<String>,
    pub expected_start_time: Option<String>,
    pub expected_end_time: Option<String>,
    pub max_duration_minutes: Option<i32>,
    pub is_active: Option<bool>,
}

#[derive(Debug)]
pub struct User {
    pub id: i32,
    pub username: String,
    pub password_hash: String,
    pub full_name: String,
    pub is_admin: bool,
    pub created_at: String,
}

#[derive(Debug)]
pub struct LoginRequest {
    pub username: String,
    pub password: String,
}

#[derive(Debug)]
pub struct RegisterRequest {
    pub username: String,
    pub password: String,
    pub full_name: String,
}

#[derive(Debug)]
pub struct LoginResponse {
    pub user: User,
    pub token: String,
}

#[derive(Debug)]
pub struct UpdateCheckInRequest {
    pub check_in_id: i32,
    pub is_late: Option<bool>,
    pub is_early_leave: Option<bool>,
    pub note: Option<String>,
}

#[derive(Debug)]
pub struct CheckInStatistics {
    pub total_days: i32,
    pub late_count: i32,
    pub on_time_count: i32,
    pub total_work_minutes: i32,
    pub average_work_minutes: i32,
}

#[derive(Debug)]
pub struct PaginatedCheckIns {
    pub data: Vec<CheckIn>,
    pub total: usize,
    pub page: i32,
    pub page_size: i32,
    pub total_pages: i32,
}

/// A copy of an optional text.
pub fn clone_text(text: &Option<String>) -> (copy: Option<String>)
    ensures
        copy == *text,
{
    match text {
        Some(words) => Some(words.clone()),
        None => None,
    }
}

impl Clone for ActionType {
    fn clone(&self) -> (copy: Self)
        ensures
            copy == *self,
    {
        ActionType {
            id: self.id,
            name: self.name.clone(),
            button_text: self.button_text.clone(),
            button_color: self.button_color.clone(),
            display_order: self.display_order,
            action_role: self.action_role,
            requires_pair: self.requires_pair,
            pair_action_id: self.pair_action_id,
            is_active: self.is_active,
            created_at: self.created_at.clone(),
        }
    }
}

impl Clone for CheckIn {
    fn clone(&self) -> (copy: Self)
        ensures
            copy == *self,
    {
        CheckIn {
            id: self.id,
            user_id: self.user_id,
            action_type_id: self.action_type_id,
            check_time: self.check_time.clone(),
            status: self.status.clone(),
            pair_check_in_id: self.pair_check_in_id,
            duration_minutes: self.duration_minutes,
            note: clone_text(&self.note),
            is_late: self.is_late,
            is_early_leave: self.is_early_leave,
            is_manual: self.is_manual,
            created_at: self.created_at.clone(),
        }
    }
}

impl Clone for TimeRule {
    fn clone(&self) -> (copy: Self)
        ensures
            copy == *self,
    {
        TimeRule {
            id: self.id,
            rule_name: self.rule_name.clone(),
            action_type_id: self.action_type_id,
            expected_start_time: clone_text(&self.expected_start_time),
            expected_end_time: clone_text(&self.expected_end_time),
            max_duration_minutes: self.max_duration_minutes,
            timezone: self.timezone.clone(),
            is_active: self.is_active,
            created_at: self.created_at.clone(),
        }
    }
}

impl Clone for User {
    fn clone(&self) -> (copy: Self)
        ensures
            copy == *self,
    {
        User {
            id: self.id,
            username: self.username.clone(),
            password_hash: self.password_hash.clone(),
            full_name: self.full_name.clone(),
            is_admin: self.is_admin,
            created_at: self.created_at.clone(),
        }
    }
}

} // verus!
