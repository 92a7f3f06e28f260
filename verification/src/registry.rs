//! The roles that a punch can play, and the registry that maps the identifier
//! of an action type to its role.

use crate::models::ActionType;
use vstd::prelude::*;

verus! {

/// What a punch does: it starts or ends a shift, or starts or ends a break
/// inside one.
#[derive(Clone, Copy, Debug, PartialEq, Eq, Structural)]
pub enum Role {
    MainStart,
    MainEnd,
    BreakStart,
    BreakEnd,
}

/// Whether a record still waits for the punch that closes it.
#[derive(Clone, Copy, Debug, PartialEq, Eq, Structural)]
pub enum PunchStatus {
    Ongoing,
    Completed,
}

impl PunchStatus {
    /// The stored text of a status.
    pub open spec fn spec_text(self) -> Seq<char> {
        match self {
            PunchStatus::Ongoing => "ongoing"@,
            PunchStatus::Completed => "completed"@,
        }
    }

    pub fn text(self) -> (text: &'static str)
        ensures
            text@ == self.spec_text(),
    {
        match self {
            PunchStatus::Ongoing => "ongoing",
            PunchStatus::Completed => "completed",
        }
    }
}

impl Role {
    /// The role of a stored role code; none for a code outside 1 to 4.
    pub open spec fn spec_from_code(code: i32) -> Option<Role> {
        if code == 1 {
            Some(Role::MainStart)
        } else if code == 2 {
            Some(Role::MainEnd)
        } else if code == 3 {
            Some(Role::BreakStart)
        } else if code == 4 {
            Some(Role::BreakEnd)
        } else {
            None
        }
    }

    #[verifier::when_used_as_spec(spec_from_code)]
    pub fn from_code(code: i32) -> (role: Option<Role>)
        ensures
            role == Role::spec_from_code(code),
    {
        if code == 1 {
            Some(Role::MainStart)
        } else if code == 2 {
            Some(Role::MainEnd)
        } else if code == 3 {
            Some(Role::BreakStart)
        } else if code == 4 {
            Some(Role::BreakEnd)
        } else {
            None
        }
    }

    pub open spec fn spec_code(self) -> i32 {
        match self {
            Role::MainStart => 1,
            Role::MainEnd => 2,
            Role::BreakStart => 3,
            Role::BreakEnd => 4,
        }
    }

    /// The stored code of a role.
    #[verifier::when_used_as_spec(spec_code)]
    pub fn code(self) -> (code: i32)
        ensures
            code == self.spec_code(),
            Role::spec_from_code(code) == Some(self),
    {
        match self {
            Role::MainStart => 1,
            Role::MainEnd => 2,
            Role::BreakStart => 3,
            Role::BreakEnd => 4,
        }
    }

    pub open spec fn spec_is_start(self) -> bool {
        self == Role::MainStart || self == Role::BreakStart
    }

    /// Whether the role opens a record that a later punch closes.
    #[verifier::when_used_as_spec(spec_is_start)]
    pub fn is_start(self) -> (start: bool)
        ensures
            start == self.spec_is_start(),
    {
        match self {
            Role::MainStart => true,
            Role::BreakStart => true,
            _ => false,
        }
    }

    pub open spec fn spec_opener(self) -> Option<Role> {
        match self {
            Role::MainEnd => Some(Role::MainStart),
            Role::BreakEnd => Some(Role::BreakStart),
            _ => None,
        }
    }

    /// The start role that an end role closes; none for a start role.
    #[verifier::when_used_as_spec(spec_opener)]
    pub fn opener(self) -> (opener: Option<Role>)
        ensures
            opener == self.spec_opener(),
    {
        match self {
            Role::MainEnd => Some(Role::MainStart),
            Role::BreakEnd => Some(Role::BreakStart),
            _ => None,
        }
    }

    pub open spec fn spec_status(self) -> PunchStatus {
        if self.spec_is_start() {
            PunchStatus::Ongoing
        } else {
            PunchStatus::Completed
        }
    }

    /// The status that a record of this role is stored with: a start waits
    /// for its end, an end is complete at once.
    #[verifier::when_used_as_spec(spec_status)]
    pub fn status(self) -> (status: PunchStatus)
        ensures
            status == self.spec_status(),
    {
        if self.is_start() {
            PunchStatus::Ongoing
        } else {
            PunchStatus::Completed
        }
    }
}

/// The first action type from `from` on that has the identifier.
pub open spec fn lookup_from(registry: Seq<ActionType>, id: i32, from: int) -> Option<ActionType>
    decreases registry.len() - from,
{
    if from < 0 || from >= registry.len() {
        None
    } else if registry[from].id == id {
        Some(registry[from])
    } else {
        lookup_from(registry, id, from + 1)
    }
}

/// The action type that the registry holds for an identifier.
pub open spec fn lookup(registry: Seq<ActionType>, id: i32) -> Option<ActionType> {
    lookup_from(registry, id, 0)
}

/// The role that the registry gives an identifier: none where the registry
/// does not hold it, or holds it with a code outside 1 to 4.
pub open spec fn role_of(registry: Seq<ActionType>, id: i32) -> Option<Role> {
    match lookup(registry, id) {
        Some(action_type) => Role::spec_from_code(action_type.action_role),
        None => None,
    }
}

/// Finds the action type of an identifier in the registry.
pub fn find_action_type(registry: &Vec<ActionType>, id: i32) -> (found: Option<&ActionType>)
    ensures
        match found {
            Some(action_type) => lookup(registry@, id) == Some(*action_type),
            None => lookup(registry@, id) is None,
        },
{
    let mut index: usize = 0;
    while index < registry.len()
        invariant
            index <= registry.len(),
            lookup(registry@, id) == lookup_from(registry@, id, index as int),
        decreases registry.len() - index,
    {
        if registry[index].id == id {
            return Some(&registry[index]);
        }
        index = index + 1;
    }
    None
}

/// The role of an identifier in the registry.
pub fn role_in(registry: &Vec<ActionType>, id: i32) -> (role: Option<Role>)
    ensures
        role == role_of(registry@, id),
{
    match find_action_type(registry, id) {
        Some(action_type) => Role::from_code(action_type.action_role),
        None => None,
    }
}

} // verus!
