//! Who may sign in, and under which name one may sign up.

use crate::crypto::{hash_password, password_digest, verify_password};
use crate::models::{LoginRequest, LoginResponse, RegisterRequest, User};
use crate::store::{asks, number_is, Collection, Column, Comparison, Operand, Query};
use vstd::prelude::*;
use vstd::string::StringExecFns;

verus! {

/// Why a user was not let in, or not signed up.
#[derive(Clone, Copy, Debug, PartialEq, Eq, Structural)]
pub enum AuthError {
    /// No such user, or the password is not the user's. The two are told
    /// apart for nobody.
    InvalidCredentials,
    UsernameTaken,
    UserNotFound,
}

impl AuthError {
    /// What the user is told.
    pub open spec fn spec_message(self) -> Seq<char> {
        match self {
            AuthError::InvalidCredentials => "用户名或密码错误"@,
            AuthError::UsernameTaken => "用户名已存在"@,
            AuthError::UserNotFound => "User not found"@,
        }
    }

    pub fn message(self) -> (text: &'static str)
        ensures
            text@ == self.spec_message(),
    {
        match self {
            AuthError::InvalidCredentials => "用户名或密码错误",
            AuthError::UsernameTaken => "用户名已存在",
            AuthError::UserNotFound => "User not found",
        }
    }
}

/// A user that the store is asked to keep. The store adds the identifier and
/// the time of creation.
#[derive(Debug)]
pub struct NewUser {
    pub username: String,
    pub password_hash: String,
    pub full_name: String,
    pub is_admin: bool,
}

/// The character of a decimal digit.
pub open spec fn digit_char(digit: int) -> char {
    ('0' as int + digit) as char
}

/// A natural number in decimal digits, without leading zeros.
pub open spec fn decimal_digits(number: nat) -> Seq<char>
    decreases number,
{
    if number < 10 {
        seq![digit_char(number as int)]
    } else {
        decimal_digits(number / 10).push(digit_char((number % 10) as int))
    }
}

/// A number in decimal digits, with a minus sign where it is negative.
pub open spec fn decimal_text(number: int) -> Seq<char> {
    if number < 0 {
        seq!['-'] + decimal_digits((-number) as nat)
    } else {
        decimal_digits(number as nat)
    }
}

fn digit_text(digit: u32) -> (text: &'static str)
    requires
        digit < 10,
    ensures
        text@ == seq![digit_char(digit as int)],
{
    proof {
        reveal_strlit("0");
        reveal_strlit("1");
        reveal_strlit("2");
        reveal_strlit("3");
        reveal_strlit("4");
        reveal_strlit("5");
        reveal_strlit("6");
        reveal_strlit("7");
        reveal_strlit("8");
        reveal_strlit("9");
    }
    let text = if digit == 0 {
        "0"
    } else if digit == 1 {
        "1"
    } else if digit == 2 {
        "2"
    } else if digit == 3 {
        "3"
    } else if digit == 4 {
        "4"
    } else if digit == 5 {
        "5"
    } else if digit == 6 {
        "6"
    } else if digit == 7 {
        "7"
    } else if digit == 8 {
        "8"
    } else {
        "9"
    };
    assert(text@ =~= seq![digit_char(digit as int)]);
    text
}

/// Writes a number in decimal digits.
pub fn decimal(number: i32) -> (text: String)
    ensures
        text@ == decimal_text(number as int),
{
    let magnitude: u32 = if number < 0 {
        (-(number as i64)) as u32
    } else {
        number as u32
    };
    let mut rest: u32 = magnitude / 10;
    let mut text = digit_text(magnitude % 10).to_owned();
    while rest > 0
        invariant
            decimal_digits(magnitude as nat) == if rest > 0 {
                decimal_digits(rest as nat) + text@
            } else {
                text@
            },
        decreases rest,
    {
        let mut longer = digit_text(rest % 10).to_owned();
        longer.append(text.as_str());
        assert(decimal_digits(rest as nat) =~= if rest >= 10 {
            decimal_digits((rest / 10) as nat) + seq![digit_char((rest % 10) as int)]
        } else {
            seq![digit_char((rest % 10) as int)]
        });
        text = longer;
        rest = rest / 10;
    }
    if number < 0 {
        let mut signed = "-".to_owned();
        proof {
            reveal_strlit("-");
        }
        signed.append(text.as_str());
        assert(signed@ =~= seq!['-'] + text@);
        signed
    } else {
        text
    }
}

/// The token of a session: the user's identifier, an underscore, the user's
/// name.
pub open spec fn session_token(user: User) -> Seq<char> {
    decimal_text(user.id as int) + "_"@ + user.username@
}

/// The users of a name.
pub fn user_by_name_query(username: &str) -> (query: Query)
    ensures
        query.collection == Collection::Users,
        query.predicates@.len() == 1,
        query.predicates@[0].column == Column::Username,
        query.predicates@[0].comparison == Comparison::Equal,
        query.predicates@[0].operand matches Operand::Text(name) && name@ == username@,
        query.sort is None,
{
    Query::all(Collection::Users).and(Column::Username, Comparison::Equal, Operand::Text(username.to_owned()))
}

/// The user of an identifier.
pub fn user_by_id_query(user_id: i32) -> (query: Query)
    ensures
        asks(query, Collection::Users, seq![number_is(Column::Id, user_id)], None),
{
    Query::all(Collection::Users).and(Column::Id, Comparison::Equal, Operand::Number(user_id))
}

/// Signs a user in: `users` is what the store holds under the name. The
/// first of them is let in where the password is that user's, and gets a
/// session token.
pub fn login(credentials: &LoginRequest, users: &Vec<User>) -> (response: Result<LoginResponse, AuthError>)
    ensures
        match response {
            Ok(session) => {
                &&& users@.len() > 0
                &&& password_digest(credentials.password@) == users@[0].password_hash@
                &&& session.user == users@[0]
                &&& session.token@ == session_token(users@[0])
            },
            Err(error) => {
                &&& error == AuthError::InvalidCredentials
                &&& users@.len() == 0 || password_digest(credentials.password@) != users@[0].password_hash@
            },
        },
{
    if users.len() == 0 {
        return Err(AuthError::InvalidCredentials);
    }
    let user = users[0].clone();
    if !verify_password(credentials.password.as_str(), user.password_hash.as_str()) {
        return Err(AuthError::InvalidCredentials);
    }
    let mut token = decimal(user.id);
    token.append("_");
    token.append(user.username.as_str());
    Ok(LoginResponse { user, token })
}

/// Signs a user up: `existing` is what the store holds under the name. A
/// name that is taken is refused; otherwise the new user has the digest of
/// the password and is no administrator.
pub fn register(data: RegisterRequest, existing: &Vec<User>) -> (user: Result<NewUser, AuthError>)
    ensures
        match user {
            Ok(new) => {
                &&& existing@.len() == 0
                &&& new.username == data.username
                &&& new.password_hash@ == password_digest(data.password@)
                &&& new.full_name == data.full_name
                &&& !new.is_admin
            },
            Err(error) => error == AuthError::UsernameTaken && existing@.len() > 0,
        },
{
    if existing.len() > 0 {
        return Err(AuthError::UsernameTaken);
    }
    let password_hash = hash_password(data.password.as_str());
    Ok(NewUser { username: data.username, password_hash, full_name: data.full_name, is_admin: false })
}

/// The user of a session: the first that the store holds under the
/// identifier.
pub fn get_current_user(users: &Vec<User>) -> (user: Result<User, AuthError>)
    ensures
        match user {
            Ok(found) => users@.len() > 0 && found == users@[0],
            Err(error) => error == AuthError::UserNotFound && users@.len() == 0,
        },
{
    if users.len() == 0 {
        Err(AuthError::UserNotFound)
    } else {
        Ok(users[0].clone())
    }
}

} // verus!
