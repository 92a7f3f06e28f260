use attendance::auth::{
    decimal, get_current_user, login, register, user_by_id_query, user_by_name_query, AuthError,
};
use attendance::crypto::hash_password;
use attendance::models::{LoginRequest, RegisterRequest, User};
use attendance::store::{Collection, Column, Comparison, Operand};

fn user(id: i32, name: &str, password: &str) -> User {
    User {
        id,
        username: name.to_string(),
        password_hash: hash_password(password),
        full_name: "Full Name".to_string(),
        is_admin: false,
        created_at: String::new(),
    }
}

fn credentials(name: &str, password: &str) -> LoginRequest {
    LoginRequest { username: name.to_string(), password: password.to_string() }
}

#[test]
fn login_hands_out_a_token() {
    let session = login(&credentials("alice", "secret"), &vec![user(5, "alice", "secret")]).unwrap();
    assert_eq!(session.token, "5_alice");
    assert_eq!(session.user.id, 5);
    assert_eq!(session.user.username, "alice");
    let session = login(&credentials("bob", "pw"), &vec![user(-12, "bob", "pw"), user(3, "bob", "other")]).unwrap();
    assert_eq!(session.token, "-12_bob");
}

#[test]
fn login_refuses_a_wrong_password_and_an_unknown_user_alike() {
    let wrong = login(&credentials("alice", "guess"), &vec![user(5, "alice", "secret")]).unwrap_err();
    let unknown = login(&credentials("alice", "secret"), &vec![]).unwrap_err();
    assert_eq!(wrong, AuthError::InvalidCredentials);
    assert_eq!(unknown, AuthError::InvalidCredentials);
    assert_eq!(wrong.message(), "用户名或密码错误");
    // Only the first user of the name counts.
    let second = login(&credentials("bob", "other"), &vec![user(1, "bob", "pw"), user(3, "bob", "other")]);
    assert_eq!(second.unwrap_err(), AuthError::InvalidCredentials);
}

#[test]
fn register_refuses_a_name_that_is_taken() {
    let data = RegisterRequest { username: "alice".into(), password: "secret".into(), full_name: "Alice".into() };
    let refused = register(data, &vec![user(5, "alice", "x")]).unwrap_err();
    assert_eq!(refused, AuthError::UsernameTaken);
    assert_eq!(refused.message(), "用户名已存在");
}

#[test]
fn register_stores_the_digest_of_the_password() {
    let data = RegisterRequest { username: "alice".into(), password: "secret".into(), full_name: "Alice".into() };
    let new = register(data, &vec![]).unwrap();
    assert_eq!(new.username, "alice");
    assert_eq!(new.full_name, "Alice");
    assert_eq!(new.password_hash, "2bb80d537b1da3e38bd30361aa855686bde0eacd7162fef6a25fe97bf527a25b");
    assert!(!new.is_admin);
}

#[test]
fn current_user_is_the_first_found() {
    assert_eq!(get_current_user(&vec![user(5, "alice", "x"), user(6, "al", "y")]).unwrap().id, 5);
    let missing = get_current_user(&vec![]).unwrap_err();
    assert_eq!(missing, AuthError::UserNotFound);
    assert_eq!(missing.message(), "User not found");
}

#[test]
fn user_queries_select_by_name_and_by_identifier() {
    let query = user_by_name_query("alice");
    assert_eq!(query.collection, Collection::Users);
    assert_eq!(query.predicates.len(), 1);
    assert_eq!(query.predicates[0].column, Column::Username);
    assert_eq!(query.predicates[0].comparison, Comparison::Equal);
    assert!(matches!(&query.predicates[0].operand, Operand::Text(t) if t == "alice"));
    let query = user_by_id_query(5);
    assert_eq!(query.predicates[0].column, Column::Id);
    assert!(matches!(query.predicates[0].operand, Operand::Number(5)));
}

#[test]
fn decimal_writes_every_number_as_the_standard_library_does() {
    for number in [0, 1, 9, 10, 11, 99, 100, 101, 1000, 65_535, 2_147_483_647, -1, -9, -10, -2_147_483_647, i32::MIN] {
        assert_eq!(decimal(number), number.to_string());
    }
    assert_eq!(decimal(-2_147_483_648), "-2147483648");
    assert_eq!(decimal(1_020_304), "1020304");
}
