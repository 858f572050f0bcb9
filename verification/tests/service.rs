use user_service::hashing::make_hash;
use user_service::http::{echo, health};
use user_service::json::user_created_body;
use user_service::timestamp::Timestamp;
use user_service::users::{
    create_user, registration_response, InsertOutcome, NewUserRequest, UsersTable,
};

fn ts(year: u16, month: u8, day: u8, hour: u8, minute: u8, second: u8, micros: u32) -> Timestamp {
    Timestamp::new(year, month, day, hour, minute, second, micros).unwrap()
}

fn request(username: Option<&str>, email: &str, password: &str) -> NewUserRequest {
    NewUserRequest {
        username: username.map(|n| n.to_string()),
        email: email.to_string(),
        password: password.to_string(),
    }
}

#[test]
fn health_returns_greeting() {
    let r = health();
    assert_eq!(r.status, 200);
    assert_eq!(r.body, "Hello world!");
}

#[test]
fn health_is_unchanged_by_history() {
    let mut table = UsersTable::new();
    let now = ts(2024, 5, 17, 12, 0, 0, 0);
    create_user(&mut table, &request(None, "a@example.com", "pw"), now);
    let _ = echo("anything".to_string());
    let r = health();
    assert_eq!(r.status, 200);
    assert_eq!(r.body, "Hello world!");
}

#[test]
fn echo_returns_body_verbatim() {
    let r = echo("ping".to_string());
    assert_eq!(r.status, 200);
    assert_eq!(r.body, "ping");
}

#[test]
fn echo_empty_body() {
    let r = echo(String::new());
    assert_eq!(r.status, 200);
    assert_eq!(r.body, "");
}

#[test]
fn register_fresh_email_creates() {
    let mut table = UsersTable::new();
    let now = ts(2024, 5, 17, 12, 34, 56, 0);
    let req = request(Some("Alice"), "alice@example.com", "hunter2");
    let r = create_user(&mut table, &req, now);
    assert_eq!(r.status, 201);
    assert_eq!(
        r.body,
        "{\"name\":\"Alice\",\"email\":\"alice@example.com\",\"timestamp\":\"2024-05-17T12:34:56\"}"
    );
    assert_eq!(table.len(), 1);
}

#[test]
fn register_without_name_serializes_null() {
    let mut table = UsersTable::new();
    let now = ts(2001, 12, 31, 23, 59, 59, 0);
    let req = request(None, "bob@example.com", "pw");
    let r = create_user(&mut table, &req, now);
    assert_eq!(r.status, 201);
    assert_eq!(
        r.body,
        "{\"name\":null,\"email\":\"bob@example.com\",\"timestamp\":\"2001-12-31T23:59:59\"}"
    );
}

#[test]
fn register_same_request_twice_conflicts() {
    let mut table = UsersTable::new();
    let req = request(Some("Alice"), "alice@example.com", "hunter2");
    let first = create_user(&mut table, &req, ts(2024, 5, 17, 12, 34, 56, 0));
    assert_eq!(first.status, 201);
    let second = create_user(&mut table, &req, ts(2024, 5, 17, 12, 35, 0, 0));
    assert_eq!(second.status, 409);
    assert_eq!(second.body, "Email already exists");
    assert_eq!(table.len(), 1);
}

#[test]
fn register_same_email_any_password_conflicts() {
    let mut table = UsersTable::new();
    let first = create_user(
        &mut table,
        &request(Some("Alice"), "alice@example.com", "hunter2"),
        ts(2024, 5, 17, 12, 34, 56, 0),
    );
    assert_eq!(first.status, 201);
    let second = create_user(
        &mut table,
        &request(Some("Mallory"), "alice@example.com", "other-password"),
        ts(2024, 5, 17, 12, 36, 0, 0),
    );
    assert_eq!(second.status, 409);
    assert_eq!(second.body, "Email already exists");
    assert_eq!(table.len(), 1);
}

#[test]
fn register_same_password_distinct_hashes() {
    let mut table = UsersTable::new();
    let now = ts(2024, 5, 17, 12, 34, 56, 0);
    let r1 = create_user(&mut table, &request(None, "a@example.com", "shared-pw"), now);
    let r2 = create_user(&mut table, &request(None, "b@example.com", "shared-pw"), now);
    assert_eq!(r1.status, 201);
    assert_eq!(r2.status, 201);
    let u1 = table.lookup(&"a@example.com".to_string()).unwrap();
    let u2 = table.lookup(&"b@example.com".to_string()).unwrap();
    assert_ne!(u1.password_hash, u2.password_hash);
    assert_ne!(u1.password_hash, "shared-pw");
    assert_ne!(u2.password_hash, "shared-pw");
    assert!(u1.password_hash.starts_with('$'));
    assert!(u2.password_hash.starts_with('$'));
}

#[test]
fn make_hash_is_encoded_not_raw() {
    let h = make_hash(b"secret-password").unwrap();
    assert!(h.starts_with('$'));
    assert_ne!(h, "secret-password");
}

#[test]
fn registration_response_duplicate_is_fixed_message() {
    let r = registration_response(InsertOutcome::DuplicateEmail);
    assert_eq!(r.status, 409);
    assert_eq!(r.body, "Email already exists");
}

#[test]
fn registration_response_failure_is_opaque() {
    let r = registration_response(InsertOutcome::Failure);
    assert_eq!(r.status, 500);
    assert_eq!(r.body, "Error adding user to database");
}

#[test]
fn registration_response_inserted_builds_json() {
    let r = registration_response(InsertOutcome::Inserted {
        name: Some("Ann".to_string()),
        email: "ann@example.com".to_string(),
        created_at: ts(2020, 2, 29, 0, 0, 0, 0),
    });
    assert_eq!(r.status, 201);
    assert_eq!(
        r.body,
        "{\"name\":\"Ann\",\"email\":\"ann@example.com\",\"timestamp\":\"2020-02-29T00:00:00\"}"
    );
}

#[test]
fn body_escapes_quotes_and_backslashes() {
    let name = Some("A\"B\\C\nD".to_string());
    let body = user_created_body(&name, "quote\"mail@example.com", &ts(2024, 1, 2, 3, 4, 5, 0));
    assert_eq!(
        body,
        "{\"name\":\"A\\\"B\\\\C\\nD\",\"email\":\"quote\\\"mail@example.com\",\"timestamp\":\"2024-01-02T03:04:05\"}"
    );
}

#[test]
fn body_escapes_control_characters() {
    let name = Some("a\u{1}b\u{8}c\td\u{c}e\rf\u{1f}g".to_string());
    let body = user_created_body(&name, "c@example.com", &ts(2024, 1, 2, 3, 4, 5, 0));
    assert_eq!(
        body,
        "{\"name\":\"a\\u0001b\\bc\\td\\fe\\rf\\u001fg\",\"email\":\"c@example.com\",\"timestamp\":\"2024-01-02T03:04:05\"}"
    );
}

#[test]
fn body_passes_unicode_through() {
    let mut table = UsersTable::new();
    let req = request(Some("Börje"), "börje@exämple.com", "pw");
    let r = create_user(&mut table, &req, ts(2024, 1, 2, 3, 4, 5, 0));
    assert_eq!(r.status, 201);
    assert_eq!(
        r.body,
        "{\"name\":\"Börje\",\"email\":\"börje@exämple.com\",\"timestamp\":\"2024-01-02T03:04:05\"}"
    );
}

#[test]
fn timestamp_renders_whole_seconds() {
    assert_eq!(ts(2023, 1, 7, 5, 6, 9, 0).render(), "2023-01-07T05:06:09");
}

#[test]
fn timestamp_renders_milliseconds() {
    assert_eq!(ts(2023, 1, 7, 5, 6, 9, 123000).render(), "2023-01-07T05:06:09.123");
}

#[test]
fn timestamp_renders_microseconds() {
    assert_eq!(ts(2023, 1, 7, 5, 6, 9, 123456).render(), "2023-01-07T05:06:09.123456");
    assert_eq!(ts(2023, 1, 7, 5, 6, 9, 45).render(), "2023-01-07T05:06:09.000045");
}

#[test]
fn timestamp_accepts_leap_day() {
    assert!(Timestamp::new(2024, 2, 29, 0, 0, 0, 0).is_some());
    assert!(Timestamp::new(2000, 2, 29, 0, 0, 0, 0).is_some());
}

#[test]
fn timestamp_rejects_out_of_range() {
    assert!(Timestamp::new(2023, 2, 29, 0, 0, 0, 0).is_none());
    assert!(Timestamp::new(1900, 2, 29, 0, 0, 0, 0).is_none());
    assert!(Timestamp::new(2024, 4, 31, 0, 0, 0, 0).is_none());
    assert!(Timestamp::new(2024, 13, 1, 0, 0, 0, 0).is_none());
    assert!(Timestamp::new(2024, 0, 1, 0, 0, 0, 0).is_none());
    assert!(Timestamp::new(2024, 1, 0, 0, 0, 0, 0).is_none());
    assert!(Timestamp::new(0, 1, 1, 0, 0, 0, 0).is_none());
    assert!(Timestamp::new(2024, 1, 1, 24, 0, 0, 0).is_none());
    assert!(Timestamp::new(2024, 1, 1, 0, 60, 0, 0).is_none());
    assert!(Timestamp::new(2024, 1, 1, 0, 0, 60, 0).is_none());
    assert!(Timestamp::new(2024, 1, 1, 0, 0, 0, 1_000_000).is_none());
}

#[test]
fn lookup_finds_only_present_emails() {
    let mut table = UsersTable::new();
    assert!(table.lookup(&"a@example.com".to_string()).is_none());
    let r = create_user(
        &mut table,
        &request(Some("Ann"), "a@example.com", "pw"),
        ts(2024, 1, 1, 0, 0, 0, 0),
    );
    assert_eq!(r.status, 201);
    let row = table.lookup(&"a@example.com".to_string()).unwrap();
    assert_eq!(row.email, "a@example.com");
    assert_eq!(row.name.as_deref(), Some("Ann"));
    assert!(table.lookup(&"b@example.com".to_string()).is_none());
}

#[test]
fn conflict_leaves_first_row_intact() {
    let mut table = UsersTable::new();
    let first = create_user(
        &mut table,
        &request(Some("First"), "same@example.com", "pw1"),
        ts(2024, 1, 1, 0, 0, 0, 0),
    );
    assert_eq!(first.status, 201);
    let second = create_user(
        &mut table,
        &request(Some("Second"), "same@example.com", "pw2"),
        ts(2024, 1, 2, 0, 0, 0, 0),
    );
    assert_eq!(second.status, 409);
    let row = table.lookup(&"same@example.com".to_string()).unwrap();
    assert_eq!(row.name.as_deref(), Some("First"));
}
