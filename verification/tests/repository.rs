use user_service::date_custom::DateCustom;
use user_service::error::UserError;
use user_service::repository::{Event, Query};
use user_service::sanitize::CLEAN_MAX_LEN;
use user_service::user::{NewUser, User};
use user_service::user_id::UserId;
use user_service::user_status::UserStatus;

const SALT: &str = "c29tZXNhbHQxMjM0NTY3OA";

fn stored(value: u128, username: &str, created: i64) -> User {
    User {
        uuid: UserId::from_u128(value),
        username: String::from(username),
        email: String::from("someone@example.com"),
        password_hash: String::from("digest"),
        description: None,
        status: UserStatus::Inactive,
        created_at: DateCustom::from_timestamp(created, 0).unwrap(),
        updated_at: DateCustom::from_timestamp(created, 0).unwrap(),
    }
}

fn submission<'r>() -> NewUser<'r> {
    NewUser {
        username: "<b>alice</b>",
        email: "alice@example.com",
        password: "correct horse",
        password_confirmation: "correct horse",
        description: Some("<i>Likes</i> <script>x()</script>tea"),
    }
}

#[test]
fn find_sends_the_lookup_of_the_parsed_identifier() {
    match User::find("550e8400-e29b-41d4-a716-446655440000") {
        Ok(Query::FindById { uuid }) => {
            assert_eq!(uuid, UserId::from_u128(0x550e8400e29b41d4a716446655440000))
        }
        other => panic!("{:?}", other),
    }
}

#[test]
fn find_refuses_a_malformed_identifier() {
    assert!(matches!(User::find("not-a-uuid"), Err(UserError::ParseError)));
    assert!(matches!(User::find(""), Err(UserError::ParseError)));
    assert!(matches!(User::find("12345"), Err(UserError::ParseError)));
}

#[test]
fn found_returns_the_row() {
    let user = User::found(Event::Row(stored(7, "alice", 10))).unwrap();
    assert_eq!(user.uuid, UserId::from_u128(7));
    assert_eq!(user.username, "alice");
}

#[test]
fn found_tells_a_missing_row_from_a_failure() {
    assert!(matches!(User::found(Event::NoRow), Err(UserError::NotFoundError)));
    assert!(matches!(User::found(Event::Failed), Err(UserError::StorageError)));
    assert!(matches!(User::found(Event::Rows(Vec::new())), Err(UserError::StorageError)));
    assert!(matches!(User::found(Event::Count(Some(1))), Err(UserError::StorageError)));
    assert!(matches!(User::found(Event::Acquired), Err(UserError::StorageError)));
    assert!(matches!(User::found(Event::AcquireFailed), Err(UserError::StorageError)));
}

#[test]
fn find_all_asks_for_ten_rows_from_the_offset() {
    assert!(matches!(User::find_all(0), Query::FindPage { limit: 10, offset: 0 }));
    assert!(matches!(User::find_all(30), Query::FindPage { limit: 10, offset: 30 }));
    assert!(matches!(User::find_all(-2), Query::FindPage { limit: 10, offset: -2 }));
}

#[test]
fn listed_keeps_the_rows_in_their_order() {
    let rows = vec![stored(3, "carol", 30), stored(2, "bobby", 20), stored(1, "alice", 10)];
    let users = User::listed(Event::Rows(rows)).unwrap();
    let names: Vec<&str> = users.iter().map(|u| u.username.as_str()).collect();
    assert_eq!(names, vec!["carol", "bobby", "alice"]);
    assert_eq!(User::listed(Event::Rows(Vec::new())).unwrap().len(), 0);
}

#[test]
fn listed_reports_every_failure_as_not_found() {
    assert!(matches!(User::listed(Event::Failed), Err(UserError::NotFoundError)));
    assert!(matches!(User::listed(Event::NoRow), Err(UserError::NotFoundError)));
    assert!(matches!(User::listed(Event::Row(stored(1, "alice", 1))), Err(UserError::NotFoundError)));
}

#[test]
fn counted_computes_the_next_offset() {
    assert_eq!(User::counted(Event::Count(Some(25)), 0), Ok(0));
    assert_eq!(User::counted(Event::Count(Some(25)), 10), Ok(10));
    assert_eq!(User::counted(Event::Count(Some(-9)), -4), Ok(-3));
    assert_eq!(User::counted(Event::Count(None), -4), Ok(-4));
    assert_eq!(User::counted(Event::Count(None), 3), Ok(3));
}

#[test]
fn counted_reports_every_failure_as_not_found() {
    assert_eq!(User::counted(Event::Failed, 0), Err(UserError::NotFoundError));
    assert_eq!(User::counted(Event::NoRow, 0), Err(UserError::NotFoundError));
}

#[test]
fn create_with_inserts_the_sanitized_submission() {
    let id = UserId::from_u128(0x550e8400e29b41d4a716446655440000);
    match User::create_with(&submission(), id, SALT) {
        Ok(Query::Insert { row }) => {
            assert_eq!(row.uuid, id);
            assert_eq!(row.username, "alice");
            assert_eq!(row.email, "alice@example.com");
            assert_eq!(row.description, Some(String::from("Likes tea")));
            assert_eq!(row.status, UserStatus::Inactive);
            assert_ne!(row.password_hash, "correct horse");
            assert!(row.password_hash.starts_with("$argon2id$"));
            assert!(row.password_hash.contains(SALT));
        }
        other => panic!("{:?}", other),
    }
}

#[test]
fn create_with_keeps_an_absent_description_absent() {
    let mut form = submission();
    form.description = None;
    match User::create_with(&form, UserId::from_u128(1), SALT) {
        Ok(Query::Insert { row }) => assert_eq!(row.description, None),
        other => panic!("{:?}", other),
    }
}

#[test]
fn create_with_does_not_apply_the_form_rules() {
    let mut form = submission();
    form.username = "al";
    form.password_confirmation = "something else";
    match User::create_with(&form, UserId::from_u128(1), SALT) {
        Ok(Query::Insert { row }) => assert_eq!(row.username, "al"),
        other => panic!("{:?}", other),
    }
}

#[test]
fn create_with_fails_where_no_digest_comes() {
    let outcome = User::create_with(&submission(), UserId::from_u128(1), "bad salt!");
    assert!(matches!(outcome, Err(UserError::HashingError)));
}

#[test]
fn create_draws_identifier_and_salt_afresh() {
    let one = User::create(&submission());
    let two = User::create(&submission());
    match (one, two) {
        (Ok(Query::Insert { row: a }), Ok(Query::Insert { row: b })) => {
            assert_ne!(a.uuid, b.uuid);
            assert_ne!(a.password_hash, b.password_hash);
            assert_eq!(a.username, "alice");
            assert_eq!(b.username, "alice");
            assert_eq!(uuid::Uuid::from_u128(a.uuid.value).get_version_num(), 4);
            assert_ne!(a.password_hash, "correct horse");
        }
        other => panic!("{:?}", other),
    }
}

#[test]
fn created_returns_the_row_as_stored() {
    let user = User::created(Event::Row(stored(9, "alice", 1431648000))).unwrap();
    assert_eq!(user.uuid, UserId::from_u128(9));
    assert_eq!(user.created_at.timestamp(), 1431648000);
}

#[test]
fn created_reports_every_failure_as_storage_error() {
    assert!(matches!(User::created(Event::Failed), Err(UserError::StorageError)));
    assert!(matches!(User::created(Event::NoRow), Err(UserError::StorageError)));
    assert!(matches!(User::created(Event::AcquireFailed), Err(UserError::StorageError)));
}

#[test]
fn statements_are_the_sql_of_each_query() {
    assert_eq!(
        Query::FindById { uuid: UserId::from_u128(1) }.statement(),
        "SELECT * FROM users WHERE uuid = $1"
    );
    assert_eq!(
        User::find_all(0).statement(),
        "SELECT * FROM users ORDER BY created_at DESC LIMIT $1 OFFSET $2"
    );
    assert_eq!(Query::Count.statement(), "SELECT COUNT(*) FROM users");
    let insert = User::create_with(&submission(), UserId::from_u128(1), SALT).unwrap();
    assert_eq!(
        insert.statement(),
        "INSERT INTO users (uuid,username,email,password_hash, description,status) VALUES($1, $2, $3, $4, $5, $6) RETURNING *"
    );
}

#[test]
fn create_with_refuses_text_too_long_for_the_cleaner() {
    let long = "d".repeat(CLEAN_MAX_LEN + 1);
    let mut form = submission();
    form.description = Some(&long);
    let outcome = User::create_with(&form, UserId::from_u128(1), SALT);
    assert!(matches!(outcome, Err(UserError::ValidationError)));

    let mut form = submission();
    form.username = &long;
    let outcome = User::create_with(&form, UserId::from_u128(1), SALT);
    assert!(matches!(outcome, Err(UserError::ValidationError)));
}

#[test]
fn create_with_refuses_overlong_text_before_it_hashes() {
    let long = "d".repeat(CLEAN_MAX_LEN + 1);
    let mut form = submission();
    form.description = Some(&long);
    let outcome = User::create_with(&form, UserId::from_u128(1), "bad salt!");
    assert!(matches!(outcome, Err(UserError::ValidationError)));
}

#[test]
fn create_with_keeps_plain_fields_as_submitted() {
    let form = NewUser {
        username: "alice_01",
        email: "alice@example.com",
        password: "correct horse",
        password_confirmation: "correct horse",
        description: Some("Likes tea, \"strong\"\nand biscuits"),
    };
    match User::create_with(&form, UserId::from_u128(1), SALT) {
        Ok(Query::Insert { row }) => {
            assert_eq!(row.username, "alice_01");
            assert_eq!(row.description, Some(String::from("Likes tea, \"strong\"\nand biscuits")));
        }
        other => panic!("{:?}", other),
    }
}

#[test]
fn create_draws_a_salt_of_twenty_two_base64_characters() {
    match User::create(&submission()) {
        Ok(Query::Insert { row }) => {
            let parts: Vec<&str> = row.password_hash.split('$').collect();
            assert_eq!(parts.len(), 6, "{}", row.password_hash);
            let salt = parts[4];
            assert_eq!(salt.chars().count(), 22);
            assert!(salt.chars().all(|c| c.is_ascii_alphanumeric() || c == '+' || c == '/'));
            assert!(matches!(salt.chars().last(), Some('A' | 'Q' | 'g' | 'w')));
        }
        other => panic!("{:?}", other),
    }
}

#[test]
fn create_succeeds_on_an_ordinary_submission() {
    for _ in 0..3 {
        assert!(User::create(&submission()).is_ok());
    }
}

#[test]
fn find_refuses_text_of_the_wrong_length_whatever_it_holds() {
    assert!(matches!(User::find("550e8400-e29b-41d4-a716-4466554400000"), Err(UserError::ParseError)));
    assert!(matches!(User::find("550e8400e29b41d4a716446655440"), Err(UserError::ParseError)));
    assert!(matches!(User::find("0"), Err(UserError::ParseError)));
}
