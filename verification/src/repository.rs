//! The user repository: which statement each operation sends to the
//! database, and what it makes of the answer.
//!
//! Nothing here touches a database. An operation hands out a [`Query`]; the
//! caller runs it and hands back an [`Event`].

use vstd::prelude::*;
use crate::error::UserError;
use crate::pagination::{get_new_pagination, next_offset, DEFAULT_LIMIT};
use crate::password::{hash_password, random_salt, stored_digest};
use crate::password::{argon2_digest, hashes, is_fresh_salt, PASSWORD_MAX_LEN};
use crate::sanitize::{
    clean_html, clean_optional, fits_cleaner, has_tag_delimiter, is_plain_text, stripped_of_tags,
    CLEAN_MAX_LEN,
};
use crate::user::{NewUser, User, UserView};
use crate::user_id::{has_uuid_length, is_version_4, parsed_uuid, UserId};
use crate::user_status::UserStatus;

verus! {

/// The values of the row that `create` inserts. The database adds the two
/// timestamps.
#[derive(Debug)]
pub struct NewRow {
    pub uuid: UserId,
    pub username: String,
    pub email: String,
    pub password_hash: String,
    pub description: Option<String>,
    pub status: UserStatus,
}

/// A row to insert as a value of mathematics.
pub struct NewRowView {
    pub uuid: u128,
    pub username: Seq<char>,
    pub email: Seq<char>,
    pub password_hash: Seq<char>,
    pub description: Option<Seq<char>>,
    pub status: UserStatus,
}

impl NewRowView {
    /// Whether neither the username nor the description holds a character
    /// that can open or close a tag.
    pub open spec fn is_clean(self) -> bool {
        &&& !has_tag_delimiter(self.username)
        &&& self.description matches Some(text) ==> !has_tag_delimiter(text)
    }
}

impl View for NewRow {
    type V = NewRowView;

    open spec fn view(&self) -> NewRowView {
        NewRowView {
            uuid: self.uuid.value,
            username: self.username@,
            email: self.email@,
            password_hash: self.password_hash@,
            description: match self.description {
                Some(text) => Some(text@),
                None => None,
            },
            status: self.status,
        }
    }
}

/// A statement for the database, with the values bound to its parameters in
/// the order of the fields.
#[derive(Debug)]
pub enum Query {
    /// The one row with the given identifier.
    FindById { uuid: UserId },
    /// At most `limit` rows, newest first, after skipping `offset` rows.
    FindPage { limit: i32, offset: i64 },
    /// The number of rows in the table.
    Count,
    /// Inserts the row and returns it as stored.
    Insert { row: NewRow },
}

impl Query {
    /// The SQL text of the statement.
    pub open spec fn spec_statement(&self) -> Seq<char> {
        match self {
            Query::FindById { .. } => "SELECT * FROM users WHERE uuid = $1"@,
            Query::FindPage { .. } => "SELECT * FROM users ORDER BY created_at DESC LIMIT $1 OFFSET $2"@,
            Query::Count => "SELECT COUNT(*) FROM users"@,
            Query::Insert { .. } => "INSERT INTO users (uuid,username,email,password_hash, description,status) VALUES($1, $2, $3, $4, $5, $6) RETURNING *"@,
        }
    }

    /// The SQL text of the statement.
    pub fn statement(&self) -> (sql: &'static str)
        ensures
            sql@ == self.spec_statement(),
    {
        match self {
            Query::FindById { .. } => "SELECT * FROM users WHERE uuid = $1",
            Query::FindPage { .. } => "SELECT * FROM users ORDER BY created_at DESC LIMIT $1 OFFSET $2",
            Query::Count => "SELECT COUNT(*) FROM users",
            Query::Insert { .. } => "INSERT INTO users (uuid,username,email,password_hash, description,status) VALUES($1, $2, $3, $4, $5, $6) RETURNING *",
        }
    }
}

/// Whether the users come newest first: none was created before one that
/// follows it.
pub open spec fn newest_first(users: Seq<User>) -> bool {
    forall|i: int, j: int|
        0 <= i <= j < users.len() ==> users[i].created_at.spec_not_before(users[j].created_at)
}

/// Whether the stored user holds in each column what the inserted row gave
/// for it.
pub open spec fn stored_as_inserted(user: UserView, row: NewRowView) -> bool {
    &&& user.uuid == row.uuid
    &&& user.username == row.username
    &&& user.email == row.email
    &&& user.password_hash == row.password_hash
    &&& user.description == row.description
    &&& user.status == row.status
}

/// What came of the step that the caller was asked to perform.
#[derive(Debug)]
pub enum Event {
    /// A connection was acquired.
    Acquired,
    /// No connection could be acquired.
    AcquireFailed,
    /// The statement returned this row.
    Row(User),
    /// The statement returned no row where one was asked for.
    NoRow,
    /// The statement returned these rows, in this order.
    Rows(Vec<User>),
    /// The statement returned this count, which may be null.
    Count(Option<i64>),
    /// The statement failed.
    Failed,
}

/// What the caller is asked to do next.
#[derive(Debug)]
pub enum Action<R> {
    /// Acquire a connection from the pool.
    Acquire,
    /// Run the statement on the connection acquired last.
    Run(Query),
    /// Answer the request; nothing follows.
    Respond(R),
}

/// The row that `create` inserts for a submission, given the identifier
/// drawn for it and the digest derived from its password: the username and
/// the description stripped of tags, the email as submitted, the account
/// inactive.
pub open spec fn row_to_insert(
    new_user: &NewUser,
    uuid: UserId,
    digest: Seq<char>,
) -> NewRowView {
    NewRowView {
        uuid: uuid.value,
        username: stripped_of_tags(new_user.username@),
        email: new_user.email@,
        password_hash: digest,
        description: match new_user.description {
            Some(text) => Some(stripped_of_tags(text@)),
            None => None,
        },
        status: UserStatus::Inactive,
    }
}

/// Whether the username and the description of a submission are short
/// enough for the cleaner.
pub open spec fn fits_cleaner_form(new_user: &NewUser) -> bool {
    &&& new_user.username@.len() <= CLEAN_MAX_LEN
    &&& new_user.description matches Some(text) ==> text@.len() <= CLEAN_MAX_LEN
}

/// Whether the row holds a plain username and a plain description of the
/// submission as they were submitted.
pub open spec fn keeps_plain_text(row: NewRowView, new_user: &NewUser) -> bool {
    &&& is_plain_text(new_user.username@) ==> row.username == new_user.username@
    &&& new_user.description matches Some(text) ==> (is_plain_text(text@) ==> row.description
        == Some(text@))
}

/// What `create` decides for a submission once the identifier and the salt
/// are drawn: a validation failure where the username or the description is
/// too long for the cleaner; else a hashing failure where no digest can be
/// stored; else the insertion of [`row_to_insert`], which is clean, keeps
/// plain text as it was submitted, and holds a digest that differs from the
/// password.
pub open spec fn creation(
    new_user: &NewUser,
    uuid: UserId,
    salt: Seq<char>,
    outcome: Result<Query, UserError>,
) -> bool {
    if !fits_cleaner_form(new_user) {
        outcome == Err::<Query, UserError>(UserError::ValidationError)
    } else {
        match stored_digest(new_user.password@, salt) {
            Some(digest) => {
                &&& outcome matches Ok(Query::Insert { row })
                &&& row@ == row_to_insert(new_user, uuid, digest)
                &&& row@.is_clean()
                &&& keeps_plain_text(row@, new_user)
                &&& row@.password_hash != new_user.password@
            },
            None => outcome == Err::<Query, UserError>(UserError::HashingError),
        }
    }
}

/// What holds of every identifier and salt that `create` draws for a
/// submission: the identifier is a random UUID, the salt has the form of a
/// fresh one, and where the cleaner takes the submission, the hasher has a
/// digest for a password that is not too long.
pub open spec fn is_drawn(new_user: &NewUser, uuid: UserId, salt: Seq<char>) -> bool {
    &&& is_version_4(uuid.value)
    &&& is_fresh_salt(salt)
    &&& fits_cleaner_form(new_user) ==> hashes(new_user.password@, salt)
}

impl User {
    /// What a lookup by identifier starts with: the statement for the
    /// identifier that the text stands for, or a parse error where it stands
    /// for none.
    pub open spec fn spec_find(uuid: Seq<char>) -> Result<Query, UserError> {
        match parsed_uuid(uuid) {
            Some(value) => Ok(Query::FindById { uuid: UserId { value } }),
            None => Err(UserError::ParseError),
        }
    }

    /// What a lookup by identifier makes of the answer to its statement.
    pub open spec fn spec_found(event: Event) -> Result<User, UserError> {
        match event {
            Event::Row(row) => Ok(row),
            Event::NoRow => Err(UserError::NotFoundError),
            _ => Err(UserError::StorageError),
        }
    }

    /// What a listing makes of the answer to its page statement.
    pub open spec fn spec_listed(event: Event) -> Result<Vec<User>, UserError> {
        match event {
            Event::Rows(rows) => Ok(rows),
            _ => Err(UserError::NotFoundError),
        }
    }

    /// What a listing makes of the answer to its count statement: the
    /// offset of the next page.
    pub open spec fn spec_counted(event: Event, pagination: i64) -> Result<int, UserError> {
        match event {
            Event::Count(count) => Ok(
                next_offset(
                    match count {
                        Some(n) => n as int,
                        None => 0,
                    },
                    pagination as int,
                ),
            ),
            _ => Err(UserError::NotFoundError),
        }
    }

    /// What a creation makes of the answer to its insertion.
    pub open spec fn spec_created(event: Event) -> Result<User, UserError> {
        match event {
            Event::Row(row) => Ok(row),
            _ => Err(UserError::StorageError),
        }
    }

    /// Starts a lookup by identifier: the statement to run, or
    /// [`UserError::ParseError`] where `uuid` is no identifier. No statement
    /// is sent for a malformed identifier.
    pub fn find(uuid: &str) -> (query: Result<Query, UserError>)
        ensures
            query == User::spec_find(uuid@),
            !has_uuid_length(uuid@.len()) ==> query == Err::<Query, UserError>(
                UserError::ParseError,
            ),
    {
        match UserId::parse_str(uuid) {
            Ok(uuid) => Ok(Query::FindById { uuid }),
            Err(e) => Err(e),
        }
    }

    /// Ends a lookup by identifier: the row that came back; a missing row is
    /// [`UserError::NotFoundError`], anything else
    /// [`UserError::StorageError`].
    pub fn found(event: Event) -> (user: Result<User, UserError>)
        ensures
            user == User::spec_found(event),
    {
        match event {
            Event::Row(row) => Ok(row),
            Event::NoRow => Err(UserError::NotFoundError),
            _ => Err(UserError::StorageError),
        }
    }

    /// What a listing starts with: the statement that asks for one page of
    /// users, newest first, from offset `pagination`.
    pub open spec fn spec_find_all(pagination: i64) -> Query {
        Query::FindPage { limit: DEFAULT_LIMIT as i32, offset: pagination }
    }

    /// Starts the listing of one page: the statement that asks for at most
    /// ten users, newest first, from offset `pagination`.
    pub fn find_all(pagination: i64) -> (query: Query)
        ensures
            query == User::spec_find_all(pagination),
    {
        Query::FindPage { limit: DEFAULT_LIMIT as i32, offset: pagination }
    }

    /// Reads the answer to the page statement: the rows in the order they
    /// came. Any other answer is [`UserError::NotFoundError`]; a failed
    /// statement is not told apart from an empty table.
    pub fn listed(event: Event) -> (users: Result<Vec<User>, UserError>)
        ensures
            users == User::spec_listed(event),
    {
        match event {
            Event::Rows(rows) => Ok(rows),
            _ => Err(UserError::NotFoundError),
        }
    }

    /// Reads the answer to the count statement and computes the offset of
    /// the next page from it. A null count is zero. Any other answer is
    /// [`UserError::NotFoundError`].
    pub fn counted(event: Event, pagination: i64) -> (next: Result<i64, UserError>)
        ensures
            match User::spec_counted(event, pagination) {
                Ok(offset) => next matches Ok(n) && n == offset,
                Err(e) => next == Err::<i64, UserError>(e),
            },
    {
        match event {
            Event::Count(count) => {
                let count: i64 = match count {
                    Some(n) => n,
                    None => 0,
                };
                Ok(get_new_pagination(count, pagination))
            },
            _ => Err(UserError::NotFoundError),
        }
    }

    /// Starts the creation of a user with a given identifier and salt: the
    /// insertion of the sanitized fields with the digest of the password.
    /// Fails with [`UserError::ValidationError`] where the username or the
    /// description has more than [`CLEAN_MAX_LEN`] characters, and otherwise
    /// with [`UserError::HashingError`] where no digest can be stored.
    pub fn create_with(new_user: &NewUser, uuid: UserId, salt: &str) -> (query: Result<
        Query,
        UserError,
    >)
        ensures
            creation(new_user, uuid, salt@, query),
            fits_cleaner_form(new_user) ==> hashes(new_user.password@, salt@),
    {
        if !fits_cleaner(new_user.username) {
            return Err(UserError::ValidationError);
        }
        match new_user.description {
            Some(text) => {
                if !fits_cleaner(text) {
                    return Err(UserError::ValidationError);
                }
            },
            None => {},
        }
        let username = clean_html(new_user.username);
        let description = clean_optional(new_user.description);
        match hash_password(new_user.password, salt) {
            Ok(password_hash) => {
                let row = NewRow {
                    uuid,
                    username,
                    email: String::from_str(new_user.email),
                    password_hash,
                    description,
                    status: UserStatus::Inactive,
                };
                Ok(Query::Insert { row })
            },
            Err(e) => Err(e),
        }
    }

    /// Starts the creation of a user: draws a fresh random identifier and a
    /// fresh random salt, and decides as [`User::create_with`] does for
    /// them.
    ///
    /// For a submission whose username and description the cleaner takes
    /// and whose password the hasher takes, it decides to insert, unless the
    /// digest reads exactly as the password does.
    pub fn create(new_user: &NewUser) -> (query: Result<Query, UserError>)
        ensures
            exists|uuid: UserId, salt: Seq<char>|
                is_drawn(new_user, uuid, salt) && #[trigger] creation(new_user, uuid, salt, query),
            fits_cleaner_form(new_user) && new_user.password@.len() <= PASSWORD_MAX_LEN
                ==> query is Ok || exists|salt: Seq<char>|
                is_fresh_salt(salt) && #[trigger] argon2_digest(new_user.password@, salt) == Some(
                    new_user.password@,
                ),
    {
        let uuid = UserId::new_v4();
        let salt = random_salt();
        let query = User::create_with(new_user, uuid, salt.as_str());
        assert(creation(new_user, uuid, salt@, query));
        query
    }

    /// Ends the creation of a user: the row as the database stored it, with
    /// the timestamps it assigned. Any other answer is
    /// [`UserError::StorageError`].
    pub fn created(event: Event) -> (user: Result<User, UserError>)
        ensures
            user == User::spec_created(event),
    {
        match event {
            Event::Row(row) => Ok(row),
            _ => Err(UserError::StorageError),
        }
    }
}

} // verus!
