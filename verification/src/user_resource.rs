//! The handlers of the user routes.
//!
//! A handler that needs the database is a small state machine. Its entry
//! function returns the machine with the first [`Action`]; the caller
//! performs each action and passes what came of it to `step`, until the
//! action is [`Action::Respond`].

use vstd::prelude::*;
use crate::error::{Status, UserError};
use crate::html_response::{Flash, FlashKind, FlashView, HtmlResponse};
use crate::page::{render_user, render_users, user_page, user_views, users_page};
use crate::repository::{creation, is_drawn, Action, Event, Query};
use crate::user::{NewUser, User};
use crate::user_id::{has_uuid_length, hyphenated, parsed_uuid, UserId};

verus! {

/// The characters of a text that may be absent.
pub open spec fn text_view(text: Option<String>) -> Option<Seq<char>> {
    match text {
        Some(t) => Some(t@),
        None => None,
    }
}

/// The progress of a request for one user.
#[derive(Debug)]
pub enum GetUser {
    /// A connection was asked for.
    Connecting { uuid: String, flash: Option<String> },
    /// The lookup statement was sent.
    Finding { flash: Option<String> },
    /// The request was answered.
    Finished,
}

/// Starts a request for the user with identifier `uuid`. `flash` is the
/// message of the redirect that led here, if there was one. The first step is
/// to acquire a connection.
pub fn get_user(uuid: &str, flash: Option<&str>) -> (start: (GetUser, Action<HtmlResponse>))
    ensures
        start.0 matches GetUser::Connecting { uuid: id, flash: message } && id@ == uuid@
            && text_view(message) == (match flash {
            Some(m) => Some(m@),
            None => None,
        }),
        start.1 is Acquire,
{
    let flash = match flash {
        Some(message) => Some(String::from_str(message)),
        None => None,
    };
    (GetUser::Connecting { uuid: String::from_str(uuid), flash }, Action::Acquire)
}

impl GetUser {
    /// Whether `next` is what follows state `self` on `event`.
    ///
    /// Without a connection the answer is `500`. With one, a malformed
    /// identifier is answered `404` and no statement is sent; otherwise the
    /// lookup is sent, and then the identifier has the length of one of the
    /// forms of a UUID. The row of the lookup is answered with the user's
    /// page; no row with `404`; anything else with `500`. A finished request
    /// answers `500` to whatever still comes.
    pub open spec fn follows(self, event: Event, next: (GetUser, Action<HtmlResponse>)) -> bool {
        match self {
            GetUser::Connecting { uuid, flash } => match event {
                Event::Acquired => match User::spec_find(uuid@) {
                    Ok(query) => next.0 == (GetUser::Finding { flash }) && next.1
                        == Action::<HtmlResponse>::Run(query) && has_uuid_length(uuid@.len()),
                    Err(e) => next.0 == GetUser::Finished && next.1 == Action::Respond(
                        Err::<String, Status>(e.spec_status()),
                    ),
                },
                _ => next.0 == GetUser::Finished && next.1 == Action::Respond(
                    Err::<String, Status>(UserError::ConnectionError.spec_status()),
                ),
            },
            GetUser::Finding { flash } => next.0 == GetUser::Finished && (match User::spec_found(
                event,
            ) {
                Ok(user) => next.1 matches Action::Respond(Ok(html)) && html@ == user_page(
                    user@,
                    text_view(flash),
                ),
                Err(e) => next.1 == Action::Respond(Err::<String, Status>(e.spec_status())),
            }),
            GetUser::Finished => next.0 == GetUser::Finished && next.1 == Action::Respond(
                Err::<String, Status>(Status::InternalServerError),
            ),
        }
    }

    /// Takes what came of the last action and decides the next one.
    pub fn step(self, event: Event) -> (next: (GetUser, Action<HtmlResponse>))
        ensures
            self.follows(event, next),
    {
        match self {
            GetUser::Connecting { uuid, flash } => match event {
                Event::Acquired => match User::find(uuid.as_str()) {
                    Ok(query) => (GetUser::Finding { flash }, Action::Run(query)),
                    Err(e) => (GetUser::Finished, Action::Respond(Err(e.status()))),
                },
                _ => (GetUser::Finished, Action::Respond(Err(UserError::ConnectionError.status()))),
            },
            GetUser::Finding { flash } => {
                let response = match User::found(event) {
                    Ok(user) => {
                        let html = match &flash {
                            Some(message) => render_user(&user, Some(message.as_str())),
                            None => render_user(&user, None),
                        };
                        Ok(html)
                    },
                    Err(e) => Err(e.status()),
                };
                (GetUser::Finished, Action::Respond(response))
            },
            GetUser::Finished => (
                GetUser::Finished,
                Action::Respond(Err(Status::InternalServerError)),
            ),
        }
    }
}

/// The progress of a request for a page of the list of users.
#[derive(Debug)]
pub enum GetUsers {
    /// A connection was asked for, to list the page at this offset.
    Connecting { pagination: i64 },
    /// The page statement was sent.
    Listing { pagination: i64 },
    /// A connection was asked for, to count the rows.
    Reconnecting { pagination: i64, users: Vec<User> },
    /// The count statement was sent.
    Counting { pagination: i64, users: Vec<User> },
    /// The request was answered.
    Finished,
}

/// Starts a request for the page of users at offset `pagination`; the first
/// page where none is given. The first step is to acquire a connection.
pub fn get_users(pagination: Option<i64>) -> (start: (GetUsers, Action<HtmlResponse>))
    ensures
        start.0 == (GetUsers::Connecting {
            pagination: match pagination {
                Some(offset) => offset,
                None => 0,
            },
        }),
        start.1 is Acquire,
{
    let pagination: i64 = match pagination {
        Some(offset) => offset,
        None => 0,
    };
    (GetUsers::Connecting { pagination }, Action::Acquire)
}

impl GetUsers {
    /// The answer to a listing that failed: `404`, whatever failed.
    pub open spec fn failed() -> (GetUsers, Action<HtmlResponse>) {
        (GetUsers::Finished, Action::Respond(Err::<String, Status>(Status::NotFound)))
    }

    /// Whether `next` is what follows state `self` on `event`.
    ///
    /// The page statement is sent on the first connection and the count
    /// statement on a second one. The rows are answered as the list page,
    /// in the order they came, with the link to the next page computed from
    /// the count. Every failure is answered `404`.
    pub open spec fn follows(self, event: Event, next: (GetUsers, Action<HtmlResponse>)) -> bool {
        match self {
            GetUsers::Connecting { pagination } => match event {
                Event::Acquired => next.0 == (GetUsers::Listing { pagination }) && next.1
                    == Action::<HtmlResponse>::Run(User::spec_find_all(pagination)),
                _ => next == GetUsers::failed(),
            },
            GetUsers::Listing { pagination } => match User::spec_listed(event) {
                Ok(users) => next.0 == (GetUsers::Reconnecting { pagination, users }) && next.1
                    == Action::<HtmlResponse>::Acquire,
                Err(_) => next == GetUsers::failed(),
            },
            GetUsers::Reconnecting { pagination, users } => match event {
                Event::Acquired => next.0 == (GetUsers::Counting { pagination, users }) && next.1
                    == Action::<HtmlResponse>::Run(Query::Count),
                _ => next == GetUsers::failed(),
            },
            GetUsers::Counting { pagination, users } => match User::spec_counted(
                event,
                pagination,
            ) {
                Ok(offset) => next.0 == GetUsers::Finished && (next.1 matches Action::Respond(
                    Ok(html),
                ) && html@ == users_page(user_views(users@), offset)),
                Err(_) => next == GetUsers::failed(),
            },
            GetUsers::Finished => next == GetUsers::failed(),
        }
    }

    /// Takes what came of the last action and decides the next one.
    pub fn step(self, event: Event) -> (next: (GetUsers, Action<HtmlResponse>))
        ensures
            self.follows(event, next),
    {
        match self {
            GetUsers::Connecting { pagination } => match event {
                Event::Acquired => (
                    GetUsers::Listing { pagination },
                    Action::Run(User::find_all(pagination)),
                ),
                _ => (GetUsers::Finished, Action::Respond(Err(Status::NotFound))),
            },
            GetUsers::Listing { pagination } => match User::listed(event) {
                Ok(users) => (GetUsers::Reconnecting { pagination, users }, Action::Acquire),
                Err(_) => (GetUsers::Finished, Action::Respond(Err(Status::NotFound))),
            },
            GetUsers::Reconnecting { pagination, users } => match event {
                Event::Acquired => (
                    GetUsers::Counting { pagination, users },
                    Action::Run(Query::Count),
                ),
                _ => (GetUsers::Finished, Action::Respond(Err(Status::NotFound))),
            },
            GetUsers::Counting { pagination, users } => match User::counted(event, pagination) {
                Ok(offset) => (
                    GetUsers::Finished,
                    Action::Respond(Ok(render_users(&users, offset))),
                ),
                Err(_) => (GetUsers::Finished, Action::Respond(Err(Status::NotFound))),
            },
            GetUsers::Finished => (GetUsers::Finished, Action::Respond(Err(Status::NotFound))),
        }
    }
}

/// The form for a new user. Not there yet: answers `501`.
pub fn new_user() -> (response: HtmlResponse)
    ensures
        response == Err::<String, Status>(Status::NotImplemented),
{
    Err(UserError::NotImplemented.status())
}

/// A redirect after a submission of the new-user form: to the created user
/// with a success message, or back to the form with an error message.
pub type FlashResponse = Result<Flash, Flash>;

/// The redirect for a submission that could not be read or breaks a rule of
/// the form.
pub open spec fn rejected_flash() -> FlashView {
    FlashView { kind: FlashKind::Error, location: "/users/new"@, message: "error_message"@ }
}

/// The redirect for a submission that was accepted but could not be stored.
/// It tells nothing of the cause.
pub open spec fn failed_flash() -> FlashView {
    FlashView {
        kind: FlashKind::Error,
        location: "/users/new"@,
        message: "<div>Something went wrong when creating user</div>"@,
    }
}

/// The redirect to the page of the user that was created.
pub open spec fn created_flash(uuid: u128) -> FlashView {
    FlashView {
        kind: FlashKind::Success,
        location: "/users/"@ + hyphenated(uuid),
        message: "<div>Successfully created user</div>"@,
    }
}

/// The progress of a submission of the new-user form.
#[derive(Debug)]
pub enum CreateUser<'r> {
    /// The form is valid and a connection was asked for.
    Connecting { form: NewUser<'r> },
    /// The insertion was sent.
    Inserting,
    /// The submission was answered.
    Finished,
}

fn rejected<'r>() -> (next: (CreateUser<'r>, Action<FlashResponse>))
    ensures
        CreateUser::is_rejected(next),
{
    let flash = Flash::error(String::from_str("/users/new"), "error_message");
    (CreateUser::Finished, Action::Respond(Err(flash)))
}

fn failed<'r>() -> (next: (CreateUser<'r>, Action<FlashResponse>))
    ensures
        CreateUser::is_failed(next),
{
    let flash = Flash::error(
        String::from_str("/users/new"),
        "<div>Something went wrong when creating user</div>",
    );
    (CreateUser::Finished, Action::Respond(Err(flash)))
}

/// Starts the handling of a submission of the new-user form. `form` is
/// `None` where the submission could not be read.
///
/// A submission that could not be read or that breaks a rule of the form is
/// answered at once, with a redirect back to the form: no connection is
/// acquired and no statement sent for it. For a valid one the first step is
/// to acquire a connection.
pub fn create_user<'r>(form: Option<NewUser<'r>>) -> (start: (
    CreateUser<'r>,
    Action<FlashResponse>,
))
    ensures
        CreateUser::starts(form, start),
{
    match form {
        Some(form) => {
            if form.is_valid() {
                (CreateUser::Connecting { form }, Action::Acquire)
            } else {
                rejected()
            }
        },
        None => rejected(),
    }
}

impl<'r> CreateUser<'r> {
    /// Whether `start` is what the handling of the submission `form` starts
    /// with: the wait for a connection where the form is valid, the
    /// rejection where it is not or could not be read.
    pub open spec fn starts(
        form: Option<NewUser<'r>>,
        start: (CreateUser<'r>, Action<FlashResponse>),
    ) -> bool {
        match form {
            Some(form) => if form.spec_is_valid() {
                start.0 == (CreateUser::Connecting { form }) && start.1 is Acquire
            } else {
                CreateUser::is_rejected(start)
            },
            None => CreateUser::is_rejected(start),
        }
    }

    /// Whether `next` answers a submission with the redirect for one that
    /// was not accepted.
    pub open spec fn is_rejected(next: (CreateUser<'r>, Action<FlashResponse>)) -> bool {
        next.0 == CreateUser::<'r>::Finished && (next.1 matches Action::Respond(Err(flash))
            && flash@ == rejected_flash())
    }

    /// Whether `next` answers a submission with the redirect for one that
    /// could not be stored.
    pub open spec fn is_failed(next: (CreateUser<'r>, Action<FlashResponse>)) -> bool {
        next.0 == CreateUser::<'r>::Finished && (next.1 matches Action::Respond(Err(flash))
            && flash@ == failed_flash())
    }

    /// Whether `next` is what follows the decision `query` of the
    /// repository on a valid submission: the insertion is sent, or the
    /// failure answered.
    pub open spec fn sends(
        query: Result<Query, UserError>,
        next: (CreateUser<'r>, Action<FlashResponse>),
    ) -> bool {
        match query {
            Ok(q) => next.0 == CreateUser::<'r>::Inserting && next.1 == Action::<
                FlashResponse,
            >::Run(q),
            Err(_) => CreateUser::is_failed(next),
        }
    }

    /// Whether `next` answers a submission whose insertion came to
    /// `created`: for the user that was stored, the redirect to the user's
    /// page, under the text of the identifier, which reads back to the
    /// identifier; for a failure, the redirect for one that could not be
    /// stored.
    pub open spec fn finishes(
        created: Result<User, UserError>,
        next: (CreateUser<'r>, Action<FlashResponse>),
    ) -> bool {
        match created {
            Ok(user) => {
                &&& next.0 == CreateUser::<'r>::Finished
                &&& next.1 matches Action::Respond(Ok(flash))
                &&& flash@ == created_flash(user.uuid.value)
                &&& parsed_uuid(hyphenated(user.uuid.value)) == Some(user.uuid.value)
            },
            Err(_) => CreateUser::is_failed(next),
        }
    }

    /// Whether `next` is what follows state `self` on `event`.
    ///
    /// Without a connection the submission fails. With one the repository
    /// draws an identifier and a salt and decides on the insertion; it
    /// fails a description too long to clean, and a password without a
    /// digest. The row that comes back is answered with a redirect to the
    /// new user's page; anything else fails. Every failure is answered with
    /// the same redirect to the form.
    pub open spec fn follows(
        self,
        event: Event,
        next: (CreateUser<'r>, Action<FlashResponse>),
    ) -> bool {
        match self {
            CreateUser::Connecting { form } => match event {
                Event::Acquired => exists|uuid: UserId, salt: Seq<char>, query: Result<Query, UserError>|
                    is_drawn(&form, uuid, salt) && #[trigger] creation(&form, uuid, salt, query)
                        && CreateUser::sends(query, next),
                _ => CreateUser::is_failed(next),
            },
            CreateUser::Inserting => CreateUser::finishes(User::spec_created(event), next),
            CreateUser::Finished => CreateUser::is_failed(next),
        }
    }

    /// Sends the insertion that the repository decided on, or answers its
    /// failure.
    pub fn send(query: Result<Query, UserError>) -> (next: (
        CreateUser<'r>,
        Action<FlashResponse>,
    ))
        ensures
            CreateUser::sends(query, next),
    {
        match query {
            Ok(q) => (CreateUser::Inserting, Action::Run(q)),
            Err(_) => failed(),
        }
    }

    /// Answers the submission once the insertion was run.
    pub fn finish(created: Result<User, UserError>) -> (next: (
        CreateUser<'r>,
        Action<FlashResponse>,
    ))
        ensures
            CreateUser::finishes(created, next),
    {
        match created {
            Ok(user) => {
                let mut location = String::from_str("/users/");
                location.append(user.uuid.to_string().as_str());
                let flash = Flash::success(location, "<div>Successfully created user</div>");
                (CreateUser::Finished, Action::Respond(Ok(flash)))
            },
            Err(_) => failed(),
        }
    }

    /// Takes what came of the last action and decides the next one.
    pub fn step(self, event: Event) -> (next: (CreateUser<'r>, Action<FlashResponse>))
        ensures
            self.follows(event, next),
    {
        match self {
            CreateUser::Connecting { form } => match event {
                Event::Acquired => {
                    let query = User::create(&form);
                    CreateUser::send(query)
                },
                _ => failed(),
            },
            CreateUser::Inserting => CreateUser::finish(User::created(event)),
            CreateUser::Finished => failed(),
        }
    }
}

/// The form to edit a user. Not there yet: answers `501`.
pub fn edit_user(_uuid: &str) -> (response: HtmlResponse)
    ensures
        response == Err::<String, Status>(Status::NotImplemented),
{
    Err(UserError::NotImplemented.status())
}

/// Replaces a user. Not there yet: answers `501`.
pub fn put_user(_uuid: &str, _user: &User) -> (response: HtmlResponse)
    ensures
        response == Err::<String, Status>(Status::NotImplemented),
{
    Err(UserError::NotImplemented.status())
}

/// Changes fields of a user. Not there yet: answers `501`.
pub fn patch_user(_uuid: &str, _user: &User) -> (response: HtmlResponse)
    ensures
        response == Err::<String, Status>(Status::NotImplemented),
{
    Err(UserError::NotImplemented.status())
}

/// Deletes a user. Not there yet: answers `501`.
pub fn delete_user(_uuid: &str) -> (response: HtmlResponse)
    ensures
        response == Err::<String, Status>(Status::NotImplemented),
{
    Err(UserError::NotImplemented.status())
}

} // verus!
