//! What holds of the service as a whole, proved from the contracts of its
//! parts.
//!
//! The laws that follow a request through the database are stated over a
//! table that answers as [`crate::store::answers`] says.

use vstd::prelude::*;
use crate::error::{Status, UserError};
use crate::html_response::HtmlResponse;
use crate::page::{user_html_prefix, user_html_suffix, user_page};
use crate::pagination::{next_offset, DEFAULT_LIMIT};
use crate::repository::{creation, newest_first, Action, Event, Query};
use crate::sanitize::{has_tag_delimiter, is_plain_text, stripped_of_tags};
use crate::store::{answers, holds, is_keyed, is_listing, least, page_of, Table};
use crate::user::{username_length_ok, FieldError, NewUser, User, UserView};
use crate::user_id::{has_uuid_length, hyphenated, parsed_uuid, UserId};
use crate::user_resource::{
    created_flash, text_view, CreateUser, FlashResponse, GetUser, GetUsers,
};
use crate::user_status::UserStatus;

verus! {

/// A user that was created is found again, and carries the sanitized
/// submission.
///
/// Let `create` decide to insert, let the table store the row and return
/// `user`, and let nothing be written since. Then for the text of the
/// user's identifier `find` sends a lookup, and where the lookup runs it
/// finds exactly `user`: the username and the description of the submission
/// stripped of tags, with no character left that opens or closes a tag, the
/// email as submitted, a digest that differs from the password whatever the
/// password is, and the account inactive.
pub proof fn law_created_user_is_found(
    new_user: &NewUser,
    uuid: UserId,
    salt: Seq<char>,
    insertion: Query,
    before: Table,
    inserted: Event,
    stored: Table,
    user: User,
    text: Seq<char>,
    looked_up: Event,
    after: Table,
)
    requires
        creation(new_user, uuid, salt, Ok(insertion)),
        answers(before, insertion, inserted, stored),
        User::spec_created(inserted) == Ok::<User, UserError>(user),
        parsed_uuid(text) == Some(user.uuid.value),
        User::spec_find(text) matches Ok(lookup) ==> answers(stored, lookup, looked_up, after),
        !(looked_up is Failed),
    ensures
        User::spec_find(text) == Ok::<Query, UserError>(Query::FindById { uuid: user.uuid }),
        User::spec_found(looked_up) == Ok::<User, UserError>(user),
        user.uuid == uuid,
        user.username@ == stripped_of_tags(new_user.username@),
        !has_tag_delimiter(user.username@),
        is_plain_text(new_user.username@) ==> user.username@ == new_user.username@,
        user.email@ == new_user.email@,
        user@.description == (match new_user.description {
            Some(submitted) => Some(stripped_of_tags(submitted@)),
            None => None,
        }),
        user.description matches Some(cleaned) ==> !has_tag_delimiter(cleaned@),
        user.password_hash@ != new_user.password@,
        user.status == UserStatus::Inactive,
{
}

/// A malformed identifier is a parse error and reaches no database.
///
/// `find` fails with a parse error on text that is no identifier, and a
/// request for such a user is answered `404` once the connection is there,
/// without a statement.
pub proof fn law_malformed_identifier_is_refused(
    uuid: String,
    flash: Option<String>,
    next: (GetUser, Action<HtmlResponse>),
)
    requires
        parsed_uuid(uuid@) is None,
        (GetUser::Connecting { uuid, flash }).follows(Event::Acquired, next),
    ensures
        User::spec_find(uuid@) == Err::<Query, UserError>(UserError::ParseError),
        next.0 == GetUser::Finished,
        next.1 == Action::Respond(Err::<String, Status>(Status::NotFound)),
{
}

/// The first page holds the newest users, at most ten of them.
///
/// The listing asks for ten rows from the given offset. Where the table
/// holds `n` rows and the statement for the first page runs, the users
/// listed are the lesser of `n` and ten; they come newest first; each is a
/// row of the table and none comes twice; and they are the first rows of a
/// listing of the whole table, newest first.
pub proof fn law_first_page_holds_the_newest(table: Table, event: Event, after: Table)
    requires
        table.dom().finite(),
        answers(table, User::spec_find_all(0), event, after),
        !(event is Failed),
    ensures
        User::spec_find_all(0) == (Query::FindPage { limit: 10, offset: 0 }),
        after == table,
        User::spec_listed(event) matches Ok(users) && {
            &&& users@.len() <= DEFAULT_LIMIT
            &&& users@.len() == least(table.dom().len() as int, 10)
            &&& newest_first(users@)
            &&& forall|i: int| 0 <= i < users@.len() ==> holds(table, #[trigger] users@[i])
            &&& forall|i: int, j: int|
                0 <= i < j < users@.len() ==> users@[i].uuid != users@[j].uuid
            &&& exists|all: Seq<User>| #[trigger]
                is_listing(table, all) && users@ == all.take(users@.len() as int)
        },
{
    let users = event->Rows_0;
    let all = choose|all: Seq<User>| #[trigger]
        is_listing(table, all) && users@ == page_of(all, 10, 0);
    assert(users@ == all.take(users@.len() as int));
    assert forall|i: int| 0 <= i < users@.len() implies holds(table, #[trigger] users@[i]) by {
        assert(holds(table, all[i]));
    }
    assert forall|i: int, j: int| 0 <= i <= j < users@.len() implies users@[i]
        .created_at.spec_not_before(users@[j].created_at) by {
        assert(all[i].created_at.spec_not_before(all[j].created_at));
    }
}

/// A page at any offset is cut from the listing of the whole table and
/// holds no more rows than the limit.
pub proof fn law_page_is_bounded_and_ordered(
    table: Table,
    pagination: i64,
    event: Event,
    after: Table,
)
    requires
        answers(table, User::spec_find_all(pagination), event, after),
    ensures
        User::spec_find_all(pagination) == (Query::FindPage { limit: 10, offset: pagination }),
        User::spec_listed(event) matches Ok(users) ==> users@.len() <= DEFAULT_LIMIT
            && newest_first(users@) && event == Event::Rows(users),
        User::spec_listed(event) is Err ==> event is Failed,
{
    if event is Rows {
        let users = event->Rows_0;
        let all = choose|all: Seq<User>| #[trigger]
            is_listing(table, all) && users@ == page_of(all, 10, pagination as int);
        let from = least(pagination as int, all.len() as int);
        assert forall|i: int, j: int| 0 <= i <= j < users@.len() implies users@[i]
            .created_at.spec_not_before(users@[j].created_at) by {
            assert(all[from + i].created_at.spec_not_before(all[from + j].created_at));
        }
    }
}

/// The link to the next page never points before the page just listed, and
/// at most one row after it; from the first page it points to the first
/// page.
pub proof fn law_next_offset_stays_close(count: int, current: int)
    ensures
        current <= next_offset(count, current) <= current + 1,
        current >= 0 ==> next_offset(count, current) == current,
{
}

/// A username of fewer than five or of twenty or more characters is
/// rejected before anything is asked of the database.
pub proof fn law_username_length_is_enforced<'r>(
    form: NewUser<'r>,
    start: (CreateUser<'r>, Action<FlashResponse>),
)
    requires
        !(5 <= form.username@.len() < 20),
        CreateUser::starts(Some(form), start),
    ensures
        !form.spec_is_valid(),
        form.spec_errors().contains(FieldError::UsernameLength),
        CreateUser::is_rejected(start),
        !(start.1 is Acquire) && !(start.1 is Run),
{
    assert(!username_length_ok(form.username@));
    assert(form.spec_errors()[0] == FieldError::UsernameLength);
}

/// A confirmation that differs from the password is rejected before
/// anything is asked of the database.
pub proof fn law_password_confirmation_is_enforced<'r>(
    form: NewUser<'r>,
    start: (CreateUser<'r>, Action<FlashResponse>),
)
    requires
        form.password@ != form.password_confirmation@,
        CreateUser::starts(Some(form), start),
    ensures
        !form.spec_is_valid(),
        form.spec_errors().contains(FieldError::PasswordConfirmationMismatch),
        CreateUser::is_rejected(start),
        !(start.1 is Acquire) && !(start.1 is Run),
{
    let errors = form.spec_errors();
    assert(errors[errors.len() - 1] == FieldError::PasswordConfirmationMismatch);
}

/// Whether `needle` stands somewhere in `text`, character for character.
pub open spec fn contains_text(text: Seq<char>, needle: Seq<char>) -> bool {
    exists|at: int|
        0 <= at && at + needle.len() <= text.len() && #[trigger] text.subrange(
            at,
            at + needle.len(),
        ) == needle
}

/// A text stands at the end of what it was appended to.
proof fn lemma_appended_is_contained(text: Seq<char>, needle: Seq<char>)
    ensures
        contains_text(text + needle, needle),
{
    let at = text.len() as int;
    assert((text + needle).subrange(at, at + needle.len()) =~= needle);
}

/// What stands in a text still stands in it after more is appended.
proof fn lemma_appending_keeps(text: Seq<char>, more: Seq<char>, needle: Seq<char>)
    requires
        contains_text(text, needle),
    ensures
        contains_text(text + more, needle),
{
    let at = choose|at: int|
        0 <= at && at + needle.len() <= text.len() && #[trigger] text.subrange(
            at,
            at + needle.len(),
        ) == needle;
    assert((text + more).subrange(at, at + needle.len()) =~= text.subrange(
        at,
        at + needle.len(),
    ));
}

/// What stands in a text still stands in it after more is put before it.
proof fn lemma_prepending_keeps(more: Seq<char>, text: Seq<char>, needle: Seq<char>)
    requires
        contains_text(text, needle),
    ensures
        contains_text(more + text, needle),
{
    let at = choose|at: int|
        0 <= at && at + needle.len() <= text.len() && #[trigger] text.subrange(
            at,
            at + needle.len(),
        ) == needle;
    let moved = more.len() + at;
    assert((more + text).subrange(moved, moved + needle.len()) =~= text.subrange(
        at,
        at + needle.len(),
    ));
}

/// The fields of a user, as rendered, show the username and the email.
proof fn lemma_fields_show_name_and_email(user: UserView)
    ensures
        contains_text(user.html(), user.username),
        contains_text(user.html(), user.email),
{
    let name = user.username;
    let email = user.email;
    let to_email = "</div>\n            <div><span class=\"label\">Email: </span>"@;
    let to_description = "</div>\n            <div><span class=\"label\">Description: </span>"@;
    let description = match user.description {
        Some(text) => text,
        None => Seq::<char>::empty(),
    };
    let to_status = "</div>\n            <div><span class=\"label\">Status: </span>"@;
    let status = user.status.spec_name();
    let to_created = "</div>\n            <div><span class=\"label\">Created At: </span>"@;
    let created = user.created_at.spec_rfc3339();
    let to_updated = "</div>\n            <div><span class=\"label\">Updated At: </span>"@;
    let updated = user.updated_at.spec_rfc3339();
    let end = "</div>"@;
    let h1 = "<div><span class=\"label\">UUID:</span>"@ + hyphenated(user.uuid)
        + "</div>\n            <div><span class=\"label\">Username: </span>"@;
    let h2 = h1 + name;
    let h3 = h2 + to_email;
    let h4 = h3 + email;
    let h5 = h4 + to_description;
    let h6 = h5 + description;
    let h7 = h6 + to_status;
    let h8 = h7 + status;
    let h9 = h8 + to_created;
    let h10 = h9 + created;
    let h11 = h10 + to_updated;
    let h12 = h11 + updated;
    let h13 = h12 + end;
    assert(user.html() == h13);
    lemma_appended_is_contained(h1, name);
    lemma_appending_keeps(h2, to_email, name);
    lemma_appending_keeps(h3, email, name);
    lemma_appended_is_contained(h3, email);
    lemma_appending_keeps(h4, to_description, name);
    lemma_appending_keeps(h4, to_description, email);
    lemma_appending_keeps(h5, description, name);
    lemma_appending_keeps(h5, description, email);
    lemma_appending_keeps(h6, to_status, name);
    lemma_appending_keeps(h6, to_status, email);
    lemma_appending_keeps(h7, status, name);
    lemma_appending_keeps(h7, status, email);
    lemma_appending_keeps(h8, to_created, name);
    lemma_appending_keeps(h8, to_created, email);
    lemma_appending_keeps(h9, created, name);
    lemma_appending_keeps(h9, created, email);
    lemma_appending_keeps(h10, to_updated, name);
    lemma_appending_keeps(h10, to_updated, email);
    lemma_appending_keeps(h11, updated, name);
    lemma_appending_keeps(h11, updated, email);
    lemma_appending_keeps(h12, end, name);
    lemma_appending_keeps(h12, end, email);
}

/// The page of a user shows the username and the email of the user.
pub proof fn law_user_page_shows_name_and_email(user: UserView, flash: Option<Seq<char>>)
    ensures
        contains_text(user_page(user, flash), user.username),
        contains_text(user_page(user, flash), user.email),
{
    let name = user.username;
    let email = user.email;
    let before = user_html_prefix() + (match flash {
        Some(message) => message,
        None => Seq::<char>::empty(),
    });
    let to_edit = "<a href=\"/users/edit/"@;
    let id = hyphenated(user.uuid);
    let edit = "\">Edit User</a>"@;
    let list = "<a href=\"/users\">UserList</a>"@;
    let upto1 = before + user.html();
    let upto2 = upto1 + to_edit;
    let upto3 = upto2 + id;
    let upto4 = upto3 + edit;
    let upto5 = upto4 + list;
    let upto6 = upto5 + user_html_suffix();
    assert(user_page(user, flash) == upto6);
    lemma_fields_show_name_and_email(user);
    lemma_prepending_keeps(before, user.html(), name);
    lemma_prepending_keeps(before, user.html(), email);
    lemma_appending_keeps(upto1, to_edit, name);
    lemma_appending_keeps(upto1, to_edit, email);
    lemma_appending_keeps(upto2, id, name);
    lemma_appending_keeps(upto2, id, email);
    lemma_appending_keeps(upto3, edit, name);
    lemma_appending_keeps(upto3, edit, email);
    lemma_appending_keeps(upto4, list, name);
    lemma_appending_keeps(upto4, list, email);
    lemma_appending_keeps(upto5, user_html_suffix(), name);
    lemma_appending_keeps(upto5, user_html_suffix(), email);
}

/// A valid submission leads to a page that shows the sanitized username and
/// the email.
///
/// Let `create` decide to insert, let the table store the row and return
/// `user`, and let nothing be written since. Then the submission is
/// answered with a redirect to `/users/` and an identifier. The request for
/// that identifier sends a lookup once it has a connection, and where the
/// lookup runs it is answered with a page, not a failure; the page holds
/// the username stripped of tags and the email as submitted.
pub proof fn law_created_user_has_a_page<'r>(
    new_user: &NewUser,
    uuid: UserId,
    salt: Seq<char>,
    insertion: Query,
    before: Table,
    inserted: Event,
    stored: Table,
    redirect: (CreateUser<'r>, Action<FlashResponse>),
    id: String,
    flash: Option<String>,
    finding: (GetUser, Action<HtmlResponse>),
    looked_up: Event,
    after: Table,
    answer: (GetUser, Action<HtmlResponse>),
)
    requires
        creation(new_user, uuid, salt, Ok(insertion)),
        answers(before, insertion, inserted, stored),
        !(inserted is Failed),
        CreateUser::<'r>::Inserting.follows(inserted, redirect),
        redirect.1 matches Action::Respond(Ok(to)) ==> to@.location == "/users/"@ + id@,
        (GetUser::Connecting { uuid: id, flash }).follows(Event::Acquired, finding),
        finding.1 matches Action::Run(lookup) ==> answers(stored, lookup, looked_up, after),
        !(looked_up is Failed),
        finding.0.follows(looked_up, answer),
    ensures
        redirect.1 matches Action::Respond(Ok(to)) && to@ == created_flash(uuid.value),
        id@ == hyphenated(uuid.value),
        finding.1 == Action::<HtmlResponse>::Run(Query::FindById { uuid }),
        answer.0 == GetUser::Finished,
        answer.1 matches Action::Respond(Ok(html)) && {
            &&& contains_text(html@, stripped_of_tags(new_user.username@))
            &&& contains_text(html@, new_user.email@)
        },
{
    let user = inserted->Row_0;
    let path = "/users/"@;
    assert(id@ =~= (path + id@).subrange(path.len() as int, (path + id@).len() as int));
    assert(hyphenated(uuid.value) =~= (path + hyphenated(uuid.value)).subrange(
        path.len() as int,
        (path + hyphenated(uuid.value)).len() as int,
    ));
    law_user_page_shows_name_and_email(user@, text_view(flash));
}

/// A text that has not the length of an identifier is answered `404`.
///
/// A request for a user under a text of any number of characters but 32,
/// 36, 38 or 45 is answered `404` once the connection is there, without a
/// statement.
pub proof fn law_wrong_length_is_refused(
    uuid: String,
    flash: Option<String>,
    next: (GetUser, Action<HtmlResponse>),
)
    requires
        !has_uuid_length(uuid@.len()),
        (GetUser::Connecting { uuid, flash }).follows(Event::Acquired, next),
    ensures
        next.0 == GetUser::Finished,
        next.1 == Action::Respond(Err::<String, Status>(Status::NotFound)),
{
}

/// The table stays keyed: after any answer, every row still stands under
/// its own identifier.
pub proof fn law_table_stays_keyed(before: Table, query: Query, event: Event, after: Table)
    requires
        answers(before, query, event, after),
    ensures
        is_keyed(after),
{
}

/// A request that was answered asks nothing more of the database.
pub proof fn law_finished_requests_stay_finished<'r>(
    event: Event,
    one: (GetUser, Action<HtmlResponse>),
    list: (GetUsers, Action<HtmlResponse>),
    created: (CreateUser<'r>, Action<FlashResponse>),
)
    requires
        GetUser::Finished.follows(event, one),
        GetUsers::Finished.follows(event, list),
        CreateUser::<'r>::Finished.follows(event, created),
    ensures
        one.0 == GetUser::Finished && one.1 is Respond,
        list.0 == GetUsers::Finished && list.1 is Respond,
        created.0 == CreateUser::<'r>::Finished && created.1 is Respond,
{
}

} // verus!
