//! The HTML documents that the user handlers answer with.

use vstd::prelude::*;
use crate::text::{decimal, i64_to_string};
use crate::user::{User, UserView};
use crate::user_id::hyphenated;

verus! {

/// The opening of every document, up to and including `<body>`.
pub open spec fn user_html_prefix() -> Seq<char> {
    "\n<!DOCTYPE html>\n<html lang=\"en\">\n<head>\n<meta charset=\"utf-8\" />\n<title>Our Application User</title>\n</head>\n<body>\n"@
}

/// The closing of every document.
pub open spec fn user_html_suffix() -> Seq<char> {
    "</body></html>"@
}

/// The document that shows one user: the flash message of the redirect that
/// led here, if there is one, then the user's fields, a link to the edit
/// form and a link back to the list.
pub open spec fn user_page(user: UserView, flash: Option<Seq<char>>) -> Seq<char> {
    user_html_prefix() + (match flash {
        Some(message) => message,
        None => Seq::<char>::empty(),
    }) + user.html() + "<a href=\"/users/edit/"@ + hyphenated(user.uuid) + "\">Edit User</a>"@
        + "<a href=\"/users\">UserList</a>"@ + user_html_suffix()
}

/// The block that the list shows for one user: the user's fields, a link to
/// the detail page and a link to the edit form.
pub open spec fn user_entry(user: UserView) -> Seq<char> {
    user.html() + "<a href=\"/users/"@ + hyphenated(user.uuid) + "\">SeeUser</a><br/>"@
        + "<a href=\"/users/edit/"@ + hyphenated(user.uuid) + "\">EditUser</a><br/>"@
}

/// The blocks of the given users, one after the other, in their order.
pub open spec fn user_entries(users: Seq<UserView>) -> Seq<char>
    decreases users.len(),
{
    if users.len() == 0 {
        Seq::<char>::empty()
    } else {
        user_entries(users.drop_last()) + user_entry(users.last())
    }
}

/// The document that lists users: one block for each, then the link to the
/// next page, which carries the offset `next`, and the link to the new-user
/// form.
pub open spec fn users_page(users: Seq<UserView>, next: int) -> Seq<char> {
    user_html_prefix() + user_entries(users) + "<a href=\"/users?pagination="@ + decimal(next)
        + "\">Next</a><br/>"@ + "<a href=\"/users/new\">New user</a>"@ + user_html_suffix()
}

/// The users of a list as values of mathematics, in their order.
pub open spec fn user_views(users: Seq<User>) -> Seq<UserView> {
    users.map_values(|user: User| user@)
}

/// Renders the document that shows one user.
pub fn render_user(user: &User, flash: Option<&str>) -> (html: String)
    ensures
        html@ == user_page(
            user@,
            match flash {
                Some(message) => Some(message@),
                None => None,
            },
        ),
{
    let mut html = String::from_str(
        "\n<!DOCTYPE html>\n<html lang=\"en\">\n<head>\n<meta charset=\"utf-8\" />\n<title>Our Application User</title>\n</head>\n<body>\n",
    );
    match flash {
        Some(message) => {
            html.append(message);
        },
        None => {
            assert(html@ + Seq::<char>::empty() =~= html@);
        },
    }
    html.append(user.to_html_string().as_str());
    html.append("<a href=\"/users/edit/");
    html.append(user.uuid.to_string().as_str());
    html.append("\">Edit User</a>");
    html.append("<a href=\"/users\">UserList</a>");
    html.append("</body></html>");
    html
}

/// Appends the block of one user to a document.
fn push_entry(html: &mut String, user: &User)
    ensures
        final(html)@ == old(html)@ + user_entry(user@),
{
    let id = user.uuid.to_string();
    html.append(user.to_html_string().as_str());
    html.append("<a href=\"/users/");
    html.append(id.as_str());
    html.append("\">SeeUser</a><br/>");
    html.append("<a href=\"/users/edit/");
    html.append(id.as_str());
    html.append("\">EditUser</a><br/>");
    assert(final(html)@ =~= old(html)@ + user_entry(user@));
}

/// Renders the document that lists the given users and links to the page at
/// offset `next`.
pub fn render_users(users: &Vec<User>, next: i64) -> (html: String)
    ensures
        html@ == users_page(user_views(users@), next as int),
{
    let mut html = String::from_str(
        "\n<!DOCTYPE html>\n<html lang=\"en\">\n<head>\n<meta charset=\"utf-8\" />\n<title>Our Application User</title>\n</head>\n<body>\n",
    );
    let ghost views = user_views(users@);
    assert(html@ + user_entries(views.take(0)) =~= html@);
    let mut at: usize = 0;
    while at < users.len()
        invariant
            at <= users.len(),
            views == user_views(users@),
            html@ == user_html_prefix() + user_entries(views.take(at as int)),
        decreases users.len() - at,
    {
        push_entry(&mut html, &users[at]);
        proof {
            let shorter = views.take(at as int);
            let longer = views.take(at + 1);
            assert(longer.drop_last() =~= shorter);
            assert(longer.last() == users@[at as int]@);
            assert(html@ =~= user_html_prefix() + user_entries(longer));
        }
        at = at + 1;
    }
    assert(views.take(at as int) =~= views);
    html.append("<a href=\"/users?pagination=");
    html.append(i64_to_string(next).as_str());
    html.append("\">Next</a><br/>");
    html.append("<a href=\"/users/new\">New user</a>");
    html.append("</body></html>");
    html
}

} // verus!
