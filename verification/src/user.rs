//! The user as it is stored, and the form that a new user is made from.

use vstd::prelude::*;
use crate::date_custom::DateCustom;
use crate::user_id::{hyphenated, UserId};
use crate::user_status::UserStatus;
use crate::text::same_text;

verus! {

/// One row of the `users` table.
#[derive(Debug)]
pub struct User {
    pub uuid: UserId,
    pub username: String,
    pub email: String,
    pub password_hash: String,
    pub description: Option<String>,
    pub status: UserStatus,
    pub created_at: DateCustom,
    pub updated_at: DateCustom,
}

/// A user as a value of mathematics: each text as its characters.
pub struct UserView {
    pub uuid: u128,
    pub username: Seq<char>,
    pub email: Seq<char>,
    pub password_hash: Seq<char>,
    pub description: Option<Seq<char>>,
    pub status: UserStatus,
    pub created_at: DateCustom,
    pub updated_at: DateCustom,
}

impl View for User {
    type V = UserView;

    open spec fn view(&self) -> UserView {
        UserView {
            uuid: self.uuid.value,
            username: self.username@,
            email: self.email@,
            password_hash: self.password_hash@,
            description: match self.description {
                Some(text) => Some(text@),
                None => None,
            },
            status: self.status,
            created_at: self.created_at,
            updated_at: self.updated_at,
        }
    }
}

impl UserView {
    /// The fields of the user as a page shows them: one labelled line for
    /// each but the password digest, which no page shows. An absent
    /// description is shown as empty.
    pub open spec fn html(self) -> Seq<char> {
        "<div><span class=\"label\">UUID:</span>"@ + hyphenated(self.uuid)
            + "</div>\n            <div><span class=\"label\">Username: </span>"@ + self.username
            + "</div>\n            <div><span class=\"label\">Email: </span>"@ + self.email
            + "</div>\n            <div><span class=\"label\">Description: </span>"@ + (
        match self.description {
            Some(text) => text,
            None => Seq::<char>::empty(),
        }) + "</div>\n            <div><span class=\"label\">Status: </span>"@
            + self.status.spec_name()
            + "</div>\n            <div><span class=\"label\">Created At: </span>"@
            + self.created_at.spec_rfc3339()
            + "</div>\n            <div><span class=\"label\">Updated At: </span>"@
            + self.updated_at.spec_rfc3339() + "</div>"@
    }
}

impl User {
    /// Renders the fields of the user as an HTML fragment.
    pub fn to_html_string(&self) -> (html: String)
        ensures
            html@ == self@.html(),
    {
        let mut html = String::from_str("<div><span class=\"label\">UUID:</span>");
        html.append(self.uuid.to_string().as_str());
        html.append("</div>\n            <div><span class=\"label\">Username: </span>");
        html.append(self.username.as_str());
        html.append("</div>\n            <div><span class=\"label\">Email: </span>");
        html.append(self.email.as_str());
        html.append("</div>\n            <div><span class=\"label\">Description: </span>");
        match &self.description {
            Some(text) => {
                html.append(text.as_str());
            },
            None => {
                assert(html@ + Seq::<char>::empty() =~= html@);
            },
        }
        html.append("</div>\n            <div><span class=\"label\">Status: </span>");
        html.append(self.status.to_string().as_str());
        html.append("</div>\n            <div><span class=\"label\">Created At: </span>");
        html.append(self.created_at.to_rfc3339().as_str());
        html.append("</div>\n            <div><span class=\"label\">Updated At: </span>");
        html.append(self.updated_at.to_rfc3339().as_str());
        html.append("</div>");
        html
    }
}

/// The least number of characters in a username.
pub const USERNAME_MIN_LEN: usize = 5;

/// The number of characters that a username must stay under.
pub const USERNAME_END_LEN: usize = 20;

/// A rule of the new-user form that a submission breaks.
#[derive(Clone, Copy, Debug, PartialEq, Eq, Structural)]
pub enum FieldError {
    /// The username is shorter than five characters, or has twenty or more.
    UsernameLength,
    /// The confirmation differs from the password.
    PasswordConfirmationMismatch,
}

impl FieldError {
    /// The name of the form field that the rule is about.
    pub open spec fn spec_field(self) -> Seq<char> {
        match self {
            FieldError::UsernameLength => "username"@,
            FieldError::PasswordConfirmationMismatch => "password_confirmation"@,
        }
    }

    /// The message that tells the user of the broken rule.
    pub open spec fn spec_message(self) -> Seq<char> {
        match self {
            FieldError::UsernameLength => "namecannot be empty"@,
            FieldError::PasswordConfirmationMismatch => "password confirmation mismatch"@,
        }
    }

    /// The name of the form field that the rule is about.
    pub fn field(&self) -> (name: &'static str)
        ensures
            name@ == self.spec_field(),
    {
        match self {
            FieldError::UsernameLength => "username",
            FieldError::PasswordConfirmationMismatch => "password_confirmation",
        }
    }

    /// The message that tells the user of the broken rule.
    pub fn message(&self) -> (message: &'static str)
        ensures
            message@ == self.spec_message(),
    {
        match self {
            FieldError::UsernameLength => "namecannot be empty",
            FieldError::PasswordConfirmationMismatch => "password confirmation mismatch",
        }
    }
}

/// The fields of the new-user form, as submitted. Nothing of it is stored
/// as it is.
#[derive(Debug)]
pub struct NewUser<'r> {
    pub username: &'r str,
    pub email: &'r str,
    pub password: &'r str,
    pub password_confirmation: &'r str,
    pub description: Option<&'r str>,
}

/// Whether a username has a length that the form accepts: at least five
/// characters and fewer than twenty.
pub open spec fn username_length_ok(username: Seq<char>) -> bool {
    USERNAME_MIN_LEN <= username.len() < USERNAME_END_LEN
}

impl<'r> NewUser<'r> {
    /// The rules that the submission breaks, in the order of the fields.
    pub open spec fn spec_errors(&self) -> Seq<FieldError> {
        (if username_length_ok(self.username@) {
            Seq::<FieldError>::empty()
        } else {
            seq![FieldError::UsernameLength]
        }) + (if self.password_confirmation@ == self.password@ {
            Seq::<FieldError>::empty()
        } else {
            seq![FieldError::PasswordConfirmationMismatch]
        })
    }

    /// Whether the submission breaks no rule.
    pub open spec fn spec_is_valid(&self) -> bool {
        username_length_ok(self.username@) && self.password_confirmation@ == self.password@
    }

    /// Lists the rules that the submission breaks, in the order of the
    /// fields; the list is empty for a valid submission.
    pub fn validate(&self) -> (errors: Vec<FieldError>)
        ensures
            errors@ == self.spec_errors(),
            errors@.len() == 0 <==> self.spec_is_valid(),
    {
        let mut errors: Vec<FieldError> = Vec::new();
        let len: usize = self.username.unicode_len();
        if len < USERNAME_MIN_LEN || len >= USERNAME_END_LEN {
            errors.push(FieldError::UsernameLength);
        }
        if !same_text(self.password_confirmation, self.password) {
            errors.push(FieldError::PasswordConfirmationMismatch);
        }
        assert(errors@ =~= self.spec_errors());
        errors
    }

    /// Whether the submission breaks no rule.
    pub fn is_valid(&self) -> (valid: bool)
        ensures
            valid == self.spec_is_valid(),
    {
        let len: usize = self.username.unicode_len();
        USERNAME_MIN_LEN <= len && len < USERNAME_END_LEN && same_text(
            self.password_confirmation,
            self.password,
        )
    }
}

} // verus!
