//! The form in which a user is entered or edited.

use vstd::prelude::*;
use crate::models::{CreateUserRequest, UpdateUserRequest, UserResponse};
use crate::text::{contains_char, is_blank, opt_text, trim, trimmed};

verus! {

/// What was typed into the form.
#[derive(Debug, PartialEq, Eq)]
pub struct UserForm {
    pub name: String,
    pub email: String,
}

/// A form can be sent when neither field is blank and the address holds
/// an `@`.
pub open spec fn sendable(name: Seq<char>, email: Seq<char>) -> bool {
    trimmed(name).len() > 0 && trimmed(email).len() > 0 && email.contains('@')
}

/// What a field of the form contributes to an update: its trimmed text,
/// or nothing where that is empty.
pub open spec fn supplied(field: Seq<char>) -> Option<Seq<char>> {
    if trimmed(field).len() == 0 {
        None
    } else {
        Some(trimmed(field))
    }
}

impl Default for UserForm {
    fn default() -> (r: UserForm)
        ensures
            r.name@.len() == 0,
            r.email@.len() == 0,
    {
        UserForm { name: String::new(), email: String::new() }
    }
}

impl Clone for UserForm {
    fn clone(&self) -> (r: UserForm)
        ensures
            r.name@ == self.name@,
            r.email@ == self.email@,
    {
        UserForm { name: self.name.clone(), email: self.email.clone() }
    }
}

fn field_of(text: &str) -> (r: Option<String>)
    ensures
        opt_text(r) == supplied(text@),
{
    let kept = trim(text);
    if kept.unicode_len() == 0 {
        None
    } else {
        Some(String::from_str(kept))
    }
}

impl UserForm {
    /// An empty form.
    pub fn new() -> (r: UserForm)
        ensures
            r.name@.len() == 0,
            r.email@.len() == 0,
    {
        UserForm { name: String::new(), email: String::new() }
    }

    /// The form filled with the name and address of a user.
    pub fn from_user(user: &UserResponse) -> (r: UserForm)
        ensures
            r.name@ == user.name@,
            r.email@ == user.email@,
    {
        UserForm { name: user.name.clone(), email: user.email.clone() }
    }

    /// Tells whether the form can be sent.
    pub fn is_valid(&self) -> (r: bool)
        ensures
            r == sendable(self.name@, self.email@),
    {
        !is_blank(self.name.as_str()) && !is_blank(self.email.as_str()) && contains_char(
            self.email.as_str(),
            '@',
        )
    }

    /// Empties both fields.
    pub fn clear(&mut self)
        ensures
            final(self).name@.len() == 0,
            final(self).email@.len() == 0,
    {
        self.name = String::new();
        self.email = String::new();
    }

    /// The create-request for what was typed, trimmed.
    pub fn to_create_request(&self) -> (r: CreateUserRequest)
        ensures
            r.name@ == trimmed(self.name@),
            r.email@ == trimmed(self.email@),
    {
        CreateUserRequest {
            name: String::from_str(trim(self.name.as_str())),
            email: String::from_str(trim(self.email.as_str())),
        }
    }

    /// The update-request for what was typed: a field that is blank is left
    /// out, any other is sent trimmed.
    pub fn to_update_request(&self) -> (r: UpdateUserRequest)
        ensures
            opt_text(r.name) == supplied(self.name@),
            opt_text(r.email) == supplied(self.email@),
    {
        UpdateUserRequest {
            name: field_of(self.name.as_str()),
            email: field_of(self.email.as_str()),
        }
    }
}

} // verus!
