//! The persisted user record and the payload that creates or replaces one.

use vstd::prelude::*;

verus! {

/// A stored user: `id` is given by the store and never changes.
#[derive(Debug, PartialEq, Eq)]
pub struct User {
    pub id: i32,
    pub username: String,
    pub remark: String,
}

/// What a client sends to create a user or to replace one's fields.
#[derive(Debug, PartialEq, Eq)]
pub struct NewUser {
    pub username: String,
    pub remark: String,
}

/// A payload may be stored only when neither field is empty.
pub open spec fn payload_is_valid(body: NewUser) -> bool {
    body.username@.len() > 0 && body.remark@.len() > 0
}

impl Clone for User {
    fn clone(&self) -> (r: User)
        ensures
            r == *self,
    {
        User { id: self.id, username: self.username.clone(), remark: self.remark.clone() }
    }
}

impl Clone for NewUser {
    fn clone(&self) -> (r: NewUser)
        ensures
            r == *self,
    {
        NewUser { username: self.username.clone(), remark: self.remark.clone() }
    }
}

impl User {
    /// The record that `body` becomes under the id `id`.
    pub fn from_payload(id: i32, body: NewUser) -> (r: User)
        ensures
            r.id == id,
            r.username == body.username,
            r.remark == body.remark,
    {
        User { id, username: body.username, remark: body.remark }
    }
}

impl NewUser {
    /// Whether the payload may be stored: both fields are non-empty.
    pub fn is_valid(&self) -> (r: bool)
        ensures
            r == payload_is_valid(*self),
    {
        !self.username.as_str().is_empty() && !self.remark.as_str().is_empty()
    }
}

} // verus!
