//! The shape of a user record and of the two input payloads.

use vstd::prelude::*;

verus! {

/// Mathematical view of a persisted user row.
pub struct UserView {
    pub id: int,
    pub name: Seq<char>,
    pub email: Seq<char>,
    pub created_at: Option<Seq<char>>,
}

/// A persisted user record. `id` and `created_at` are server-generated;
/// `created_at` is `None` only when a query projection omits the column.
pub struct User {
    pub id: i32,
    pub name: String,
    pub email: String,
    pub created_at: Option<String>,
}

impl View for User {
    type V = UserView;

    open spec fn view(&self) -> UserView {
        UserView {
            id: self.id as int,
            name: self.name@,
            email: self.email@,
            created_at: match self.created_at {
                Some(s) => Some(s@),
                None => None,
            },
        }
    }
}

impl Clone for User {
    fn clone(&self) -> (r: Self)
        ensures
            r@ == self@,
    {
        User {
            id: self.id,
            name: self.name.clone(),
            email: self.email.clone(),
            created_at: match &self.created_at {
                Some(s) => Some(s.clone()),
                None => None,
            },
        }
    }
}

/// Input payload for creating a user: both fields required, no id or
/// timestamp (those are server-assigned).
pub struct CreateUser {
    pub name: String,
    pub email: String,
}

impl View for CreateUser {
    type V = (Seq<char>, Seq<char>);

    open spec fn view(&self) -> (Seq<char>, Seq<char>) {
        (self.name@, self.email@)
    }
}

/// Input payload for updating a user: same shape as `CreateUser`; both
/// fields are always overwritten, there is no partial update.
pub struct UpdateUser {
    pub name: String,
    pub email: String,
}

impl View for UpdateUser {
    type V = (Seq<char>, Seq<char>);

    open spec fn view(&self) -> (Seq<char>, Seq<char>) {
        (self.name@, self.email@)
    }
}

} // verus!
