//! The decisions behind the HTTP routes. Serving them is left to the program
//! that mounts them.

use crate::db::MongoError;
use crate::schema::User;
use vstd::prelude::*;

verus! {

/// What `GET /users/<username>` answers: a status, and the user as the body
/// where there is one. A body of `None` is sent as `null`.
#[derive(Debug)]
pub struct UserReply {
    pub status: u16,
    pub body: Option<User>,
}

/// The reply that a lookup calls for.
pub open spec fn reply_for(lookup: Result<Option<User>, MongoError>) -> UserReply {
    match lookup {
        Ok(Some(user)) => UserReply { status: 200, body: Some(user) },
        Ok(None) => UserReply { status: 404, body: None },
        Err(_) => UserReply { status: 500, body: None },
    }
}

/// Liveness text served at the root path.
pub fn index() -> (text: &'static str)
    ensures
        text@ == "Hello, world!"@,
{
    "Hello, world!"
}

/// Turns the outcome of a lookup by username into a reply: the user with
/// status 200, no user with status 404, and status 500 where the store
/// failed. A failure never ends the handler.
pub fn get_user(lookup: Result<Option<User>, MongoError>) -> (reply: UserReply)
    ensures
        reply == reply_for(lookup),
{
    match lookup {
        Ok(Some(user)) => UserReply { status: 200, body: Some(user) },
        Ok(None) => UserReply { status: 404, body: None },
        Err(_) => UserReply { status: 500, body: None },
    }
}

} // verus!
