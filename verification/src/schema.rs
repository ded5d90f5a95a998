//! The two documents of the store: users and messages.

use mongodb::bson::oid::ObjectId;
use mongodb::bson::DateTime;
use vstd::prelude::*;

verus! {

/// `mongodb::bson::oid::ObjectId`, the identifier that the store gives a
/// document. The library carries such a value through and never looks inside.
#[verifier::external_type_specification]
#[verifier::external_body]
pub struct ExObjectId(mongodb::bson::oid::ObjectId);

/// `mongodb::bson::DateTime`, a point in time as the store records it. The
/// library carries such a value through and never looks inside.
#[verifier::external_type_specification]
#[verifier::external_body]
pub struct ExDateTime(mongodb::bson::DateTime);

/// A user of the chat.
#[derive(Debug)]
pub struct User {
    /// Absent until the store has the document.
    pub id: Option<ObjectId>,
    pub username: String,
    pub displayname: String,
    pub created_at: Option<DateTime>,
}

/// What a `User` holds, with its strings as sequences of characters.
pub ghost struct UserView {
    pub id: Option<ObjectId>,
    pub username: Seq<char>,
    pub displayname: Seq<char>,
    pub created_at: Option<DateTime>,
}

impl View for User {
    type V = UserView;

    open spec fn view(&self) -> UserView {
        UserView {
            id: self.id,
            username: self.username@,
            displayname: self.displayname@,
            created_at: self.created_at,
        }
    }
}

impl UserView {
    /// The document as it goes into the store: the same names, with no
    /// identifier and no creation time.
    pub open spec fn unsaved(self) -> UserView {
        UserView { id: None, created_at: None, ..self }
    }

    /// The document as the store holds it once it has given it `id`.
    pub open spec fn saved_as(self, id: ObjectId) -> UserView {
        UserView { id: Some(id), ..self }
    }
}

/// A message of the chat.
#[derive(Debug)]
pub struct Message {
    /// Absent until the store has the document.
    pub id: Option<ObjectId>,
    /// The identifier of the user who wrote it. Nothing checks that such a
    /// user exists.
    pub author: ObjectId,
    pub content: String,
    pub created_at: Option<DateTime>,
}

/// What a `Message` holds, with its text as a sequence of characters.
pub ghost struct MessageView {
    pub id: Option<ObjectId>,
    pub author: ObjectId,
    pub content: Seq<char>,
    pub created_at: Option<DateTime>,
}

impl View for Message {
    type V = MessageView;

    open spec fn view(&self) -> MessageView {
        MessageView {
            id: self.id,
            author: self.author,
            content: self.content@,
            created_at: self.created_at,
        }
    }
}

} // verus!
