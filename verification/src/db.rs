//! The repository: which request each operation sends to the store, and what
//! it makes of the store's answer.

use crate::schema::{Message, MessageView, User, UserView};
use mongodb::bson::oid::ObjectId;
use vstd::prelude::*;
use vstd::std_specs::convert::FromSpecImpl;

verus! {

/// `mongodb::error::Error`, whatever the store client reports when a call
/// fails. The library carries such a value through and never looks inside.
#[verifier::external_type_specification]
#[verifier::external_body]
pub struct ExStoreError(mongodb::error::Error);

/// A failure of the store, kept as the client reported it.
#[derive(Debug)]
pub struct MongoError(pub mongodb::error::Error);

impl From<mongodb::error::Error> for MongoError {
    fn from(source: mongodb::error::Error) -> (wrapped: MongoError) {
        MongoError(source)
    }
}

impl FromSpecImpl<mongodb::error::Error> for MongoError {
    open spec fn obeys_from_spec() -> bool {
        true
    }

    open spec fn from_spec(source: mongodb::error::Error) -> MongoError {
        MongoError(source)
    }
}

/// The protocol version that the client asks the store to speak.
#[derive(Debug, Clone, Copy, PartialEq, Eq, Structural)]
pub enum ApiVersion {
    V1,
}

/// Which documents of the users collection a request is about: those whose
/// named field equals the given value, compared exactly.
#[derive(Debug)]
pub enum Filter {
    /// The document with this identifier.
    Id(ObjectId),
    /// The documents with this username. Nothing keeps usernames unique, so
    /// there may be several; which of them the store then answers with is
    /// not decided here.
    Username(String),
}

/// What a `Filter` holds, with its string as a sequence of characters.
pub ghost enum FilterView {
    Id(ObjectId),
    Username(Seq<char>),
}

impl View for Filter {
    type V = FilterView;

    open spec fn view(&self) -> FilterView {
        match self {
            Filter::Id(id) => FilterView::Id(*id),
            Filter::Username(name) => FilterView::Username(name@),
        }
    }
}

impl FilterView {
    /// Whether the filter selects `doc`.
    pub open spec fn selects(self, doc: UserView) -> bool {
        match self {
            FilterView::Id(id) => doc.id == Some(id),
            FilterView::Username(name) => doc.username == name,
        }
    }
}

/// A request for one document of a collection that the filter selects.
#[derive(Debug)]
pub struct FindOne {
    pub collection: String,
    pub filter: Filter,
}

/// A request to remove one document of a collection that the filter selects.
#[derive(Debug)]
pub struct DeleteOne {
    pub collection: String,
    pub filter: Filter,
}

/// A request to add `document` to a collection.
#[derive(Debug)]
pub struct InsertOne<T> {
    pub collection: String,
    pub document: T,
}

/// A request to run the command `{ name: argument }` against a database.
#[derive(Debug)]
pub struct RunCommand {
    pub database: String,
    pub name: String,
    pub argument: i32,
}

/// Where the store is and how its data is laid out: one database with a
/// collection of users and a collection of messages.
#[derive(Debug)]
pub struct DBConnection {
    uri: String,
    api: ApiVersion,
    database: String,
    users: String,
    messages: String,
}

impl DBConnection {
    /// The layout is fixed: protocol version 1, database `nocturnal`,
    /// collections `users` and `messages`.
    #[verifier::type_invariant]
    spec fn layout(&self) -> bool {
        &&& self.api == ApiVersion::V1
        &&& self.database@ == "nocturnal"@
        &&& self.users@ == "users"@
        &&& self.messages@ == "messages"@
    }

    /// The connection string that the client is opened with.
    pub closed spec fn spec_uri(&self) -> Seq<char> {
        self.uri@
    }

    /// Describes the connection to the store at `uri`.
    pub fn init(uri: String) -> (connection: DBConnection)
        ensures
            connection.spec_uri() == uri@,
    {
        DBConnection {
            uri,
            api: ApiVersion::V1,
            database: "nocturnal".to_owned(),
            users: "users".to_owned(),
            messages: "messages".to_owned(),
        }
    }

    /// The connection string that the client is opened with.
    pub fn uri(&self) -> (uri: &str)
        ensures
            uri@ == self.spec_uri(),
    {
        self.uri.as_str()
    }

    /// The protocol version to ask of the store.
    pub fn api(&self) -> (api: ApiVersion)
        ensures
            api == ApiVersion::V1,
    {
        proof {
            use_type_invariant(self);
        }
        self.api
    }

    /// The name of the database that holds the two collections.
    pub fn database(&self) -> (name: &str)
        ensures
            name@ == "nocturnal"@,
    {
        proof {
            use_type_invariant(self);
        }
        self.database.as_str()
    }

    /// What an operation returns once the store has answered: the answer
    /// itself, or the store's failure as it was reported. Nothing is retried,
    /// and an answer that says "no document" or "none removed" is an answer,
    /// not a failure.
    pub fn relay<T>(answer: Result<T, mongodb::error::Error>) -> (outcome: Result<T, MongoError>)
        ensures
            match answer {
                Ok(value) => outcome == Ok::<T, MongoError>(value),
                Err(failure) => outcome == Err::<T, MongoError>(MongoError(failure)),
            },
    {
        match answer {
            Ok(value) => Ok(value),
            Err(failure) => Err(MongoError::from(failure)),
        }
    }

    /// The request that checks that the store is alive: the command
    /// `{ "ping": 1 }` against the database.
    pub fn ping(&self) -> (request: RunCommand)
        ensures
            request.database@ == "nocturnal"@,
            request.name@ == "ping"@,
            request.argument == 1,
    {
        proof {
            use_type_invariant(self);
        }
        RunCommand { database: self.database.clone(), name: "ping".to_owned(), argument: 1 }
    }

    /// The request that asks the users collection for the document with
    /// identifier `id`.
    pub fn find_user(&self, id: ObjectId) -> (request: FindOne)
        ensures
            request.collection@ == "users"@,
            request.filter@ == FilterView::Id(id),
    {
        proof {
            use_type_invariant(self);
        }
        FindOne { collection: self.users.clone(), filter: Filter::Id(id) }
    }

    /// The request that asks the users collection for a document whose
    /// username is exactly `username`: no case folding, no prefix match.
    pub fn find_user_by_username(&self, username: &str) -> (request: FindOne)
        ensures
            request.collection@ == "users"@,
            request.filter@ == FilterView::Username(username@),
    {
        proof {
            use_type_invariant(self);
        }
        FindOne { collection: self.users.clone(), filter: Filter::Username(username.to_owned()) }
    }

    /// The request that adds a user with the names of `new_user`. An
    /// identifier or a creation time that the caller put into `new_user` is
    /// dropped: the store gives the identifier.
    pub fn create_user(&self, new_user: User) -> (request: InsertOne<User>)
        ensures
            request.collection@ == "users"@,
            request.document@ == new_user@.unsaved(),
    {
        proof {
            use_type_invariant(self);
        }
        let new_doc = User {
            id: None,
            username: new_user.username,
            displayname: new_user.displayname,
            created_at: None,
        };
        InsertOne { collection: self.users.clone(), document: new_doc }
    }

    /// The request that removes the user with identifier `id`, and nothing
    /// else: no message of that user is touched.
    pub fn delete_user(&self, id: ObjectId) -> (request: DeleteOne)
        ensures
            request.collection@ == "users"@,
            request.filter@ == FilterView::Id(id),
    {
        proof {
            use_type_invariant(self);
        }
        DeleteOne { collection: self.users.clone(), filter: Filter::Id(id) }
    }

    /// The request that adds a message by `author` with the text `content`,
    /// kept as it is. The document has no identifier and no creation time.
    pub fn create_message(&self, content: &str, author: ObjectId) -> (request: InsertOne<Message>)
        ensures
            request.collection@ == "messages"@,
            request.document@ == (MessageView {
                id: None,
                author,
                content: content@,
                created_at: None,
            }),
    {
        proof {
            use_type_invariant(self);
        }
        let new_doc = Message { id: None, author, content: content.to_owned(), created_at: None };
        InsertOne { collection: self.messages.clone(), document: new_doc }
    }
}

} // verus!
