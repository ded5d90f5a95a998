use mongodb::bson::oid::ObjectId;
use mongodb::bson::DateTime;
use mongodb::error::Error;
use nocturnal::db::{DBConnection, DeleteOne, Filter, FindOne, InsertOne};
use nocturnal::routes::get_user;
use nocturnal::schema::User;

/// Stands in for the users collection of a store: it answers the requests of
/// the repository from memory, and fails every request once `down` is set.
struct Shelf {
    users: Vec<User>,
    issued: u8,
    down: bool,
}

fn copy_of(user: &User) -> User {
    User {
        id: user.id,
        username: user.username.clone(),
        displayname: user.displayname.clone(),
        created_at: user.created_at,
    }
}

fn selects(filter: &Filter, user: &User) -> bool {
    match filter {
        Filter::Id(id) => user.id == Some(*id),
        Filter::Username(name) => user.username == *name,
    }
}

impl Shelf {
    fn empty() -> Shelf {
        Shelf { users: Vec::new(), issued: 0, down: false }
    }

    fn check(&self, collection: &str) -> Result<(), Error> {
        assert_eq!(collection, "users");
        if self.down {
            Err(Error::custom(String::from("unreachable")))
        } else {
            Ok(())
        }
    }

    fn insert_one(&mut self, request: InsertOne<User>) -> Result<ObjectId, Error> {
        self.check(&request.collection)?;
        assert!(request.document.id.is_none());
        self.issued += 1;
        let id = ObjectId::from_bytes([0, 0, 0, 0, 0, 0, 0, 0, 0, 0, 0, self.issued]);
        let mut document = request.document;
        document.id = Some(id);
        self.users.push(document);
        Ok(id)
    }

    fn find_one(&self, request: FindOne) -> Result<Option<User>, Error> {
        self.check(&request.collection)?;
        Ok(self.users.iter().find(|user| selects(&request.filter, user)).map(copy_of))
    }

    fn delete_one(&mut self, request: DeleteOne) -> Result<u64, Error> {
        self.check(&request.collection)?;
        match self.users.iter().position(|user| selects(&request.filter, user)) {
            Some(at) => {
                self.users.remove(at);
                Ok(1)
            }
            None => Ok(0),
        }
    }
}

fn named(username: &str, displayname: &str) -> User {
    User {
        id: None,
        username: String::from(username),
        displayname: String::from(displayname),
        created_at: None,
    }
}

fn repository() -> DBConnection {
    DBConnection::init(String::from("mongodb://localhost:27017"))
}

#[test]
fn basic_user_operations() {
    let db = repository();
    let mut shelf = Shelf::empty();
    let username = "evvil";
    let new_user = User {
        id: None,
        username: String::from(username),
        displayname: String::from(username),
        created_at: None,
    };
    DBConnection::relay(shelf.insert_one(db.create_user(new_user))).expect("create should be ok");
    let user = DBConnection::relay(shelf.find_one(db.find_user_by_username(username)))
        .expect("find by username should be ok")
        .expect("user with this username should exist");
    let id = user.id.unwrap();
    DBConnection::relay(shelf.find_one(db.find_user(id)))
        .expect("find by id should be ok")
        .expect("user with this id should exist");
    DBConnection::relay(shelf.delete_one(db.delete_user(id))).expect("delete should be ok");
}

#[test]
fn created_user_is_found_by_its_id() {
    let db = repository();
    let mut shelf = Shelf::empty();
    shelf.insert_one(db.create_user(named("carol", "Carol"))).unwrap();
    let forged = ObjectId::from_bytes([9; 12]);
    let user = User {
        id: Some(forged),
        username: String::from("dave"),
        displayname: String::from("Dave D."),
        created_at: Some(DateTime::from_millis(86_400_000)),
    };
    let id = DBConnection::relay(shelf.insert_one(db.create_user(user))).unwrap();
    assert_ne!(id, forged);
    let found = DBConnection::relay(shelf.find_one(db.find_user(id))).unwrap().unwrap();
    assert_eq!(found.id, Some(id));
    assert_eq!(found.username, "dave");
    assert_eq!(found.displayname, "Dave D.");
    assert_eq!(found.created_at, None);
    let by_forged = DBConnection::relay(shelf.find_one(db.find_user(forged))).unwrap();
    assert!(by_forged.is_none());
}

#[test]
fn unknown_username_is_absent() {
    let db = repository();
    let mut shelf = Shelf::empty();
    shelf.insert_one(db.create_user(named("alice", "Alice A."))).unwrap();
    let found = DBConnection::relay(shelf.find_one(db.find_user_by_username("nobody"))).unwrap();
    assert!(found.is_none());
    let found = DBConnection::relay(shelf.find_one(db.find_user_by_username("Alice"))).unwrap();
    assert!(found.is_none());
    let found = DBConnection::relay(shelf.find_one(db.find_user_by_username("alic"))).unwrap();
    assert!(found.is_none());
}

#[test]
fn deleted_user_is_absent() {
    let db = repository();
    let mut shelf = Shelf::empty();
    let kept = shelf.insert_one(db.create_user(named("erin", "Erin"))).unwrap();
    let id = shelf.insert_one(db.create_user(named("frank", "Frank"))).unwrap();
    let removed = DBConnection::relay(shelf.delete_one(db.delete_user(id))).unwrap();
    assert_eq!(removed, 1);
    assert!(DBConnection::relay(shelf.find_one(db.find_user(id))).unwrap().is_none());
    let other = DBConnection::relay(shelf.find_one(db.find_user(kept))).unwrap().unwrap();
    assert_eq!(other.username, "erin");
}

#[test]
fn deleting_an_unknown_id_removes_nothing() {
    let db = repository();
    let mut shelf = Shelf::empty();
    let kept = shelf.insert_one(db.create_user(named("gina", "Gina"))).unwrap();
    let unknown = ObjectId::from_bytes([7; 12]);
    let outcome = DBConnection::relay(shelf.delete_one(db.delete_user(unknown)));
    assert!(matches!(outcome, Ok(0)));
    assert!(DBConnection::relay(shelf.find_one(db.find_user(kept))).unwrap().is_some());
}

#[test]
fn alice_round_trip_by_username() {
    let db = repository();
    let mut shelf = Shelf::empty();
    DBConnection::relay(shelf.insert_one(db.create_user(named("alice", "Alice A.")))).unwrap();
    let found = DBConnection::relay(shelf.find_one(db.find_user_by_username("alice")))
        .unwrap()
        .unwrap();
    assert_eq!(found.username, "alice");
    assert_eq!(found.displayname, "Alice A.");
    assert_eq!(found.created_at, None);
    assert!(found.id.is_some());
}

#[test]
fn bob_end_to_end() {
    let db = repository();
    let mut shelf = Shelf::empty();
    DBConnection::relay(shelf.insert_one(db.create_user(named("bob", "Bobby")))).unwrap();
    let by_name = DBConnection::relay(shelf.find_one(db.find_user_by_username("bob")))
        .unwrap()
        .expect("bob was created");
    let id = by_name.id.expect("the store gave bob an identifier");
    let by_id = DBConnection::relay(shelf.find_one(db.find_user(id))).unwrap().expect("bob");
    assert_eq!(by_id.id, by_name.id);
    assert_eq!(by_id.username, by_name.username);
    assert_eq!(by_id.displayname, by_name.displayname);
    assert_eq!(by_id.created_at, by_name.created_at);
    assert_eq!(by_id.username, "bob");
    assert_eq!(by_id.displayname, "Bobby");
    let removed = DBConnection::relay(shelf.delete_one(db.delete_user(id)));
    assert!(matches!(removed, Ok(1)));
    assert!(DBConnection::relay(shelf.find_one(db.find_user(id))).unwrap().is_none());
}

#[test]
fn store_failure_reaches_the_caller() {
    let db = repository();
    let mut shelf = Shelf::empty();
    shelf.insert_one(db.create_user(named("heidi", "Heidi"))).unwrap();
    shelf.down = true;
    let lookup = DBConnection::relay(shelf.find_one(db.find_user_by_username("heidi")));
    match &lookup {
        Err(failure) => {
            assert_eq!(failure.0.get_custom::<String>(), Some(&String::from("unreachable")));
        }
        Ok(_) => panic!("a store that is down answers nothing"),
    }
    assert_eq!(get_user(lookup).status, 500);
    let created = DBConnection::relay(shelf.insert_one(db.create_user(named("ivan", "Ivan"))));
    assert!(created.is_err());
    let removed = DBConnection::relay(shelf.delete_one(db.delete_user(ObjectId::from_bytes([1; 12]))));
    assert!(removed.is_err());
}

#[test]
fn lookup_by_username_feeds_the_route() {
    let db = repository();
    let mut shelf = Shelf::empty();
    shelf.insert_one(db.create_user(named("judy", "Judy"))).unwrap();
    let reply = get_user(DBConnection::relay(shelf.find_one(db.find_user_by_username("judy"))));
    assert_eq!(reply.status, 200);
    assert_eq!(reply.body.expect("judy").displayname, "Judy");
    let reply = get_user(DBConnection::relay(shelf.find_one(db.find_user_by_username("jude"))));
    assert_eq!(reply.status, 404);
    assert!(reply.body.is_none());
}
