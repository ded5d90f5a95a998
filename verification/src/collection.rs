//! What the repository expects of the users collection, and what follows
//! for its operations when the store behaves so.
//!
//! The store is not part of this library. The predicates here say which
//! answers a store may give to a request; nothing is said of how it finds
//! them, nor of which document it picks where several are selected.

use crate::db::FilterView;
use crate::schema::UserView;
use mongodb::bson::oid::ObjectId;
use vstd::prelude::*;

verus! {

/// Every document of the collection has an identifier, and no two documents
/// share one.
pub open spec fn identified(docs: Set<UserView>) -> bool {
    &&& forall|d: UserView| #[trigger] docs.contains(d) ==> d.id is Some
    &&& forall|a: UserView, b: UserView|
        #[trigger] docs.contains(a) && #[trigger] docs.contains(b) && a.id == b.id ==> a == b
}

/// No document of the collection has the identifier `id`.
pub open spec fn unused(docs: Set<UserView>, id: ObjectId) -> bool {
    forall|d: UserView| #[trigger] docs.contains(d) ==> d.id != Some(id)
}

/// `answer` is a possible answer to a request for one document that `filter`
/// selects: a document of the collection that it selects, or nothing where
/// it selects none.
pub open spec fn answers_find(
    docs: Set<UserView>,
    filter: FilterView,
    answer: Option<UserView>,
) -> bool {
    match answer {
        Some(found) => docs.contains(found) && filter.selects(found),
        None => forall|d: UserView| #[trigger] docs.contains(d) ==> !filter.selects(d),
    }
}

/// The store takes `doc`, which comes without an identifier, gives it the
/// identifier `id`, which no other document has, and then holds `after`.
pub open spec fn answers_insert(
    before: Set<UserView>,
    doc: UserView,
    id: ObjectId,
    after: Set<UserView>,
) -> bool {
    &&& doc.id is None
    &&& unused(before, id)
    &&& after == before.insert(doc.saved_as(id))
}

/// The store removes one document that `filter` selects, if there is one,
/// reports how many it removed, and then holds `after`.
pub open spec fn answers_delete(
    before: Set<UserView>,
    filter: FilterView,
    removed: nat,
    after: Set<UserView>,
) -> bool {
    if exists|d: UserView| #[trigger] before.contains(d) && filter.selects(d) {
        &&& removed == 1
        &&& exists|d: UserView|
            #[trigger] before.contains(d) && filter.selects(d) && after == before.remove(d)
    } else {
        &&& removed == 0
        &&& after == before
    }
}

/// A user that was created is found under the identifier that the store gave
/// it, with the names that the caller passed. Whatever identifier or creation
/// time the caller passed has no effect: the document found has the store's
/// identifier and no creation time.
pub proof fn created_user_is_found_by_id(
    before: Set<UserView>,
    user: UserView,
    id: ObjectId,
    after: Set<UserView>,
    answer: Option<UserView>,
)
    requires
        identified(before),
        answers_insert(before, user.unsaved(), id, after),
        answers_find(after, FilterView::Id(id), answer),
    ensures
        identified(after),
        answer == Some(
            UserView {
                id: Some(id),
                username: user.username,
                displayname: user.displayname,
                created_at: None,
            },
        ),
{
    let saved = user.unsaved().saved_as(id);
    assert(after.contains(saved));
    assert(FilterView::Id(id).selects(saved));
}

/// A user that was created is among the possible answers to a lookup by its
/// username, and every answer to that lookup has that username.
pub proof fn created_user_is_found_by_username(
    before: Set<UserView>,
    user: UserView,
    id: ObjectId,
    after: Set<UserView>,
    answer: Option<UserView>,
)
    requires
        answers_insert(before, user.unsaved(), id, after),
        answers_find(after, FilterView::Username(user.username), answer),
    ensures
        answers_find(
            after,
            FilterView::Username(user.username),
            Some(user.unsaved().saved_as(id)),
        ),
        answer is Some,
        answer->0.username == user.username,
{
    let saved = user.unsaved().saved_as(id);
    assert(after.contains(saved));
    assert(FilterView::Username(user.username).selects(saved));
}

/// A lookup by a username that no document has finds nothing.
pub proof fn unknown_username_is_absent(
    docs: Set<UserView>,
    username: Seq<char>,
    answer: Option<UserView>,
)
    requires
        forall|d: UserView| #[trigger] docs.contains(d) ==> d.username != username,
        answers_find(docs, FilterView::Username(username), answer),
    ensures
        answer is None,
{
}

/// Once a user is deleted, a lookup by its identifier finds nothing. One
/// document is reported as removed if the identifier was in use, none
/// otherwise, and no other document leaves the collection.
pub proof fn deleted_user_is_absent(
    before: Set<UserView>,
    id: ObjectId,
    removed: nat,
    after: Set<UserView>,
    answer: Option<UserView>,
)
    requires
        identified(before),
        answers_delete(before, FilterView::Id(id), removed, after),
        answers_find(after, FilterView::Id(id), answer),
    ensures
        identified(after),
        answer is None,
        removed == 1 <==> !unused(before, id),
        forall|d: UserView| d.id != Some(id) ==> (after.contains(d) <==> before.contains(d)),
{
    let filter = FilterView::Id(id);
    if exists|d: UserView| #[trigger] before.contains(d) && filter.selects(d) {
        let gone = choose|d: UserView|
            #[trigger] before.contains(d) && filter.selects(d) && after == before.remove(d);
        assert(!unused(before, id));
        assert forall|d: UserView| #[trigger] after.contains(d) implies !filter.selects(d) by {
            if filter.selects(d) {
                assert(before.contains(d) && before.contains(gone) && d.id == gone.id);
            }
        }
    } else {
        assert(unused(before, id)) by {
            assert forall|d: UserView| #[trigger] before.contains(d) implies d.id != Some(id) by {
                assert(!filter.selects(d));
            }
        }
    }
}

/// A user that was created and then deleted is gone: the store reports one
/// document removed, holds what it held before the user was created, and a
/// lookup by the identifier finds nothing.
pub proof fn created_then_deleted_user_is_absent(
    before: Set<UserView>,
    user: UserView,
    id: ObjectId,
    created: Set<UserView>,
    removed: nat,
    after: Set<UserView>,
    answer: Option<UserView>,
)
    requires
        identified(before),
        answers_insert(before, user.unsaved(), id, created),
        answers_delete(created, FilterView::Id(id), removed, after),
        answers_find(after, FilterView::Id(id), answer),
    ensures
        removed == 1,
        after == before,
        answer is None,
{
    let filter = FilterView::Id(id);
    let saved = user.unsaved().saved_as(id);
    created_user_is_found_by_id(before, user, id, created, Some(saved));
    assert(created.contains(saved) && filter.selects(saved));
    let gone = choose|d: UserView|
        #[trigger] created.contains(d) && filter.selects(d) && after == created.remove(d);
    assert(gone == saved);
    assert(after =~= before);
    deleted_user_is_absent(created, id, removed, after, answer);
}

/// Deleting under an identifier that no document has removes nothing: the
/// store reports zero documents removed and holds what it held.
pub proof fn deleting_unknown_id_removes_nothing(
    before: Set<UserView>,
    id: ObjectId,
    removed: nat,
    after: Set<UserView>,
)
    requires
        unused(before, id),
        answers_delete(before, FilterView::Id(id), removed, after),
    ensures
        removed == 0,
        after == before,
{
}

} // verus!
