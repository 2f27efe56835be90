//! What the handlers guarantee when the store behaves as
//! [`Collection`] says: each request is followed from its first step to its
//! response, and the responses of several requests are related.
use crate::api::user_api::{
    bad_request, create_user_step, delete_user_step, error_response, get_all_users_step,
    get_user_step, not_deleted, not_updated, ok_deleted, ok_user, ok_users, resume_step,
    update_user_step, HttpResponseView, PendingView, StepView,
};
use crate::models::user_model::{is_object_id_hex, object_id_bytes, UserView};
use crate::repository::collection::Collection;
use crate::repository::mongodb_repo::{RepoErrorView, StoreCommandView, StoreReplyView};
use vstd::prelude::*;

verus! {

/// A bound on the round trips that `step` still needs against `collection`.
pub open spec fn round_trips(collection: Collection, step: StepView) -> nat {
    match step {
        StepView::Respond(_) => 0,
        StepView::Call(_, PendingView::UpdateUser { .. }) => 2,
        StepView::Call(_, PendingView::OpenCursor) => collection.users.len() + 2,
        StepView::Call(_, PendingView::DrainCursor { .. }) => collection.cursor.len() + 1,
        StepView::Call(_, _) => 1,
    }
}

/// Serves a request to its end: runs each command of the handler on the
/// collection and hands the reply back, until the handler responds. The
/// result is the collection afterwards and the response. `fresh` is the
/// identifier that the store assigns if the request inserts a record.
pub open spec fn serve(collection: Collection, step: StepView, fresh: Seq<u8>) -> (
    Collection,
    HttpResponseView,
)
    decreases round_trips(collection, step),
{
    match step {
        StepView::Respond(response) => (collection, response),
        StepView::Call(command, pending) => {
            let (after, reply) = collection.apply(command, fresh);
            serve(after, resume_step(pending, reply), fresh)
        },
    }
}

/// Identifiers stay unique: whatever the request, serving it leaves every
/// record with an identifier that no other record has.
pub proof fn identifiers_stay_unique(collection: Collection, step: StepView, fresh: Seq<u8>)
    requires
        collection.well_formed(),
    ensures
        serve(collection, step, fresh).0.well_formed(),
    decreases round_trips(collection, step),
{
    match step {
        StepView::Respond(_) => {},
        StepView::Call(command, pending) => {
            let (after, reply) = collection.apply(command, fresh);
            collection.lemma_apply_preserves_well_formed(command, fresh);
            identifiers_stay_unique(after, resume_step(pending, reply), fresh);
        },
    }
}

/// A user that was created is found again under the identifier it was given.
///
/// Creating `new_user` in a collection where `fresh` is free answers 200 with
/// the record under `fresh`; fetching by a path that writes `fresh` then
/// answers 200 with the same record: the same name, location and title, and
/// an identifier of 12 bytes. The lookup leaves the collection as it was.
pub proof fn created_user_is_fetched(
    collection: Collection,
    new_user: UserView,
    fresh: Seq<u8>,
    path: Seq<char>,
    later: Seq<u8>,
)
    requires
        collection.well_formed(),
        !collection.contains(fresh),
        is_object_id_hex(path),
        object_id_bytes(path) == fresh,
    ensures
        ({
            let (created, first) = serve(collection, create_user_step(new_user), fresh);
            let (fetched, second) = serve(created, get_user_step(path), later);
            &&& first == ok_user(new_user.with_id(Some(fresh)))
            &&& second == ok_user(new_user.with_id(Some(fresh)))
            &&& fresh.len() == 12
            &&& fetched == created
        }),
{
    reveal_with_fuel(serve, 3);
    let created = collection.apply(
        StoreCommandView::InsertOne { document: new_user.with_id(None) },
        fresh,
    ).0;
    collection.lemma_apply_preserves_well_formed(
        StoreCommandView::InsertOne { document: new_user.with_id(None) },
        fresh,
    );
    assert(created.holds_at(collection.users.len() as int, fresh));
    created.lemma_position_unique(collection.users.len() as int, fresh);
}

/// Deleting a user twice removes it the first time only.
///
/// Where a user has the identifier that `path` writes, the first deletion
/// answers 200 and the second 404.
pub proof fn second_delete_finds_nothing(
    collection: Collection,
    path: Seq<char>,
    fresh: Seq<u8>,
    later: Seq<u8>,
)
    requires
        collection.well_formed(),
        is_object_id_hex(path),
        collection.contains(object_id_bytes(path)),
    ensures
        ({
            let (after, first) = serve(collection, delete_user_step(path), fresh);
            let (_, second) = serve(after, delete_user_step(path), later);
            &&& first == ok_deleted()
            &&& first.status == 200
            &&& second == not_deleted()
            &&& second.status == 404
        }),
{
    reveal_with_fuel(serve, 3);
    collection.lemma_deleted_is_absent(object_id_bytes(path), fresh);
}

/// A user that was deleted is not found again: fetching it afterwards is
/// answered as any lookup that finds nothing, with 500.
pub proof fn deleted_user_is_not_fetched(
    collection: Collection,
    path: Seq<char>,
    fresh: Seq<u8>,
    later: Seq<u8>,
)
    requires
        collection.well_formed(),
        is_object_id_hex(path),
        collection.contains(object_id_bytes(path)),
    ensures
        ({
            let (after, _) = serve(collection, delete_user_step(path), fresh);
            let (_, second) = serve(after, get_user_step(path), later);
            &&& second == error_response(RepoErrorView::NotFound)
            &&& second.status == 500
        }),
{
    reveal_with_fuel(serve, 3);
    collection.lemma_deleted_is_absent(object_id_bytes(path), fresh);
}

/// Updating a user that is not there answers 404, not 500, and changes
/// nothing.
pub proof fn update_of_absent_user_is_not_found(
    collection: Collection,
    path: Seq<char>,
    new_user: UserView,
    fresh: Seq<u8>,
)
    requires
        is_object_id_hex(path),
        !collection.contains(object_id_bytes(path)),
    ensures
        serve(collection, update_user_step(path, new_user), fresh) == (collection, not_updated()),
        not_updated().status == 404,
{
    reveal_with_fuel(serve, 3);
}

/// Updating a user that is there answers 200 with the record as it now
/// stands: the name, location and title of the request, under the identifier
/// it had.
pub proof fn update_of_present_user_returns_it(
    collection: Collection,
    path: Seq<char>,
    new_user: UserView,
    fresh: Seq<u8>,
)
    requires
        collection.well_formed(),
        is_object_id_hex(path),
        collection.contains(object_id_bytes(path)),
    ensures
        serve(collection, update_user_step(path, new_user), fresh).1 == ok_user(
            new_user.with_id(Some(object_id_bytes(path))),
        ),
{
    reveal_with_fuel(serve, 4);
    let id = object_id_bytes(path);
    let p = collection.position(id);
    let command = StoreCommandView::UpdateOne { id, set: new_user.with_id(Some(id)) };
    let after = collection.apply(command, fresh).0;
    assert(collection.holds_at(p, id));
    collection.lemma_apply_preserves_well_formed(command, fresh);
    assert(after.holds_at(p, id));
    after.lemma_position_unique(p, id);
}

/// Fetching a user changes nothing in the collection, whatever the path.
pub proof fn lookup_changes_nothing(collection: Collection, path: Seq<char>, fresh: Seq<u8>)
    ensures
        serve(collection, get_user_step(path), fresh).0 == collection,
{
    reveal_with_fuel(serve, 3);
}

/// A request writes at most once, in its first round trip: whatever a handler
/// asks of the store when it is taken up again is a lookup or the next record
/// of the cursor.
pub proof fn resume_issues_no_write(pending: PendingView, reply: StoreReplyView)
    ensures
        resume_step(pending, reply) matches StepView::Call(command, _) ==> command is FindOne
            || command is CursorNext,
{
}

/// A path that is empty, or is not 24 hexadecimal digits for any other
/// reason, is answered with 400 by every handler that takes one, before the
/// store is asked anything.
pub proof fn malformed_path_is_bad_request(path: Seq<char>, new_user: UserView)
    requires
        path.len() == 0 || !is_object_id_hex(path),
    ensures
        get_user_step(path) == StepView::Respond(bad_request()),
        update_user_step(path, new_user) == StepView::Respond(bad_request()),
        delete_user_step(path) == StepView::Respond(bad_request()),
        bad_request().status == 400,
{
}

/// The records that creating `users` one after the other leaves, `ids` being
/// the identifiers that the store assigns in turn.
pub open spec fn created_records(users: Seq<UserView>, ids: Seq<Seq<u8>>) -> Seq<UserView> {
    Seq::new(users.len(), |i: int| users[i].with_id(Some(ids[i])))
}

/// The collection after `users` were created one after the other in an empty
/// collection.
pub open spec fn after_creating(users: Seq<UserView>, ids: Seq<Seq<u8>>) -> Collection
    decreases users.len(),
{
    if users.len() == 0 {
        Collection::empty()
    } else {
        serve(
            after_creating(users.drop_last(), ids.drop_last()),
            create_user_step(users.last()),
            ids.last(),
        ).0
    }
}

/// Creating users in an empty collection leaves exactly their records, each
/// under the identifier it was given.
pub proof fn lemma_after_creating(users: Seq<UserView>, ids: Seq<Seq<u8>>)
    requires
        users.len() == ids.len(),
        forall|i: int, j: int| 0 <= i < j < ids.len() ==> ids[i] != ids[j],
    ensures
        after_creating(users, ids).users == created_records(users, ids),
        after_creating(users, ids).well_formed(),
    decreases users.len(),
{
    reveal_with_fuel(serve, 3);
    if users.len() > 0 {
        let n = users.len() - 1;
        let before = after_creating(users.drop_last(), ids.drop_last());
        lemma_after_creating(users.drop_last(), ids.drop_last());
        assert(before.users == created_records(users.drop_last(), ids.drop_last()));
        assert forall|i: int| !before.holds_at(i, ids.last()) by {
            if 0 <= i < before.users.len() {
                assert(before.users[i].id == Some(ids[i]));
                assert(ids[i] != ids[n]);
            }
        }
        let command = StoreCommandView::InsertOne { document: users.last().with_id(None) };
        before.lemma_apply_preserves_well_formed(command, ids.last());
        assert(after_creating(users, ids).users =~= created_records(users, ids));
    } else {
        assert(after_creating(users, ids).users =~= created_records(users, ids));
    }
}

/// Draining the cursor gives the users gathered so far followed by all that
/// the cursor still held, and leaves the records alone.
pub proof fn lemma_drain(collection: Collection, gathered: Seq<UserView>, fresh: Seq<u8>)
    ensures
        serve(
            collection,
            StepView::Call(
                StoreCommandView::CursorNext,
                PendingView::DrainCursor { users: gathered },
            ),
            fresh,
        ) == (
            Collection { users: collection.users, cursor: Seq::empty() },
            ok_users(gathered + collection.cursor),
        ),
    decreases collection.cursor.len(),
{
    reveal_with_fuel(serve, 2);
    if collection.cursor.len() > 0 {
        let rest = Collection { users: collection.users, cursor: collection.cursor.drop_first() };
        lemma_drain(rest, gathered.push(collection.cursor[0]), fresh);
        assert(gathered.push(collection.cursor[0]) + collection.cursor.drop_first() =~= gathered
            + collection.cursor);
    } else {
        assert(collection.cursor =~= Seq::empty());
        assert(gathered + collection.cursor =~= gathered);
    }
}

/// Listing answers 200 with every record of the collection, and changes
/// none.
pub proof fn listing_returns_every_record(collection: Collection, fresh: Seq<u8>)
    ensures
        serve(collection, get_all_users_step(), fresh) == (
            Collection { users: collection.users, cursor: Seq::empty() },
            ok_users(collection.users),
        ),
{
    reveal_with_fuel(serve, 3);
    let opened = Collection { users: collection.users, cursor: collection.users };
    lemma_drain(opened, Seq::empty(), fresh);
    assert(Seq::<UserView>::empty() + collection.users =~= collection.users);
}

/// After N users were created in an empty collection and none was deleted,
/// listing answers 200 with exactly N records, each of them a user that was
/// created, under the identifier it was given.
pub proof fn listing_returns_every_created_user(
    users: Seq<UserView>,
    ids: Seq<Seq<u8>>,
    fresh: Seq<u8>,
)
    requires
        users.len() == ids.len(),
        forall|i: int, j: int| 0 <= i < j < ids.len() ==> ids[i] != ids[j],
    ensures
        serve(after_creating(users, ids), get_all_users_step(), fresh).1 == ok_users(
            created_records(users, ids),
        ),
        created_records(users, ids).len() == users.len(),
        forall|i: int|
            0 <= i < users.len() ==> #[trigger] created_records(users, ids)[i] == users[i].with_id(
                Some(ids[i]),
            ),
{
    lemma_after_creating(users, ids);
    listing_returns_every_record(after_creating(users, ids), fresh);
}

} // verus!
