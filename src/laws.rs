//! Properties that relate several operations of the table and the replies
//! that the handlers build from them.

use vstd::prelude::*;

use crate::error::{ApiError, StoreError};
use crate::handlers::{one_row_reply, Reply};
use crate::model::{payload_is_valid, NewUser, User};
use crate::table::{
    delete_outcome, get_outcome, holds_id, insert_outcome, update_outcome, UserTable,
};

verus! {

/// Creating a user from a valid payload and then reading its id gives back
/// exactly the created user.
pub proof fn lemma_create_then_get(
    before: UserTable,
    body: NewUser,
    created: Result<User, StoreError>,
    mid: UserTable,
    found: Result<User, StoreError>,
)
    requires
        before.wf(),
        payload_is_valid(body),
        insert_outcome(before, body, created, mid),
        created is Ok,
        get_outcome(mid.rows(), created->Ok_0.id, found),
    ensures
        found == created,
{
    let u = created->Ok_0;
    let n = before.rows().len();
    assert(mid.rows()[n as int] == u);
    let v = found->Ok_0;
    let k = choose|k: int| 0 <= k < mid.rows().len() && mid.rows()[k] == v;
    if k < n {
        assert(before.rows()[k] == mid.rows()[k]);
    }
}

/// An id that no row has is reported missing by a read, an update and a
/// removal alike, none of which changes the table; each reply is a 404, never
/// a failure of the server.
pub proof fn lemma_missing_id_not_found(
    t: UserTable,
    id: i32,
    body: NewUser,
    found: Result<User, StoreError>,
    updated: Result<User, StoreError>,
    after_update: UserTable,
    deleted: Result<User, StoreError>,
    after_delete: UserTable,
    found_reply: Result<Reply, ApiError>,
    updated_reply: Result<Reply, ApiError>,
    deleted_reply: Result<Reply, ApiError>,
)
    requires
        t.wf(),
        !holds_id(t.rows(), id),
        get_outcome(t.rows(), id, found),
        update_outcome(t, id, body, updated, after_update),
        delete_outcome(t, id, deleted, after_delete),
        one_row_reply(found, found_reply),
        one_row_reply(updated, updated_reply),
        one_row_reply(deleted, deleted_reply),
    ensures
        found matches Err(StoreError::NotFound),
        updated matches Err(StoreError::NotFound),
        deleted matches Err(StoreError::NotFound),
        after_update == t,
        after_delete == t,
        found_reply matches Err(ApiError::NotFound(_)),
        updated_reply matches Err(ApiError::NotFound(_)),
        deleted_reply matches Err(ApiError::NotFound(_)),
{
}

/// Updating an existing row replaces its username and remark and nothing
/// else: its id stays, every other row stays, and a read of the id afterwards
/// returns the updated row.
pub proof fn lemma_update_then_get(
    before: UserTable,
    id: i32,
    body: NewUser,
    updated: Result<User, StoreError>,
    after: UserTable,
    found: Result<User, StoreError>,
)
    requires
        before.wf(),
        holds_id(before.rows(), id),
        update_outcome(before, id, body, updated, after),
        get_outcome(after.rows(), id, found),
    ensures
        updated matches Ok(u) && u.id == id && u.username == body.username && u.remark
            == body.remark,
        found == updated,
        after.rows().len() == before.rows().len(),
        forall|j: int|
            0 <= j < before.rows().len() && before.rows()[j].id != id ==> after.rows()[j]
                == before.rows()[j],
{
    let u = updated->Ok_0;
    let i = choose|i: int| 0 <= i < before.rows().len() && before.rows()[i].id == id;
    assert(after.rows()[i] == u);
    let v = found->Ok_0;
    let k = choose|k: int| 0 <= k < after.rows().len() && after.rows()[k] == v;
    assert(after.rows()[k] == if before.rows()[k].id == id {
        u
    } else {
        before.rows()[k]
    });
}

/// Removing an existing row hands back that row, and a read of the id
/// afterwards reports it missing. The id stays below the next id to hand
/// out, so no later insertion brings it back (see
/// `lemma_insert_keeps_absent`).
pub proof fn lemma_delete_then_get(
    before: UserTable,
    id: i32,
    deleted: Result<User, StoreError>,
    after: UserTable,
    found: Result<User, StoreError>,
)
    requires
        before.wf(),
        holds_id(before.rows(), id),
        delete_outcome(before, id, deleted, after),
        get_outcome(after.rows(), id, found),
    ensures
        deleted matches Ok(u) && u.id == id && before.rows().contains(u),
        found matches Err(StoreError::NotFound),
        !holds_id(after.rows(), id),
        id < after.next_id(),
{
    let u = deleted->Ok_0;
    let i = choose|i: int|
        0 <= i < before.rows().len() && before.rows()[i] == u && after.rows()
            == before.rows().remove(i);
    assert(before.rows()[i] == u);
    if holds_id(after.rows(), id) {
        let k = choose|k: int| 0 <= k < after.rows().len() && after.rows()[k].id == id;
        let src = if k < i {
            k
        } else {
            k + 1
        };
        assert(after.rows()[k] == before.rows()[src]);
    }
}

/// An insertion never gives a row an id that was handed out before and is
/// now absent.
pub proof fn lemma_insert_keeps_absent(
    before: UserTable,
    id: i32,
    body: NewUser,
    created: Result<User, StoreError>,
    after: UserTable,
)
    requires
        before.wf(),
        !holds_id(before.rows(), id),
        id < before.next_id(),
        insert_outcome(before, body, created, after),
    ensures
        !holds_id(after.rows(), id),
        id < after.next_id(),
{
    if holds_id(after.rows(), id) {
        let k = choose|k: int| 0 <= k < after.rows().len() && after.rows()[k].id == id;
        if k < before.rows().len() {
            assert(after.rows()[k] == before.rows()[k]);
        }
    }
}

/// After the `k` first of a run of successful insertions into an empty
/// table, the rows are the users created so far, in order.
proof fn lemma_rows_after_insertions(
    states: Seq<UserTable>,
    bodies: Seq<NewUser>,
    created: Seq<Result<User, StoreError>>,
    k: int,
)
    requires
        states.len() == bodies.len() + 1,
        created.len() == bodies.len(),
        states[0].rows().len() == 0,
        forall|j: int|
            0 <= j < bodies.len() ==> insert_outcome(
                states[j],
                #[trigger] bodies[j],
                created[j],
                states[j + 1],
            ),
        forall|j: int| 0 <= j < created.len() ==> #[trigger] created[j] is Ok,
        0 <= k <= bodies.len(),
    ensures
        states[k].rows() =~= Seq::new(k as nat, |j: int| created[j]->Ok_0),
        states[k].next_id() == states[0].next_id() + k,
    decreases k,
{
    if k > 0 {
        lemma_rows_after_insertions(states, bodies, created, k - 1);
        assert(insert_outcome(states[k - 1], bodies[k - 1], created[k - 1], states[k]));
        assert(created[k - 1] is Ok);
    }
}

/// Listing a table that started empty and then took `n` successful
/// insertions gives `n` rows, among them every created user, and the created
/// users' ids are distinct.
pub proof fn lemma_list_after_creations(
    states: Seq<UserTable>,
    bodies: Seq<NewUser>,
    created: Seq<Result<User, StoreError>>,
    listed: Seq<User>,
)
    requires
        states.len() == bodies.len() + 1,
        created.len() == bodies.len(),
        states[0].wf(),
        states[0].rows().len() == 0,
        forall|j: int|
            0 <= j < bodies.len() ==> insert_outcome(
                states[j],
                #[trigger] bodies[j],
                created[j],
                states[j + 1],
            ),
        forall|j: int| 0 <= j < created.len() ==> #[trigger] created[j] is Ok,
        listed == states[bodies.len() as int].rows(),
    ensures
        listed.len() == bodies.len(),
        forall|j: int| 0 <= j < created.len() ==> listed.contains(#[trigger] created[j]->Ok_0),
        forall|j: int, l: int|
            0 <= j < created.len() && 0 <= l < created.len() && j != l ==> (#[trigger] created[j]->Ok_0).id
                != (#[trigger] created[l]->Ok_0).id,
{
    let n = bodies.len() as int;
    lemma_rows_after_insertions(states, bodies, created, n);
    assert forall|j: int| 0 <= j < created.len() implies listed.contains(
        #[trigger] created[j]->Ok_0,
    ) by {
        assert(listed[j] == created[j]->Ok_0);
    }
    assert forall|j: int, l: int|
        0 <= j < created.len() && 0 <= l < created.len() && j != l implies (#[trigger] created[
        j]->Ok_0).id != (#[trigger] created[l]->Ok_0).id by {
        lemma_rows_after_insertions(states, bodies, created, j);
        lemma_rows_after_insertions(states, bodies, created, l);
        assert(insert_outcome(states[j], bodies[j], created[j], states[j + 1]));
        assert(insert_outcome(states[l], bodies[l], created[l], states[l + 1]));
    }
}

} // verus!
