//! An in-memory user table with the guarantees that the handlers rely on from
//! a store: each id names at most one row, a new row gets an id above every id
//! handed out before, and ids are never reused.

use vstd::prelude::*;

use crate::error::StoreError;
use crate::model::{NewUser, User};

verus! {

/// No two rows share an id.
pub open spec fn ids_unique(rows: Seq<User>) -> bool {
    forall|i: int, j: int|
        0 <= i < rows.len() && 0 <= j < rows.len() && i != j ==> rows[i].id != rows[j].id
}

/// Some row has the id `id`.
pub open spec fn holds_id(rows: Seq<User>, id: i32) -> bool {
    exists|i: int| 0 <= i < rows.len() && rows[i].id == id
}

/// The rows of a table, in the order they are listed, and the id that the
/// next insertion hands out.
pub struct UserTable {
    rows: Vec<User>,
    next_id: i32,
}

/// What a read of `id` owes: the row with that id, or `NotFound`.
pub open spec fn get_outcome(rows: Seq<User>, id: i32, r: Result<User, StoreError>) -> bool {
    if holds_id(rows, id) {
        r matches Ok(u) && u.id == id && rows.contains(u)
    } else {
        r matches Err(StoreError::NotFound)
    }
}

/// What an insertion of `body` into `before` owes: a new row under the next
/// id, appended, or a failure with the table unchanged once ids run out.
pub open spec fn insert_outcome(
    before: UserTable,
    body: NewUser,
    r: Result<User, StoreError>,
    after: UserTable,
) -> bool {
    if before.next_id() < i32::MAX {
        &&& r matches Ok(u)
        &&& u.id == before.next_id()
        &&& u.username == body.username
        &&& u.remark == body.remark
        &&& after.rows() == before.rows().push(u)
        &&& after.next_id() == before.next_id() + 1
    } else {
        r matches Err(StoreError::Failure(_)) && after == before
    }
}

/// What replacing the fields of row `id` with `body` owes: the row, changed in
/// place, or `NotFound` with the table unchanged.
pub open spec fn update_outcome(
    before: UserTable,
    id: i32,
    body: NewUser,
    r: Result<User, StoreError>,
    after: UserTable,
) -> bool {
    if holds_id(before.rows(), id) {
        &&& r matches Ok(u)
        &&& u.id == id
        &&& u.username == body.username
        &&& u.remark == body.remark
        &&& after.next_id() == before.next_id()
        &&& after.rows().len() == before.rows().len()
        &&& forall|j: int|
            0 <= j < before.rows().len() ==> #[trigger] after.rows()[j] == if before.rows()[j].id
                == id {
                u
            } else {
                before.rows()[j]
            }
    } else {
        r matches Err(StoreError::NotFound) && after == before
    }
}

/// What removing row `id` owes: the removed row, or `NotFound` with the table
/// unchanged.
pub open spec fn delete_outcome(
    before: UserTable,
    id: i32,
    r: Result<User, StoreError>,
    after: UserTable,
) -> bool {
    if holds_id(before.rows(), id) {
        &&& r matches Ok(u)
        &&& u.id == id
        &&& after.next_id() == before.next_id()
        &&& exists|i: int|
            0 <= i < before.rows().len() && before.rows()[i] == u && after.rows()
                == before.rows().remove(i)
    } else {
        r matches Err(StoreError::NotFound) && after == before
    }
}

impl UserTable {
    /// The rows, in listing order.
    pub closed spec fn rows(&self) -> Seq<User> {
        self.rows@
    }

    /// The id that the next insertion hands out.
    pub closed spec fn next_id(&self) -> i32 {
        self.next_id
    }

    /// Ids are unique, positive and below the next id to hand out.
    pub open spec fn wf(&self) -> bool {
        &&& ids_unique(self.rows())
        &&& 1 <= self.next_id()
        &&& forall|i: int|
            0 <= i < self.rows().len() ==> 1 <= #[trigger] self.rows()[i].id < self.next_id()
    }

    /// An empty table whose first id is 1.
    pub fn new() -> (t: UserTable)
        ensures
            t.wf(),
            t.rows() == Seq::<User>::empty(),
            t.next_id() == 1,
    {
        UserTable { rows: Vec::new(), next_id: 1 }
    }

    /// Every row, in listing order.
    pub fn list(&self) -> (r: Vec<User>)
        requires
            self.wf(),
        ensures
            r@ == self.rows(),
    {
        let mut out: Vec<User> = Vec::new();
        let mut i: usize = 0;
        while i < self.rows.len()
            invariant
                i <= self.rows@.len(),
                out@ == self.rows@.subrange(0, i as int),
            decreases self.rows@.len() - i,
        {
            out.push(self.rows[i].clone());
            i = i + 1;
            assert(out@ =~= self.rows@.subrange(0, i as int));
        }
        assert(out@ =~= self.rows@);
        out
    }

    /// Where row `id` stands, if anywhere.
    fn position(&self, id: i32) -> (r: Option<usize>)
        ensures
            match r {
                Some(i) => i < self.rows@.len() && self.rows@[i as int].id == id,
                None => !holds_id(self.rows@, id),
            },
    {
        let mut i: usize = 0;
        while i < self.rows.len()
            invariant
                i <= self.rows@.len(),
                forall|j: int| 0 <= j < i ==> self.rows@[j].id != id,
            decreases self.rows@.len() - i,
        {
            if self.rows[i].id == id {
                return Some(i);
            }
            i = i + 1;
        }
        None
    }

    /// The row with id `id`.
    pub fn get(&self, id: i32) -> (r: Result<User, StoreError>)
        requires
            self.wf(),
        ensures
            get_outcome(self.rows(), id, r),
    {
        match self.position(id) {
            Some(i) => {
                let u = self.rows[i].clone();
                assert(self.rows@[i as int] == u);
                Ok(u)
            },
            None => Err(StoreError::NotFound),
        }
    }

    /// Stores `body` as a new row under the next id.
    pub fn insert(&mut self, body: NewUser) -> (r: Result<User, StoreError>)
        requires
            old(self).wf(),
        ensures
            final(self).wf(),
            insert_outcome(*old(self), body, r, *final(self)),
    {
        if self.next_id == i32::MAX {
            return Err(StoreError::Failure("no id is left to assign".to_owned()));
        }
        let u = User::from_payload(self.next_id, body);
        self.rows.push(u.clone());
        self.next_id = self.next_id + 1;
        Ok(u)
    }

    /// Replaces the username and remark of row `id`; its id stays.
    pub fn update(&mut self, id: i32, body: NewUser) -> (r: Result<User, StoreError>)
        requires
            old(self).wf(),
        ensures
            final(self).wf(),
            update_outcome(*old(self), id, body, r, *final(self)),
    {
        match self.position(id) {
            Some(i) => {
                let u = User::from_payload(id, body);
                self.rows.set(i, u.clone());
                proof {
                    let before = old(self).rows@;
                    assert forall|j: int| 0 <= j < before.len() implies #[trigger] self.rows@[j]
                        == if before[j].id == id {
                        u
                    } else {
                        before[j]
                    } by {
                        if j != i && before[j].id == id {
                            assert(before[i as int].id == id);
                        }
                    }
                }
                Ok(u)
            },
            None => Err(StoreError::NotFound),
        }
    }

    /// Removes row `id` and hands it back.
    pub fn delete(&mut self, id: i32) -> (r: Result<User, StoreError>)
        requires
            old(self).wf(),
        ensures
            final(self).wf(),
            delete_outcome(*old(self), id, r, *final(self)),
    {
        match self.position(id) {
            Some(i) => {
                let u = self.rows.remove(i);
                proof {
                    let before = old(self).rows@;
                    assert(before[i as int] == u);
                    assert forall|j: int| 0 <= j < self.rows@.len() implies
                        #[trigger] self.rows@[j] == before[if j < i { j } else { j + 1 }] by {}
                }
                Ok(u)
            },
            None => Err(StoreError::NotFound),
        }
    }
}

} // verus!
