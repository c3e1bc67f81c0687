//! An in-memory table of users, and what the four store operations mean on
//! it.
//!
//! The service proper talks to a relational store through a pooled
//! connection. This table stands where that store would: it assigns
//! identifiers the way a primary key does, and gives listing, lookup,
//! insertion and deletion their row-level meaning, so that statements about
//! whole requests can be made and checked.

use vstd::prelude::*;

use crate::failure::Failure;
use crate::model::{rows_of, stored, NewUser, NewUserView, User, UserView};

verus! {

/// The predicate that holds of every row but the one identified by `id`.
pub open spec fn has_other_id(id: int) -> spec_fn(UserView) -> bool {
    |row: UserView| row.id != id
}

/// Whether two of `rows` share an identifier.
pub open spec fn clashing(rows: Seq<UserView>) -> bool {
    exists|i: int, j: int|
        0 <= i < j < rows.len() && (#[trigger] rows[i]).id == (#[trigger] rows[j]).id
}

/// The greatest identifier among `rows`, and zero where none is positive.
pub open spec fn top_id(rows: Seq<UserView>) -> int
    decreases rows.len(),
{
    if rows.len() == 0 {
        0
    } else if rows.last().id > top_id(rows.drop_last()) {
        rows.last().id
    } else {
        top_id(rows.drop_last())
    }
}

/// No identifier among `rows` exceeds `top_id(rows)`, which is not negative.
pub proof fn lemma_top_id_bounds(rows: Seq<UserView>)
    ensures
        0 <= top_id(rows),
        forall|i: int| 0 <= i < rows.len() ==> (#[trigger] rows[i]).id <= top_id(rows),
    decreases rows.len(),
{
    if rows.len() > 0 {
        lemma_top_id_bounds(rows.drop_last());
        assert forall|i: int| 0 <= i < rows.len() implies (#[trigger] rows[i]).id <= top_id(
            rows,
        ) by {
            if i < rows.len() - 1 {
                assert(rows.drop_last()[i] == rows[i]);
            }
        }
    }
}

/// A table of users as mathematical values: the rows in insertion order, and
/// the last identifier handed out.
pub struct TableView {
    pub rows: Seq<UserView>,
    pub last_id: int,
}

impl TableView {
    /// No identifier exceeds the last one handed out, and no two rows share
    /// one.
    pub open spec fn wf(self) -> bool {
        &&& 0 <= self.last_id <= i32::MAX
        &&& forall|i: int|
            0 <= i < self.rows.len() ==> (#[trigger] self.rows[i]).id <= self.last_id
        &&& forall|i: int, j: int|
            0 <= i < j < self.rows.len() ==> (#[trigger] self.rows[i]).id != (
            #[trigger] self.rows[j]).id
    }

    /// The table nothing was ever inserted into.
    pub open spec fn empty() -> TableView {
        TableView { rows: Seq::empty(), last_id: 0 }
    }

    /// The table that holds `rows` and hands out identifiers above all of
    /// theirs.
    pub open spec fn holding(rows: Seq<UserView>) -> TableView {
        TableView { rows, last_id: top_id(rows) }
    }

    /// Whether a row is identified by `id`.
    pub open spec fn has_id(self, id: int) -> bool {
        exists|i: int| 0 <= i < self.rows.len() && (#[trigger] self.rows[i]).id == id
    }

    /// The position of a row identified by `id`, where there is one.
    pub open spec fn position(self, id: int) -> int {
        choose|i: int| 0 <= i < self.rows.len() && (#[trigger] self.rows[i]).id == id
    }

    /// The row identified by `id`, if there is one.
    pub open spec fn find(self, id: int) -> Option<UserView> {
        if self.has_id(id) {
            Some(self.rows[self.position(id)])
        } else {
            None
        }
    }

    /// Whether every identifier has been handed out.
    pub open spec fn full(self) -> bool {
        self.last_id >= i32::MAX
    }

    /// The table after `new_user` was inserted under the next identifier.
    pub open spec fn insert(self, new_user: NewUserView) -> TableView {
        TableView {
            rows: self.rows.push(stored(self.last_id + 1, new_user)),
            last_id: self.last_id + 1,
        }
    }

    /// The table after the row identified by `id`, if any, was deleted.
    pub open spec fn delete(self, id: int) -> TableView {
        TableView { rows: self.rows.filter(has_other_id(id)), last_id: self.last_id }
    }

    /// The number of rows that deleting `id` affects.
    pub open spec fn deleted(self, id: int) -> nat {
        if self.has_id(id) {
            1
        } else {
            0
        }
    }
}

/// Every row that survives the deletion of `id` was there before, and carries
/// another identifier.
pub proof fn lemma_delete_keeps_old_rows(table: TableView, id: int)
    ensures
        forall|i: int|
            #![trigger table.delete(id).rows[i]]
            0 <= i < table.delete(id).rows.len() ==> table.rows.contains(table.delete(id).rows[i])
                && table.delete(id).rows[i].id != id,
{
    let kept = table.rows.filter(has_other_id(id));
    assert forall|i: int| #![trigger kept[i]] 0 <= i < kept.len() implies table.rows.contains(
        kept[i],
    ) && kept[i].id != id by {
        table.rows.lemma_filter_pred(has_other_id(id), i);
        assert(kept.contains(kept[i]));
        table.rows.lemma_filter_contains_rev(has_other_id(id), kept[i]);
    }
}

/// Deleting from a well-formed table leaves a well-formed table, which is
/// one row shorter when the identifier was present and the same table when
/// it was not; and no row of the result is identified by `id`.
pub proof fn lemma_delete(table: TableView, id: int)
    requires
        table.wf(),
    ensures
        table.delete(id).wf(),
        !table.delete(id).has_id(id),
        table.delete(id).rows.len() + table.deleted(id) == table.rows.len(),
        !table.has_id(id) ==> table.delete(id) == table,
    decreases table.rows.len(),
{
    reveal(Seq::filter);
    lemma_delete_keeps_old_rows(table, id);
    let after = table.delete(id);
    if table.rows.len() == 0 {
        assert(after.rows =~= table.rows);
    } else {
        let last = table.rows.last();
        let front = TableView { rows: table.rows.drop_last(), last_id: table.last_id };
        assert(front.wf()) by {
            assert forall|i: int| 0 <= i < front.rows.len() implies (
            #[trigger] front.rows[i]).id <= front.last_id by {
                assert(front.rows[i] == table.rows[i]);
            }
            assert forall|i: int, j: int| 0 <= i < j < front.rows.len() implies (
            #[trigger] front.rows[i]).id != (#[trigger] front.rows[j]).id by {
                assert(front.rows[i] == table.rows[i]);
                assert(front.rows[j] == table.rows[j]);
            }
        }
        lemma_delete(front, id);
        lemma_delete_keeps_old_rows(front, id);
        let kept = front.delete(id).rows;
        assert forall|i: int| 0 <= i < kept.len() implies (#[trigger] kept[i]).id != last.id by {
            assert(front.rows.contains(kept[i]));
            let k = choose|k: int| 0 <= k < front.rows.len() && front.rows[k] == kept[i];
            assert(table.rows[k] == kept[i]);
            assert(table.rows[table.rows.len() - 1] == last);
        }
        if last.id != id {
            assert(has_other_id(id)(last));
            assert(after.rows == kept.push(last));
            assert(after.wf()) by {
                assert forall|i: int| 0 <= i < after.rows.len() implies (
                #[trigger] after.rows[i]).id <= after.last_id by {
                    if i < kept.len() {
                        assert(after.rows[i] == kept[i]);
                    } else {
                        assert(after.rows[i] == table.rows[table.rows.len() - 1]);
                    }
                }
                assert forall|i: int, j: int| 0 <= i < j < after.rows.len() implies (
                #[trigger] after.rows[i]).id != (#[trigger] after.rows[j]).id by {
                    assert(after.rows[i] == kept[i]);
                    if j < kept.len() {
                        assert(after.rows[j] == kept[j]);
                    }
                }
            }
            if front.has_id(id) {
                let k = front.position(id);
                assert(table.rows[k].id == id);
            }
            if table.has_id(id) {
                let k = table.position(id);
                assert(front.rows[k].id == id);
            }
            assert(front.has_id(id) == table.has_id(id));
            if !table.has_id(id) {
                assert(kept == front.rows);
                assert(after.rows =~= table.rows);
            }
        } else {
            assert(!has_other_id(id)(last));
            assert(after.rows == kept);
            assert(table.rows[table.rows.len() - 1].id == id);
            assert(table.has_id(id));
            if front.has_id(id) {
                let k = front.position(id);
                assert(table.rows[k].id == id);
                assert(false);
            }
        }
    }
}

/// Inserting into a well-formed table that is not full leaves a well-formed
/// table, whose new row carries an identifier no row carried before.
pub proof fn lemma_insert(table: TableView, new_user: NewUserView)
    requires
        table.wf(),
        !table.full(),
    ensures
        table.insert(new_user).wf(),
        !table.has_id(table.last_id + 1),
        table.insert(new_user).find(table.last_id + 1) == Some(
            stored(table.last_id + 1, new_user),
        ),
{
    let after = table.insert(new_user);
    let n = table.rows.len() as int;
    assert forall|i: int| 0 <= i < after.rows.len() implies (#[trigger] after.rows[i]).id
        <= after.last_id by {
        if i < n {
            assert(after.rows[i] == table.rows[i]);
        }
    }
    assert forall|i: int, j: int| 0 <= i < j < after.rows.len() implies (
    #[trigger] after.rows[i]).id != (#[trigger] after.rows[j]).id by {
        assert(after.rows[i] == table.rows[i]);
        if j < n {
            assert(after.rows[j] == table.rows[j]);
        }
    }
    assert(after.rows[n].id == table.last_id + 1);
    assert(after.has_id(table.last_id + 1));
    lemma_position_is_unique(after, table.last_id + 1, n);
}

/// In a well-formed table a row is found at one position only.
pub proof fn lemma_position_is_unique(table: TableView, id: int, i: int)
    requires
        table.wf(),
        0 <= i < table.rows.len(),
        table.rows[i].id == id,
    ensures
        table.has_id(id),
        table.position(id) == i,
        table.find(id) == Some(table.rows[i]),
{
    let k = table.position(id);
    if k < i {
        assert(table.rows[k].id != table.rows[i].id);
    } else if i < k {
        assert(table.rows[i].id != table.rows[k].id);
    }
}

/// An in-memory table of users.
#[derive(Debug)]
pub struct UserTable {
    rows: Vec<User>,
    last_id: i32,
}

impl View for UserTable {
    type V = TableView;

    closed spec fn view(&self) -> TableView {
        TableView { rows: rows_of(self.rows@), last_id: self.last_id as int }
    }
}

impl UserTable {
    /// An empty table.
    pub fn new() -> (table: UserTable)
        ensures
            table@ == TableView::empty(),
            table@.wf(),
    {
        let table = UserTable { rows: Vec::new(), last_id: 0 };
        assert(table@.rows =~= Seq::empty());
        table
    }

    /// A table that holds `rows` as they are and hands out identifiers above
    /// all of theirs. Rows that share an identifier are refused, as a
    /// primary key refuses them.
    pub fn with_rows(rows: Vec<User>) -> (table: Result<UserTable, Failure>)
        ensures
            match table {
                Ok(table) => !clashing(rows_of(rows@)) && table@.wf() && table@
                    == TableView::holding(rows_of(rows@)),
                Err(failure) => clashing(rows_of(rows@)) && failure == Failure::Conflict,
            },
    {
        let ghost all = rows_of(rows@);
        let mut top: i32 = 0;
        let mut i: usize = 0;
        while i < rows.len()
            invariant
                i <= rows.len(),
                all == rows_of(rows@),
                top == top_id(all.take(i as int)),
                forall|a: int, b: int|
                    0 <= a < b < i ==> (#[trigger] all[a]).id != (#[trigger] all[b]).id,
            decreases rows.len() - i,
        {
            let id: i32 = rows[i].id;
            assert(all[i as int].id == id);
            let mut j: usize = 0;
            while j < i
                invariant
                    j <= i < rows.len(),
                    all == rows_of(rows@),
                    all[i as int].id == id,
                    forall|a: int| 0 <= a < j ==> (#[trigger] all[a]).id != id,
                decreases i - j,
            {
                if rows[j].id == id {
                    assert(all[j as int].id == all[i as int].id);
                    return Err(Failure::Conflict);
                }
                assert(all[j as int].id != id);
                j = j + 1;
            }
            proof {
                assert(all.take(i as int + 1).drop_last() =~= all.take(i as int));
                assert(all.take(i as int + 1).last() == all[i as int]);
            }
            if id > top {
                top = id;
            }
            i = i + 1;
        }
        proof {
            assert(all.take(i as int) =~= all);
            lemma_top_id_bounds(all);
        }
        Ok(UserTable { rows, last_id: top })
    }

    /// Every row, in insertion order.
    pub fn load(&self) -> (users: Vec<User>)
        ensures
            rows_of(users@) == self@.rows,
    {
        let mut users: Vec<User> = Vec::new();
        let mut i: usize = 0;
        while i < self.rows.len()
            invariant
                i <= self.rows.len(),
                rows_of(users@) == rows_of(self.rows@).take(i as int),
            decreases self.rows.len() - i,
        {
            let ghost before = rows_of(users@);
            let user = self.rows[i].duplicate();
            assert(user@ == rows_of(self.rows@)[i as int]);
            users.push(user);
            assert(rows_of(users@) =~= before.push(user@));
            i = i + 1;
            assert(rows_of(users@) =~= rows_of(self.rows@).take(i as int));
        }
        assert(rows_of(self.rows@).take(i as int) =~= rows_of(self.rows@));
        users
    }

    /// The row identified by `id`, if there is one.
    pub fn find(&self, id: i32) -> (found: Option<User>)
        requires
            self@.wf(),
        ensures
            match found {
                Some(user) => self@.find(id as int) == Some(user@),
                None => self@.find(id as int).is_none(),
            },
    {
        let mut i: usize = 0;
        while i < self.rows.len()
            invariant
                i <= self.rows.len(),
                self@.wf(),
                forall|k: int| 0 <= k < i ==> (#[trigger] self@.rows[k]).id != id,
            decreases self.rows.len() - i,
        {
            if self.rows[i].id == id {
                let user = self.rows[i].duplicate();
                proof {
                    assert(self@.rows[i as int] == self.rows@[i as int]@);
                    lemma_position_is_unique(self@, id as int, i as int);
                }
                return Some(user);
            }
            assert(self@.rows[i as int] == self.rows@[i as int]@);
            i = i + 1;
        }
        None
    }

    /// Inserts `new_user` as one row under the next identifier, and reports
    /// the one row affected. When every identifier has been handed out the
    /// table is left alone and the query fails.
    pub fn insert(&mut self, new_user: &NewUser) -> (affected: Result<usize, Failure>)
        requires
            old(self)@.wf(),
        ensures
            final(self)@.wf(),
            old(self)@.full() ==> affected == Err::<usize, Failure>(Failure::Query)
                && final(self)@ == old(self)@,
            !old(self)@.full() ==> affected == Ok::<usize, Failure>(1)
                && final(self)@ == old(self)@.insert(new_user@),
    {
        if self.last_id == i32::MAX {
            return Err(Failure::Query);
        }
        let id: i32 = self.last_id + 1;
        let user = User {
            id,
            first_name: new_user.first_name.to_owned(),
            last_name: new_user.last_name.to_owned(),
            email: new_user.email.to_owned(),
            created_at: new_user.created_at,
        };
        self.rows.push(user);
        self.last_id = id;
        proof {
            assert(self@.rows =~= old(self)@.insert(new_user@).rows);
            lemma_insert(old(self)@, new_user@);
        }
        Ok(1)
    }

    /// Deletes the row identified by `id`, if there is one, and reports how
    /// many rows that affected: one, or none when there was no such row.
    pub fn delete(&mut self, id: i32) -> (affected: usize)
        requires
            old(self)@.wf(),
        ensures
            final(self)@.wf(),
            final(self)@ == old(self)@.delete(id as int),
            affected == old(self)@.deleted(id as int),
            !final(self)@.has_id(id as int),
            final(self)@.rows.len() + affected == old(self)@.rows.len(),
            !old(self)@.has_id(id as int) ==> final(self)@ == old(self)@,
    {
        let ghost before = rows_of(self.rows@);
        let mut kept: Vec<User> = Vec::new();
        let mut i: usize = 0;
        while i < self.rows.len()
            invariant
                i <= self.rows.len(),
                before == rows_of(self.rows@),
                rows_of(kept@) == before.take(i as int).filter(has_other_id(id as int)),
            decreases self.rows.len() - i,
        {
            let ghost front = before.take(i as int);
            let ghost next = before.take(i as int + 1);
            proof {
                reveal(Seq::filter);
                assert(next.drop_last() =~= front);
                assert(next.last() == self.rows@[i as int]@);
            }
            if self.rows[i].id != id {
                let user = self.rows[i].duplicate();
                kept.push(user);
                assert(rows_of(kept@) =~= front.filter(has_other_id(id as int)).push(user@));
            }
            i = i + 1;
        }
        proof {
            assert(before.take(i as int) =~= before);
            lemma_delete(old(self)@, id as int);
        }
        let affected: usize = self.rows.len() - kept.len();
        self.rows = kept;
        affected
    }

    /// The number of rows.
    pub fn len(&self) -> (n: usize)
        ensures
            n == self@.rows.len(),
    {
        self.rows.len()
    }
}

} // verus!
