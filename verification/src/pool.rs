//! A bounded pool of connections to the user table, and the four units of
//! blocking work that run on a leased connection.
//!
//! A unit of work leases one connection, performs its one store operation
//! and gives the connection back before it returns, on every path. When no
//! connection is free the work fails at once instead of waiting, and the
//! table is not touched.

use vstd::prelude::*;

use crate::failure::Failure;
use crate::model::{
    new_user, rows_of, stamp, stamped, InputUser, InputUserView, Timestamp, User, UserView,
};
use crate::store::{TableView, UserTable};

verus! {

/// A pool as mathematical values: how many connections it may lease at a
/// time, how many are leased now, and the table they all lead to.
pub struct PoolView {
    pub capacity: nat,
    pub leased: nat,
    pub table: TableView,
}

impl PoolView {
    /// Never more connections leased than the pool may lease, over a
    /// well-formed table.
    pub open spec fn wf(self) -> bool {
        self.leased <= self.capacity && self.table.wf()
    }

    /// Whether no connection is free.
    pub open spec fn exhausted(self) -> bool {
        self.leased >= self.capacity
    }

    /// The pool with one connection more leased.
    pub open spec fn lease(self) -> PoolView {
        PoolView { leased: self.leased + 1, ..self }
    }

    /// The pool with one connection fewer leased, if any was.
    pub open spec fn release(self) -> PoolView {
        PoolView { leased: if self.leased > 0 { (self.leased - 1) as nat } else { 0 }, ..self }
    }

    /// The same pool over another table.
    pub open spec fn over(self, table: TableView) -> PoolView {
        PoolView { table, ..self }
    }

    /// What listing yields: every row.
    pub open spec fn listed(self) -> Result<Seq<UserView>, Failure> {
        if self.exhausted() {
            Err(Failure::PoolExhausted)
        } else {
            Ok(self.table.rows)
        }
    }

    /// What looking `id` up yields: the row, or the failure of finding none.
    pub open spec fn looked_up(self, id: int) -> Result<UserView, Failure> {
        if self.exhausted() {
            Err(Failure::PoolExhausted)
        } else {
            match self.table.find(id) {
                Some(user) => Ok(user),
                None => Err(Failure::NotFound),
            }
        }
    }

    /// What creating a user yields: one row affected, unless no identifier is
    /// left.
    pub open spec fn created(self) -> Result<nat, Failure> {
        if self.exhausted() {
            Err(Failure::PoolExhausted)
        } else if self.table.full() {
            Err(Failure::Query)
        } else {
            Ok(1)
        }
    }

    /// The pool after creating a user from `input` at `now`.
    pub open spec fn after_create(self, input: InputUserView, now: Timestamp) -> PoolView {
        if self.created().is_ok() {
            self.over(self.table.insert(stamped(input, now)))
        } else {
            self
        }
    }

    /// What deleting `id` yields: the number of rows affected.
    pub open spec fn removed(self, id: int) -> Result<nat, Failure> {
        if self.exhausted() {
            Err(Failure::PoolExhausted)
        } else {
            Ok(self.table.deleted(id))
        }
    }

    /// The pool after deleting `id`.
    pub open spec fn after_remove(self, id: int) -> PoolView {
        if self.exhausted() {
            self
        } else {
            self.over(self.table.delete(id))
        }
    }
}

/// A bounded pool of connections to one in-memory user table.
#[derive(Debug)]
pub struct Pool {
    capacity: usize,
    leased: usize,
    table: UserTable,
}

impl View for Pool {
    type V = PoolView;

    closed spec fn view(&self) -> PoolView {
        PoolView {
            capacity: self.capacity as nat,
            leased: self.leased as nat,
            table: self.table@,
        }
    }
}

impl Pool {
    /// A pool that leases at most `capacity` connections at a time, over an
    /// empty table.
    pub fn new(capacity: usize) -> (pool: Pool)
        ensures
            pool@ == (PoolView { capacity: capacity as nat, leased: 0, table: TableView::empty() }),
            pool@.wf(),
    {
        Pool { capacity, leased: 0, table: UserTable::new() }
    }

    /// A pool that leases at most `capacity` connections at a time, over
    /// `table`.
    pub fn with_table(capacity: usize, table: UserTable) -> (pool: Pool)
        requires
            table@.wf(),
        ensures
            pool@ == (PoolView { capacity: capacity as nat, leased: 0, table: table@ }),
            pool@.wf(),
    {
        Pool { capacity, leased: 0, table }
    }

    /// How many connections the pool may lease at a time.
    pub fn capacity(&self) -> (n: usize)
        ensures
            n == self@.capacity,
    {
        self.capacity
    }

    /// How many connections are leased now.
    pub fn leased(&self) -> (n: usize)
        ensures
            n == self@.leased,
    {
        self.leased
    }

    /// Leases one connection, or fails at once when none is free.
    pub fn lease(&mut self) -> (lease: Result<(), Failure>)
        requires
            old(self)@.wf(),
        ensures
            final(self)@.wf(),
            old(self)@.exhausted() ==> lease == Err::<(), Failure>(Failure::PoolExhausted)
                && final(self)@ == old(self)@,
            !old(self)@.exhausted() ==> lease == Ok::<(), Failure>(())
                && final(self)@ == old(self)@.lease(),
    {
        if self.leased >= self.capacity {
            Err(Failure::PoolExhausted)
        } else {
            self.leased = self.leased + 1;
            Ok(())
        }
    }

    /// Gives one leased connection back. With none leased nothing changes.
    pub fn release(&mut self)
        requires
            old(self)@.wf(),
        ensures
            final(self)@.wf(),
            final(self)@ == old(self)@.release(),
    {
        if self.leased > 0 {
            self.leased = self.leased - 1;
        }
    }

    /// The unit of work behind listing: every row the table holds.
    pub fn load_users(&mut self) -> (outcome: Result<Vec<User>, Failure>)
        requires
            old(self)@.wf(),
        ensures
            final(self)@ == old(self)@,
            match outcome {
                Ok(users) => old(self)@.listed() == Ok::<Seq<UserView>, Failure>(rows_of(users@)),
                Err(failure) => old(self)@.listed() == Err::<Seq<UserView>, Failure>(failure),
            },
    {
        match self.lease() {
            Err(failure) => Err(failure),
            Ok(()) => {
                let users = self.table.load();
                self.release();
                Ok(users)
            },
        }
    }

    /// The unit of work behind lookup by primary key.
    pub fn find_user(&mut self, id: i32) -> (outcome: Result<User, Failure>)
        requires
            old(self)@.wf(),
        ensures
            final(self)@ == old(self)@,
            match outcome {
                Ok(user) => old(self)@.looked_up(id as int) == Ok::<UserView, Failure>(user@),
                Err(failure) => old(self)@.looked_up(id as int) == Err::<UserView, Failure>(
                    failure,
                ),
            },
    {
        match self.lease() {
            Err(failure) => Err(failure),
            Ok(()) => {
                let found = self.table.find(id);
                self.release();
                match found {
                    Some(user) => Ok(user),
                    None => Err(Failure::NotFound),
                }
            },
        }
    }

    /// The unit of work behind creation: stamps `input` with `now` and
    /// inserts it as one row.
    pub fn insert_user(&mut self, input: &InputUser, now: Timestamp) -> (outcome: Result<
        usize,
        Failure,
    >)
        requires
            old(self)@.wf(),
        ensures
            final(self)@.wf(),
            final(self)@ == old(self)@.after_create(input@, now),
            match outcome {
                Ok(count) => old(self)@.created() == Ok::<nat, Failure>(count as nat),
                Err(failure) => old(self)@.created() == Err::<nat, Failure>(failure),
            },
    {
        match self.lease() {
            Err(failure) => Err(failure),
            Ok(()) => {
                let row = stamp(input, now);
                let outcome = self.table.insert(&row);
                self.release();
                outcome
            },
        }
    }

    /// The unit of work behind creation as the service runs it: once a
    /// connection is leased, stamps `input` with the server's local time at
    /// that moment and inserts it as one row. Whatever the clock showed, the
    /// outcome and the pool are those of [`Pool::insert_user`] at that
    /// reading.
    pub fn create_user(&mut self, input: &InputUser) -> (outcome: Result<usize, Failure>)
        requires
            old(self)@.wf(),
        ensures
            final(self)@.wf(),
            exists|now: Timestamp|
                final(self)@ == #[trigger] old(self)@.after_create(input@, now),
            match outcome {
                Ok(count) => old(self)@.created() == Ok::<nat, Failure>(count as nat),
                Err(failure) => old(self)@.created() == Err::<nat, Failure>(failure),
            },
    {
        match self.lease() {
            Err(failure) => {
                assert(self@ == old(self)@.after_create(input@, Timestamp { secs: 0, nanos: 0 }));
                Err(failure)
            },
            Ok(()) => {
                let row = new_user(input);
                let outcome = self.table.insert(&row);
                self.release();
                assert(self@ == old(self)@.after_create(input@, row.created_at));
                outcome
            },
        }
    }

    /// The unit of work behind deletion by primary key.
    pub fn remove_user(&mut self, id: i32) -> (outcome: Result<usize, Failure>)
        requires
            old(self)@.wf(),
        ensures
            final(self)@.wf(),
            final(self)@ == old(self)@.after_remove(id as int),
            match outcome {
                Ok(count) => old(self)@.removed(id as int) == Ok::<nat, Failure>(count as nat),
                Err(failure) => old(self)@.removed(id as int) == Err::<nat, Failure>(failure),
            },
    {
        match self.lease() {
            Err(failure) => Err(failure),
            Ok(()) => {
                let count = self.table.delete(id);
                self.release();
                Ok(count)
            },
        }
    }
}

} // verus!
