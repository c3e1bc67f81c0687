//! The shape of a unit of blocking work: lease a connection, work on it,
//! give it back.

use vstd::prelude::*;

use crate::failure::Failure;

verus! {

/// Whether `outcome` is what a unit of work may end in, when it gets its
/// connection from `lease` and then runs `work` on it: the failure of a
/// lease that failed, with `work` never started, or else whatever `work`
/// made of the connection that was leased.
pub open spec fn worked<C, T, L: FnOnce() -> Result<C, Failure>, W: FnOnce(&C) -> Result<
    T,
    Failure,
>>(lease: L, work: W, outcome: Result<T, Failure>) -> bool {
    ||| outcome matches Err(failure) && call_ensures(lease, (), Err::<C, Failure>(failure))
    ||| exists|conn: C| #[trigger]
        call_ensures(lease, (), Ok::<C, Failure>(conn)) && call_ensures(work, (&conn,), outcome)
}

/// Runs one unit of blocking work. A connection is leased first; when that
/// fails the failure is the outcome and `work` is not run. Otherwise `work`
/// runs on the connection and its result is the outcome. The connection is
/// held by this function alone and goes back when it returns, whichever way
/// `work` ended.
pub fn with_connection<C, T, L: FnOnce() -> Result<C, Failure>, W: FnOnce(&C) -> Result<
    T,
    Failure,
>>(lease: L, work: W) -> (outcome: Result<T, Failure>)
    requires
        call_requires(lease, ()),
        forall|conn: C|
            call_ensures(lease, (), Ok::<C, Failure>(conn)) ==> call_requires(work, (&conn,)),
    ensures
        worked(lease, work, outcome),
{
    match lease() {
        Err(failure) => Err(failure),
        Ok(conn) => work(&conn),
    }
}

} // verus!
