//! One request from arrival to response: the auth gate, then the handler of
//! the requested operation, run against the pool.

use vstd::prelude::*;

use crate::auth::{
    admits, admitted, answered, challenge_of, gate, rejection_of, Challenge, UNAUTHORIZED,
};
use crate::failure::{Failure, INTERNAL_SERVER_ERROR};
use crate::handlers::{add_user, delete_user, get_user_by_id, get_users};
use crate::model::{stamped, stored, InputUser, InputUserView, Timestamp, UserView};
use crate::pool::{Pool, PoolView};
use crate::response::{bridged, rejected, BodyView, Response, ResponseView, CREATED, OK};
use crate::store::{lemma_delete, lemma_delete_keeps_old_rows, lemma_insert};

verus! {

/// What a request asks for.
#[derive(Debug, Clone, PartialEq, Eq)]
pub enum Operation {
    /// Every user.
    List,
    /// The user identified by `id`.
    Get { id: i32 },
    /// A new user made from `input`.
    Create { input: InputUser },
    /// The user identified by `id` gone.
    Delete { id: i32 },
}

/// An operation, as mathematical values.
pub enum OperationView {
    List,
    Get { id: int },
    Create { input: InputUserView },
    Delete { id: int },
}

impl View for Operation {
    type V = OperationView;

    open spec fn view(&self) -> OperationView {
        match *self {
            Operation::List => OperationView::List,
            Operation::Get { id } => OperationView::Get { id: id as int },
            Operation::Create { input } => OperationView::Create { input: input@ },
            Operation::Delete { id } => OperationView::Delete { id: id as int },
        }
    }
}

/// A request as the transport hands it over: the bearer token it presented,
/// if it presented one, and the operation its route stands for.
#[derive(Debug, Clone, PartialEq, Eq)]
pub struct Request<'a> {
    pub token: Option<&'a str>,
    pub operation: Operation,
}

/// The body a listing of `rows` is answered with.
pub open spec fn users_body(rows: Result<Seq<UserView>, Failure>) -> Result<BodyView, Failure> {
    match rows {
        Ok(rows) => Ok(BodyView::Users(rows)),
        Err(failure) => Err(failure),
    }
}

/// The body a lookup that found `row` is answered with.
pub open spec fn user_body(row: Result<UserView, Failure>) -> Result<BodyView, Failure> {
    match row {
        Ok(row) => Ok(BodyView::User(row)),
        Err(failure) => Err(failure),
    }
}

/// The body a write that affected `count` rows is answered with.
pub open spec fn count_body(count: Result<nat, Failure>) -> Result<BodyView, Failure> {
    match count {
        Ok(count) => Ok(BodyView::Count(count)),
        Err(failure) => Err(failure),
    }
}

/// The response to an admitted request for `operation`, run against `pool`.
pub open spec fn response_to(pool: PoolView, operation: OperationView) -> ResponseView {
    match operation {
        OperationView::List => bridged(OK, users_body(pool.listed())),
        OperationView::Get { id } => bridged(OK, user_body(pool.looked_up(id))),
        OperationView::Create { input } => bridged(CREATED, count_body(pool.created())),
        OperationView::Delete { id } => bridged(OK, count_body(pool.removed(id))),
    }
}

/// The pool after an admitted request for `operation` was run against it,
/// where `now` is what the clock showed if a row was inserted.
pub open spec fn pool_after(pool: PoolView, operation: OperationView, now: Timestamp) -> PoolView {
    match operation {
        OperationView::List => pool,
        OperationView::Get { id } => pool,
        OperationView::Create { input } => pool.after_create(input, now),
        OperationView::Delete { id } => pool.after_remove(id),
    }
}

/// Runs the handler of `operation` against `pool`: dispatches the unit of
/// blocking work and turns its outcome into the response. A creation is
/// stamped with the server's local time at the moment of insertion, so the
/// pool afterwards is known up to that reading.
pub fn handle(pool: &mut Pool, operation: Operation) -> (response: Response)
    requires
        old(pool)@.wf(),
    ensures
        final(pool)@.wf(),
        response@ == response_to(old(pool)@, operation@),
        exists|now: Timestamp| final(pool)@ == #[trigger] pool_after(old(pool)@, operation@, now),
{
    let ghost epoch = Timestamp { secs: 0, nanos: 0 };
    match operation {
        Operation::List => {
            let outcome = pool.load_users();
            assert(pool@ == pool_after(old(pool)@, operation@, epoch));
            get_users(outcome)
        },
        Operation::Get { id } => {
            let outcome = pool.find_user(id);
            assert(pool@ == pool_after(old(pool)@, operation@, epoch));
            get_user_by_id(outcome)
        },
        Operation::Create { input } => {
            let outcome = pool.create_user(&input);
            proof {
                let now = choose|now: Timestamp|
                    pool@ == #[trigger] old(pool)@.after_create(input@, now);
                assert(pool@ == pool_after(old(pool)@, operation@, now));
            }
            add_user(outcome)
        },
        Operation::Delete { id } => {
            let outcome = pool.remove_user(id);
            assert(pool@ == pool_after(old(pool)@, operation@, epoch));
            delete_user(outcome)
        },
    }
}

/// The response to a request for `operation`, admitted by the auth gate or
/// not.
pub open spec fn served_response(
    pool: PoolView,
    config: Option<Challenge>,
    operation: OperationView,
    admitted: bool,
) -> ResponseView {
    if admitted {
        response_to(pool, operation)
    } else {
        rejected(rejection_of(config))
    }
}

/// The pool after a request for `operation`, admitted by the auth gate or
/// not.
pub open spec fn served_pool(
    pool: PoolView,
    operation: OperationView,
    admitted: bool,
    now: Timestamp,
) -> PoolView {
    if admitted {
        pool_after(pool, operation, now)
    } else {
        pool
    }
}

/// Serves one request. The auth gate comes first: a request without a token,
/// or whose token `validate` does not plainly accept, is answered with the
/// rejection and reaches neither handler nor pool. An admitted request is
/// handed to the handler of its operation.
pub fn serve<E, V: Fn(&str) -> Result<bool, E>>(
    pool: &mut Pool,
    config: Option<Challenge>,
    request: Request<'_>,
    validate: &V,
) -> (response: Response)
    requires
        old(pool)@.wf(),
        request.token matches Some(t) ==> call_requires(*validate, (t,)),
    ensures
        final(pool)@.wf(),
        request.token is None ==> response@ == served_response(
            old(pool)@,
            config,
            request.operation@,
            false,
        ) && final(pool)@ == old(pool)@,
        request.token matches Some(t) ==> exists|validation: Result<bool, E>|
            {
                &&& #[trigger] answered(*validate, t, validation)
                &&& response@ == served_response(
                    old(pool)@,
                    config,
                    request.operation@,
                    admits(validation),
                )
                &&& exists|now: Timestamp|
                    final(pool)@ == #[trigger] served_pool(
                        old(pool)@,
                        request.operation@,
                        admits(validation),
                        now,
                    )
            },
{
    let ghost held = old(pool)@;
    let ghost asked = request.operation@;
    match gate(request.operation, config, request.token, validate) {
        Ok(operation) => {
            let response = handle(pool, operation);
            proof {
                let t = request.token->0;
                let validation = choose|validation: Result<bool, E>|
                    #[trigger] answered(*validate, t, validation) && admits(validation);
                let now = choose|now: Timestamp| pool@ == #[trigger] pool_after(held, asked, now);
                assert(pool@ == served_pool(held, asked, admits(validation), now));
            }
            response
        },
        Err(rejection) => {
            proof {
                if request.token is Some {
                    let t = request.token->0;
                    let validation = choose|validation: Result<bool, E>|
                        #[trigger] answered(*validate, t, validation) && !admits(validation);
                    let epoch = Timestamp { secs: 0, nanos: 0 };
                    assert(pool@ == served_pool(held, asked, admits(validation), epoch));
                }
            }
            Response::from_rejection(rejection)
        },
    }
}

/// A request that lacks a valid bearer token (it presented none, the
/// validator turned its token down, or the validator failed) is answered with
/// the unauthorized status, the auth gate's challenge and no body, and the pool
/// and its table are exactly what they were: no store operation ran.
pub proof fn lemma_request_without_valid_token_is_rejected<E>(
    pool: PoolView,
    config: Option<Challenge>,
    token: Option<&str>,
    validation: Result<bool, E>,
    operation: OperationView,
    now: Timestamp,
)
    requires
        !admitted(token, validation),
    ensures
        served_response(pool, config, operation, admitted(token, validation)) == (ResponseView {
            status: UNAUTHORIZED,
            challenge: Some(challenge_of(config)),
            body: BodyView::Empty,
        }),
        served_pool(pool, operation, admitted(token, validation), now) == pool,
{
}

/// A request with a valid bearer token reaches the handler of its operation:
/// response and pool are the handler's, and the status is one a handler
/// gives, never the auth gate's.
pub proof fn lemma_request_with_valid_token_reaches_handler<E>(
    pool: PoolView,
    config: Option<Challenge>,
    token: Option<&str>,
    validation: Result<bool, E>,
    operation: OperationView,
    now: Timestamp,
)
    requires
        admitted(token, validation),
    ensures
        served_response(pool, config, operation, admitted(token, validation)) == response_to(
            pool,
            operation,
        ),
        served_pool(pool, operation, admitted(token, validation), now) == pool_after(
            pool,
            operation,
            now,
        ),
        response_to(pool, operation).status == OK || response_to(pool, operation).status
            == CREATED || response_to(pool, operation).status == INTERNAL_SERVER_ERROR,
        response_to(pool, operation).challenge.is_none(),
{
}

/// Behind a validator that says no to everything, every operation is
/// answered with the unauthorized status, whatever the token, and the pool
/// stays as it was.
pub proof fn lemma_refusing_validator_rejects_every_request<E>(
    pool: PoolView,
    config: Option<Challenge>,
    token: Option<&str>,
    operation: OperationView,
    now: Timestamp,
)
    ensures
        served_response(pool, config, operation, admitted(token, Ok::<bool, E>(false))).status
            == UNAUTHORIZED,
        served_pool(pool, operation, admitted(token, Ok::<bool, E>(false)), now) == pool,
{
}

/// Whatever the kind of failure and whatever the operation would have
/// answered on success, the response is the bare server-error status.
pub proof fn lemma_every_failure_collapses(success: u16, failure: Failure)
    ensures
        bridged(success, Err(failure)) == (ResponseView {
            status: INTERNAL_SERVER_ERROR,
            challenge: None,
            body: BodyView::Empty,
        }),
{
}

/// On a pool with no free connection every operation is answered with the
/// bare server-error status, and pool and table stay as they were.
pub proof fn lemma_exhausted_pool_fails_every_operation(
    pool: PoolView,
    operation: OperationView,
    now: Timestamp,
)
    requires
        pool.exhausted(),
    ensures
        response_to(pool, operation) == (ResponseView {
            status: INTERNAL_SERVER_ERROR,
            challenge: None,
            body: BodyView::Empty,
        }),
        pool_after(pool, operation, now) == pool,
{
}

/// Creating a user answers the created status with a count of one. The new
/// row carries the caller's three fields, an identifier no row had before and
/// the clock reading of the insertion; looking that identifier up afterwards
/// yields the row, and a listing yields the earlier rows followed by it.
pub proof fn lemma_create_then_get(pool: PoolView, input: InputUserView, now: Timestamp)
    requires
        pool.wf(),
        !pool.exhausted(),
        !pool.table.full(),
    ensures
        response_to(pool, OperationView::Create { input }) == (ResponseView {
            status: CREATED,
            challenge: None,
            body: BodyView::Count(1),
        }),
        !pool.table.has_id(pool.table.last_id + 1),
        ({
            let after = pool_after(pool, OperationView::Create { input }, now);
            let row = stored(pool.table.last_id + 1, stamped(input, now));
            &&& after.wf()
            &&& response_to(after, OperationView::Get { id: row.id }) == (ResponseView {
                status: OK,
                challenge: None,
                body: BodyView::User(row),
            })
            &&& response_to(after, OperationView::List) == (ResponseView {
                status: OK,
                challenge: None,
                body: BodyView::Users(pool.table.rows.push(row)),
            })
        }),
{
    lemma_insert(pool.table, stamped(input, now));
}

/// Deleting an identifier that no row carries is no error: the answer is the
/// ok status with a count of zero, and pool and table stay as they were.
pub proof fn lemma_delete_of_absent_id(pool: PoolView, id: int, now: Timestamp)
    requires
        pool.wf(),
        !pool.exhausted(),
        !pool.table.has_id(id),
    ensures
        response_to(pool, OperationView::Delete { id }) == (ResponseView {
            status: OK,
            challenge: None,
            body: BodyView::Count(0),
        }),
        pool_after(pool, OperationView::Delete { id }, now) == pool,
{
    lemma_delete(pool.table, id);
}

/// Deleting an identifier that a row carries answers the ok status with a
/// count of one. A listing afterwards holds no row with that identifier and
/// exactly one row fewer than before.
pub proof fn lemma_delete_then_list(pool: PoolView, id: int, now: Timestamp)
    requires
        pool.wf(),
        !pool.exhausted(),
        pool.table.has_id(id),
    ensures
        response_to(pool, OperationView::Delete { id }) == (ResponseView {
            status: OK,
            challenge: None,
            body: BodyView::Count(1),
        }),
        ({
            let after = pool_after(pool, OperationView::Delete { id }, now);
            &&& after.wf()
            &&& response_to(after, OperationView::List) == (ResponseView {
                status: OK,
                challenge: None,
                body: BodyView::Users(after.table.rows),
            })
            &&& !after.table.has_id(id)
            &&& after.table.rows.len() + 1 == pool.table.rows.len()
        }),
{
    lemma_delete(pool.table, id);
}

/// Serving a request, admitted or not, keeps the pool well-formed: no two
/// rows ever share an identifier, and as many connections are leased after
/// the request as before it.
pub proof fn lemma_request_keeps_pool_well_formed(
    pool: PoolView,
    operation: OperationView,
    admitted: bool,
    now: Timestamp,
)
    requires
        pool.wf(),
    ensures
        served_pool(pool, operation, admitted, now).wf(),
        served_pool(pool, operation, admitted, now).leased == pool.leased,
        served_pool(pool, operation, admitted, now).capacity == pool.capacity,
{
    match operation {
        OperationView::Create { input } => {
            if pool.created().is_ok() {
                lemma_insert(pool.table, stamped(input, now));
            }
        },
        OperationView::Delete { id } => {
            lemma_delete(pool.table, id);
        },
        _ => {},
    }
}

/// No request rewrites a row: every row the table holds after a request is
/// a row it held before, or the one row the request created.
pub proof fn lemma_rows_are_never_rewritten(
    pool: PoolView,
    operation: OperationView,
    admitted: bool,
    now: Timestamp,
)
    requires
        pool.wf(),
    ensures
        forall|i: int|
            #![trigger served_pool(pool, operation, admitted, now).table.rows[i]]
            0 <= i < served_pool(pool, operation, admitted, now).table.rows.len() ==> {
                let row = served_pool(pool, operation, admitted, now).table.rows[i];
                ||| pool.table.rows.contains(row)
                ||| operation matches OperationView::Create { input } && row == stored(
                    pool.table.last_id + 1,
                    stamped(input, now),
                )
            },
{
    let after = served_pool(pool, operation, admitted, now);
    assert forall|i: int| #![trigger after.table.rows[i]] 0 <= i < after.table.rows.len() implies {
        let row = after.table.rows[i];
        ||| pool.table.rows.contains(row)
        ||| operation matches OperationView::Create { input } && row == stored(
            pool.table.last_id + 1,
            stamped(input, now),
        )
    } by {
        if admitted {
            match operation {
                OperationView::Create { input } => {
                    if i < pool.table.rows.len() {
                        assert(pool.table.rows[i] == after.table.rows[i]);
                    }
                },
                OperationView::Delete { id } => {
                    lemma_delete_keeps_old_rows(pool.table, id);
                },
                _ => {
                    assert(pool.table.rows[i] == after.table.rows[i]);
                },
            }
        } else {
            assert(pool.table.rows[i] == after.table.rows[i]);
        }
    }
}

/// The pool after the creations in `creations`, each an input and the clock
/// reading it is stamped with, were served one after the other.
pub open spec fn pool_after_creations(pool: PoolView, creations: Seq<(InputUserView, Timestamp)>)
    -> PoolView
    decreases creations.len(),
{
    if creations.len() == 0 {
        pool
    } else {
        pool_after(
            pool_after_creations(pool, creations.drop_last()),
            OperationView::Create { input: creations.last().0 },
            creations.last().1,
        )
    }
}

/// Any number of creations served one after the other, while identifiers
/// last, leave the table as the earlier rows followed by one row per
/// creation, numbered upwards from the last identifier handed out: each new
/// row gets an identifier of its own, and no two rows share one.
pub proof fn lemma_creations_get_distinct_ids(
    pool: PoolView,
    creations: Seq<(InputUserView, Timestamp)>,
)
    requires
        pool.wf(),
        !pool.exhausted(),
        pool.table.last_id + creations.len() <= i32::MAX,
    ensures
        pool_after_creations(pool, creations).wf(),
        pool_after_creations(pool, creations).leased == pool.leased,
        pool_after_creations(pool, creations).capacity == pool.capacity,
        pool_after_creations(pool, creations).table.last_id == pool.table.last_id
            + creations.len(),
        pool_after_creations(pool, creations).table.rows.len() == pool.table.rows.len()
            + creations.len(),
        forall|k: int|
            0 <= k < pool.table.rows.len() ==> #[trigger] pool_after_creations(
                pool,
                creations,
            ).table.rows[k] == pool.table.rows[k],
        forall|k: int|
            #![trigger creations[k]]
            0 <= k < creations.len() ==> pool_after_creations(
                pool,
                creations,
            ).table.rows[pool.table.rows.len() + k] == stored(
                pool.table.last_id + 1 + k,
                stamped(creations[k].0, creations[k].1),
            ),
    decreases creations.len(),
{
    if creations.len() > 0 {
        let front = creations.drop_last();
        let n = front.len() as int;
        let m = pool.table.rows.len() as int;
        lemma_creations_get_distinct_ids(pool, front);
        let before = pool_after_creations(pool, front);
        let row = stamped(creations.last().0, creations.last().1);
        lemma_insert(before.table, row);
        let after = pool_after_creations(pool, creations);
        assert(after == before.over(before.table.insert(row)));
        assert(after.table.rows == before.table.rows.push(stored(before.table.last_id + 1, row)));
        assert forall|k: int| 0 <= k < m implies #[trigger] after.table.rows[k]
            == pool.table.rows[k] by {
            assert(after.table.rows[k] == before.table.rows[k]);
        }
        assert forall|k: int| #![trigger creations[k]] 0 <= k < creations.len() implies after.table.rows[m
            + k] == stored(pool.table.last_id + 1 + k, stamped(creations[k].0, creations[k].1)) by {
            if k < n {
                assert(front[k] == creations[k]);
                assert(after.table.rows[m + k] == before.table.rows[m + k]);
            } else {
                assert(creations[k] == creations.last());
            }
        }
    }
}

/// While identifiers last, each of any number of creations served one after
/// the other succeeds: the `k`-th is answered with the created status and a
/// count of one.
pub proof fn lemma_every_creation_succeeds(
    pool: PoolView,
    creations: Seq<(InputUserView, Timestamp)>,
    k: int,
)
    requires
        pool.wf(),
        !pool.exhausted(),
        pool.table.last_id + creations.len() <= i32::MAX,
        0 <= k < creations.len(),
    ensures
        response_to(
            pool_after_creations(pool, creations.take(k)),
            OperationView::Create { input: creations[k].0 },
        ) == (ResponseView { status: CREATED, challenge: None, body: BodyView::Count(1) }),
{
    lemma_creations_get_distinct_ids(pool, creations.take(k));
}

} // verus!
