//! The four handlers, from the point where their blocking work has come
//! back: each turns the outcome of that work into the response.
//!
//! Reads and deletions answer 200 and creations 201, with the value in the
//! body. Whatever went wrong in the work (no connection to lease, a failed
//! query, a missing row, a worker that went away) is answered with 500 and
//! nothing else.

use vstd::prelude::*;

use crate::failure::Failure;
use crate::model::{rows_of, User};
use crate::response::{bridged, Body, BodyView, Response, CREATED, OK};

verus! {

/// Handler for listing every user.
pub fn get_users(outcome: Result<Vec<User>, Failure>) -> (response: Response)
    ensures
        response@ == bridged(
            OK,
            match outcome {
                Ok(users) => Ok(BodyView::Users(rows_of(users@))),
                Err(failure) => Err(failure),
            },
        ),
{
    match outcome {
        Ok(users) => Response::success(OK, Body::Users(users)),
        Err(failure) => Response::failure(failure),
    }
}

/// Handler for looking one user up by primary key. A missing row is a
/// failure like any other.
pub fn get_user_by_id(outcome: Result<User, Failure>) -> (response: Response)
    ensures
        response@ == bridged(
            OK,
            match outcome {
                Ok(user) => Ok(BodyView::User(user@)),
                Err(failure) => Err(failure),
            },
        ),
{
    match outcome {
        Ok(user) => Response::success(OK, Body::User(user)),
        Err(failure) => Response::failure(failure),
    }
}

/// Handler for creating a user: answers with the number of rows inserted.
pub fn add_user(outcome: Result<usize, Failure>) -> (response: Response)
    ensures
        response@ == bridged(
            CREATED,
            match outcome {
                Ok(count) => Ok(BodyView::Count(count as nat)),
                Err(failure) => Err(failure),
            },
        ),
{
    match outcome {
        Ok(count) => Response::success(CREATED, Body::Count(count)),
        Err(failure) => Response::failure(failure),
    }
}

/// Handler for deleting a user by primary key: answers with the number of
/// rows deleted, which is zero when there was no such row.
pub fn delete_user(outcome: Result<usize, Failure>) -> (response: Response)
    ensures
        response@ == bridged(
            OK,
            match outcome {
                Ok(count) => Ok(BodyView::Count(count as nat)),
                Err(failure) => Err(failure),
            },
        ),
{
    match outcome {
        Ok(count) => Response::success(OK, Body::Count(count)),
        Err(failure) => Response::failure(failure),
    }
}

} // verus!
