use std::cell::Cell;

use user_service::auth::Challenge;
use user_service::model::{new_user, InputUser, Timestamp, User};
use user_service::pool::Pool;
use user_service::response::{Body, Response};
use user_service::service::{handle, serve, Operation, Request};
use user_service::store::UserTable;

fn ada() -> InputUser {
    InputUser {
        first_name: "Ada".to_string(),
        last_name: "Lovelace".to_string(),
        email: "ada@example.com".to_string(),
    }
}

fn input(n: usize) -> InputUser {
    InputUser {
        first_name: format!("first{}", n),
        last_name: format!("last{}", n),
        email: format!("user{}@example.com", n),
    }
}

fn secret(token: &str) -> Result<bool, String> {
    Ok(token == "s3cret")
}

fn with_token(operation: Operation) -> Request<'static> {
    Request { token: Some("s3cret"), operation }
}

fn every_operation() -> Vec<Operation> {
    vec![
        Operation::List,
        Operation::Get { id: 1 },
        Operation::Create { input: ada() },
        Operation::Delete { id: 1 },
    ]
}

fn bare_401() -> Response {
    Response {
        status: 401,
        challenge: Some(Challenge { realm: None, scope: None }),
        body: Body::Empty,
    }
}

fn bare_500() -> Response {
    Response { status: 500, challenge: None, body: Body::Empty }
}

fn listed(pool: &mut Pool) -> Vec<User> {
    match serve(pool, None, with_token(Operation::List), &secret) {
        Response { status: 200, challenge: None, body: Body::Users(users) } => users,
        other => panic!("listing answered {:?}", other),
    }
}

#[test]
fn create_then_get() {
    let mut pool = Pool::new(1);
    let probe = ada();
    let posted_at = new_user(&probe).created_at;

    let created = serve(&mut pool, None, with_token(Operation::Create { input: ada() }), &secret);
    assert_eq!(created, Response { status: 201, challenge: None, body: Body::Count(1) });

    let users = listed(&mut pool);
    assert_eq!(users.len(), 1);
    let user = &users[0];
    assert_eq!(user.first_name, "Ada");
    assert_eq!(user.last_name, "Lovelace");
    assert_eq!(user.email, "ada@example.com");
    assert!(user.id >= 1);
    assert!(user.created_at.is_at_or_after(&posted_at));

    let got = serve(&mut pool, None, with_token(Operation::Get { id: user.id }), &secret);
    assert_eq!(got, Response { status: 200, challenge: None, body: Body::User(user.clone()) });
}

#[test]
fn request_without_token_is_401_and_nothing_runs() {
    let mut pool = Pool::new(1);
    serve(&mut pool, None, with_token(Operation::Create { input: ada() }), &secret);
    let asked = Cell::new(0u32);
    let validate = |_t: &str| -> Result<bool, String> {
        asked.set(asked.get() + 1);
        Ok(true)
    };
    for operation in every_operation() {
        let response = serve(&mut pool, None, Request { token: None, operation }, &validate);
        assert_eq!(response, bare_401());
    }
    assert_eq!(asked.get(), 0);
    assert_eq!(pool.leased(), 0);
    let users = listed(&mut pool);
    assert_eq!(users.len(), 1);
    assert_eq!(users[0].id, 1);
}

#[test]
fn request_with_wrong_token_is_401_and_nothing_runs() {
    let mut pool = Pool::new(1);
    serve(&mut pool, None, with_token(Operation::Create { input: ada() }), &secret);
    for operation in every_operation() {
        let response = serve(&mut pool, None, Request { token: Some("guess"), operation }, &secret);
        assert_eq!(response, bare_401());
    }
    let users = listed(&mut pool);
    assert_eq!(users.len(), 1);
    assert_eq!(users[0].first_name, "Ada");
}

#[test]
fn failing_validator_is_401_like_a_wrong_token() {
    let mut pool = Pool::new(1);
    let fail = |_t: &str| -> Result<bool, String> { Err("policy service unreachable".to_string()) };
    for operation in every_operation() {
        let response = serve(&mut pool, None, with_token(operation), &fail);
        assert_eq!(response, bare_401());
    }
    assert_eq!(listed(&mut pool), Vec::<User>::new());
}

#[test]
fn validator_that_always_refuses_makes_every_route_401() {
    let refuse = |_t: &str| -> Result<bool, String> { Ok(false) };
    for token in ["s3cret", "", "anything at all"] {
        for operation in every_operation() {
            let mut pool = Pool::new(2);
            let response = serve(&mut pool, None, Request { token: Some(token), operation }, &refuse);
            assert_eq!(response.status, 401);
            assert_eq!(listed(&mut pool), Vec::<User>::new());
        }
    }
}

#[test]
fn rejection_carries_the_configured_challenge() {
    let mut pool = Pool::new(1);
    let config = Challenge { realm: Some("users".to_string()), scope: None };
    let response =
        serve(&mut pool, Some(config.clone()), Request { token: None, operation: Operation::List }, &secret);
    assert_eq!(response, Response { status: 401, challenge: Some(config), body: Body::Empty });
}

#[test]
fn valid_token_reaches_the_handler_of_each_route() {
    let mut pool = Pool::new(1);
    assert_eq!(
        serve(&mut pool, None, with_token(Operation::List), &secret),
        Response { status: 200, challenge: None, body: Body::Users(vec![]) }
    );
    assert_eq!(
        serve(&mut pool, None, with_token(Operation::Create { input: ada() }), &secret),
        Response { status: 201, challenge: None, body: Body::Count(1) }
    );
    assert_eq!(serve(&mut pool, None, with_token(Operation::Get { id: 1 }), &secret).status, 200);
    assert_eq!(
        serve(&mut pool, None, with_token(Operation::Delete { id: 1 }), &secret),
        Response { status: 200, challenge: None, body: Body::Count(1) }
    );
}

#[test]
fn get_of_missing_id_is_500() {
    let mut pool = Pool::new(1);
    let response = serve(&mut pool, None, with_token(Operation::Get { id: 12 }), &secret);
    assert_eq!(response, bare_500());
}

#[test]
fn delete_of_missing_id_is_200_with_count_zero() {
    let mut pool = Pool::new(1);
    serve(&mut pool, None, with_token(Operation::Create { input: ada() }), &secret);
    let response = serve(&mut pool, None, with_token(Operation::Delete { id: 12 }), &secret);
    assert_eq!(response, Response { status: 200, challenge: None, body: Body::Count(0) });
    assert_eq!(listed(&mut pool).len(), 1);
}

#[test]
fn delete_then_list() {
    let mut pool = Pool::new(1);
    for n in 0..3 {
        serve(&mut pool, None, with_token(Operation::Create { input: input(n) }), &secret);
    }
    let before = listed(&mut pool);
    assert_eq!(before.len(), 3);
    let id = before[1].id;

    let response = serve(&mut pool, None, with_token(Operation::Delete { id }), &secret);
    assert_eq!(response, Response { status: 200, challenge: None, body: Body::Count(1) });

    let after = listed(&mut pool);
    assert_eq!(after.len(), before.len() - 1);
    assert!(after.iter().all(|user| user.id != id));
    assert_eq!(after, vec![before[0].clone(), before[2].clone()]);
}

#[test]
fn second_operation_on_a_pool_of_one_is_500() {
    let mut pool = Pool::new(1);
    serve(&mut pool, None, with_token(Operation::Create { input: ada() }), &secret);
    // A first operation is under way and holds the only connection.
    assert_eq!(pool.lease(), Ok(()));
    for operation in every_operation() {
        assert_eq!(serve(&mut pool, None, with_token(operation), &secret), bare_500());
    }
    assert_eq!(pool.leased(), 1);
    // The first operation ends; the next request is served again.
    pool.release();
    let users = listed(&mut pool);
    assert_eq!(users.len(), 1);
    assert_eq!(users[0].first_name, "Ada");
}

#[test]
fn many_creates_all_succeed_with_distinct_ids() {
    let mut pool = Pool::new(3);
    let n = 64;
    for k in 0..n {
        let response =
            serve(&mut pool, None, with_token(Operation::Create { input: input(k) }), &secret);
        assert_eq!(response, Response { status: 201, challenge: None, body: Body::Count(1) });
    }
    let users = listed(&mut pool);
    assert_eq!(users.len(), n);
    let mut ids: Vec<i32> = users.iter().map(|user| user.id).collect();
    ids.sort();
    ids.dedup();
    assert_eq!(ids.len(), n);
    for (k, user) in users.iter().enumerate() {
        assert_eq!(user.email, format!("user{}@example.com", k));
    }
}

#[test]
fn handle_runs_without_the_gate() {
    let mut pool = Pool::new(1);
    assert_eq!(
        handle(&mut pool, Operation::Create { input: ada() }),
        Response { status: 201, challenge: None, body: Body::Count(1) }
    );
    assert_eq!(
        handle(&mut pool, Operation::Delete { id: 1 }),
        Response { status: 200, challenge: None, body: Body::Count(1) }
    );
    assert_eq!(handle(&mut pool, Operation::Get { id: 1 }), bare_500());
}

#[test]
fn creation_without_a_free_id_is_500() {
    let last = User {
        id: i32::MAX,
        first_name: "z".to_string(),
        last_name: "Doe".to_string(),
        email: "z@example.com".to_string(),
        created_at: Timestamp { secs: 9, nanos: 0 },
    };
    let mut pool = Pool::with_table(1, UserTable::with_rows(vec![last.clone()]).unwrap());
    let response = serve(&mut pool, None, with_token(Operation::Create { input: ada() }), &secret);
    assert_eq!(response, bare_500());
    assert_eq!(listed(&mut pool), vec![last]);
}
