use user_service::failure::Failure;
use user_service::model::{new_user, InputUser, Timestamp, User};
use user_service::pool::Pool;
use user_service::store::UserTable;

fn input(first_name: &str) -> InputUser {
    InputUser {
        first_name: first_name.to_string(),
        last_name: "Doe".to_string(),
        email: format!("{}@example.com", first_name),
    }
}

fn at(secs: i64) -> Timestamp {
    Timestamp { secs, nanos: 0 }
}

#[test]
fn new_pool_has_nothing_leased() {
    let pool = Pool::new(4);
    assert_eq!(pool.capacity(), 4);
    assert_eq!(pool.leased(), 0);
}

#[test]
fn lease_succeeds_up_to_capacity_then_fails() {
    let mut pool = Pool::new(2);
    assert_eq!(pool.lease(), Ok(()));
    assert_eq!(pool.lease(), Ok(()));
    assert_eq!(pool.leased(), 2);
    assert_eq!(pool.lease(), Err(Failure::PoolExhausted));
    assert_eq!(pool.leased(), 2);
}

#[test]
fn pool_of_capacity_zero_is_always_exhausted() {
    let mut pool = Pool::new(0);
    assert_eq!(pool.lease(), Err(Failure::PoolExhausted));
    assert_eq!(pool.load_users(), Err(Failure::PoolExhausted));
}

#[test]
fn release_frees_one_connection() {
    let mut pool = Pool::new(1);
    pool.lease().unwrap();
    assert_eq!(pool.lease(), Err(Failure::PoolExhausted));
    pool.release();
    assert_eq!(pool.leased(), 0);
    assert_eq!(pool.lease(), Ok(()));
}

#[test]
fn release_with_nothing_leased_changes_nothing() {
    let mut pool = Pool::new(3);
    pool.release();
    assert_eq!(pool.leased(), 0);
    assert_eq!(pool.capacity(), 3);
}

#[test]
fn every_unit_of_work_gives_its_connection_back() {
    let mut pool = Pool::new(2);
    pool.lease().unwrap();
    assert_eq!(pool.insert_user(&input("a"), at(1)), Ok(1));
    assert_eq!(pool.leased(), 1);
    assert!(pool.load_users().is_ok());
    assert_eq!(pool.leased(), 1);
    assert!(pool.find_user(1).is_ok());
    assert_eq!(pool.leased(), 1);
    assert_eq!(pool.find_user(99), Err(Failure::NotFound));
    assert_eq!(pool.leased(), 1);
    assert_eq!(pool.remove_user(1), Ok(1));
    assert_eq!(pool.leased(), 1);
    assert!(pool.create_user(&input("b")).is_ok());
    assert_eq!(pool.leased(), 1);
}

#[test]
fn exhausted_pool_fails_every_unit_of_work_and_leaves_the_table() {
    let mut pool = Pool::new(1);
    assert_eq!(pool.insert_user(&input("a"), at(1)), Ok(1));
    pool.lease().unwrap();
    assert_eq!(pool.load_users(), Err(Failure::PoolExhausted));
    assert_eq!(pool.find_user(1), Err(Failure::PoolExhausted));
    assert_eq!(pool.insert_user(&input("b"), at(2)), Err(Failure::PoolExhausted));
    assert_eq!(pool.create_user(&input("c")), Err(Failure::PoolExhausted));
    assert_eq!(pool.remove_user(1), Err(Failure::PoolExhausted));
    assert_eq!(pool.leased(), 1);
    pool.release();
    let users = pool.load_users().unwrap();
    assert_eq!(users.len(), 1);
    assert_eq!(users[0].id, 1);
    assert_eq!(users[0].first_name, "a");
}

#[test]
fn insert_user_stamps_with_the_given_reading() {
    let mut pool = Pool::new(1);
    let now = Timestamp { secs: 1_700_000_000, nanos: 42 };
    assert_eq!(pool.insert_user(&input("ada"), now), Ok(1));
    assert_eq!(
        pool.find_user(1),
        Ok(User {
            id: 1,
            first_name: "ada".to_string(),
            last_name: "Doe".to_string(),
            email: "ada@example.com".to_string(),
            created_at: now,
        })
    );
}

#[test]
fn create_user_stamps_with_the_clock() {
    let mut pool = Pool::new(1);
    let probe = input("probe");
    let before = new_user(&probe).created_at;
    assert_eq!(pool.create_user(&input("ada")), Ok(1));
    let after = new_user(&probe).created_at;
    let user = pool.find_user(1).unwrap();
    assert_eq!(user.first_name, "ada");
    assert!(user.created_at.is_at_or_after(&before));
    assert!(after.is_at_or_after(&user.created_at));
}

#[test]
fn find_user_of_missing_row_is_not_found() {
    let mut pool = Pool::new(1);
    assert_eq!(pool.find_user(1), Err(Failure::NotFound));
}

#[test]
fn remove_user_of_missing_row_is_zero() {
    let mut pool = Pool::new(1);
    assert_eq!(pool.remove_user(1), Ok(0));
}

#[test]
fn with_table_serves_the_rows_it_was_given() {
    let rows = vec![User {
        id: 41,
        first_name: "a".to_string(),
        last_name: "Doe".to_string(),
        email: "a@example.com".to_string(),
        created_at: at(9),
    }];
    let mut pool = Pool::with_table(2, UserTable::with_rows(rows.clone()).unwrap());
    assert_eq!(pool.capacity(), 2);
    assert_eq!(pool.leased(), 0);
    assert_eq!(pool.load_users(), Ok(rows));
    assert_eq!(pool.insert_user(&input("b"), at(10)), Ok(1));
    assert_eq!(pool.find_user(42).map(|user| user.first_name), Ok("b".to_string()));
}

#[test]
fn creation_fails_as_a_query_once_every_id_is_handed_out() {
    let last = User {
        id: i32::MAX,
        first_name: "z".to_string(),
        last_name: "Doe".to_string(),
        email: "z@example.com".to_string(),
        created_at: at(9),
    };
    let mut pool = Pool::with_table(1, UserTable::with_rows(vec![last.clone()]).unwrap());
    assert_eq!(pool.insert_user(&input("a"), at(10)), Err(Failure::Query));
    assert_eq!(pool.create_user(&input("a")), Err(Failure::Query));
    assert_eq!(pool.leased(), 0);
    assert_eq!(pool.load_users(), Ok(vec![last]));
}
