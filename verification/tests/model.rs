use user_service::model::{new_user, stamp, InputUser, NewUser, Timestamp, User};

fn ada() -> InputUser {
    InputUser {
        first_name: "Ada".to_string(),
        last_name: "Lovelace".to_string(),
        email: "ada@example.com".to_string(),
    }
}

#[test]
fn stamp_keeps_fields_and_sets_time() {
    let input = ada();
    let now = Timestamp { secs: 1_700_000_000, nanos: 123 };
    let row = stamp(&input, now);
    assert_eq!(
        row,
        NewUser {
            first_name: "Ada",
            last_name: "Lovelace",
            email: "ada@example.com",
            created_at: Timestamp { secs: 1_700_000_000, nanos: 123 },
        }
    );
}

#[test]
fn stamp_does_not_validate() {
    let input = InputUser {
        first_name: String::new(),
        last_name: String::new(),
        email: "not an address".to_string(),
    };
    let row = stamp(&input, Timestamp { secs: -1, nanos: 0 });
    assert_eq!(row.first_name, "");
    assert_eq!(row.email, "not an address");
    assert_eq!(row.created_at, Timestamp { secs: -1, nanos: 0 });
}

#[test]
fn new_user_keeps_fields_and_reads_the_clock() {
    let input = ada();
    let row = new_user(&input);
    assert_eq!(row.first_name, "Ada");
    assert_eq!(row.last_name, "Lovelace");
    assert_eq!(row.email, "ada@example.com");
    // Any working clock shows a time after the year 2001.
    assert!(row.created_at.secs > 1_000_000_000);
    assert!(row.created_at.nanos < 2_000_000_000);
}

#[test]
fn timestamps_order_by_seconds_then_nanoseconds() {
    let a = Timestamp { secs: 10, nanos: 500 };
    let b = Timestamp { secs: 10, nanos: 501 };
    let c = Timestamp { secs: 11, nanos: 0 };
    let d = Timestamp { secs: -3, nanos: 999_999_999 };
    assert!(a.is_at_or_after(&a));
    assert!(b.is_at_or_after(&a));
    assert!(!a.is_at_or_after(&b));
    assert!(c.is_at_or_after(&b));
    assert!(!b.is_at_or_after(&c));
    assert!(a.is_at_or_after(&d));
    assert!(!d.is_at_or_after(&a));
}

#[test]
fn duplicate_is_an_equal_record() {
    let user = User {
        id: 9,
        first_name: "Grace".to_string(),
        last_name: "Hopper".to_string(),
        email: "grace@example.com".to_string(),
        created_at: Timestamp { secs: 5, nanos: 6 },
    };
    assert_eq!(user.duplicate(), user);
}
