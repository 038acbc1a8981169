use z2p::routes::{
    health_check, insert_response, subscribe, subscribe_now, SubscribeAction, STATUS_BAD_REQUEST,
};
use z2p::store::SubscriptionTable;

fn handle(table: &mut SubscriptionTable, body: &str, id: u128) -> u16 {
    match subscribe(body.as_bytes(), id, 1_700_000_000_000_000) {
        SubscribeAction::Reject(r) => r.status,
        SubscribeAction::Insert(row) => insert_response(table.insert(row).is_ok()).status,
    }
}

#[test]
fn health_check_works() {
    let res = health_check();
    assert!((200..300).contains(&res.status));
    assert_eq!(Some(0), Some(res.body.len() as u64));
}

#[test]
fn subscribe_returns_a_200_for_valid_form_data() {
    let mut table = SubscriptionTable::new();
    let body = "name=joe%20smith&email=joe.smith%40gmail.com";
    let status = handle(&mut table, body, 1);
    assert_eq!(table.len(), 1);
    let saved = table.get(0);
    assert_eq!(200, status);
    assert_eq!(saved.email, "joe.smith@gmail.com");
    assert_eq!(saved.name, "joe smith");
}

#[test]
fn subscribe_returns_a_400_when_data_is_missing() {
    let mut table = SubscriptionTable::new();
    let test_cases = vec![
        ("name=john%20doe", "missing email"),
        ("email=john.doe%40gmail.com", "missing name"),
        ("", "missing both name and email"),
        ("name=&email=john@gmail.com", "empty name"),
    ];
    for (invalid_body, err_msg) in test_cases {
        let status = handle(&mut table, invalid_body, 7);
        assert_eq!(
            400, status,
            "The API did not fail with 400 Bad Request when the payload was {}.",
            err_msg
        );
    }
    assert_eq!(table.len(), 0);
}

#[test]
fn health_check_is_the_same_after_submissions() {
    let mut table = SubscriptionTable::new();
    handle(&mut table, "name=a&email=b", 1);
    handle(&mut table, "name=", 2);
    let res = health_check();
    assert_eq!(res.status, 200);
    assert!(res.body.is_empty());
}

#[test]
fn same_pair_twice_gives_two_rows() {
    let mut table = SubscriptionTable::new();
    let body = "name=ann&email=ann%40example.com";
    assert_eq!(handle(&mut table, body, 10), 200);
    assert_eq!(handle(&mut table, body, 11), 200);
    assert_eq!(table.len(), 2);
    let (a, b) = (table.get(0), table.get(1));
    assert_eq!(a.name, b.name);
    assert_eq!(a.email, "ann@example.com");
    assert_eq!(b.email, "ann@example.com");
    assert_ne!(a.id, b.id);
}

#[test]
fn fresh_identifiers_differ() {
    let body = b"name=ann&email=ann%40example.com";
    let ids: Vec<u128> = [subscribe_now(body), subscribe_now(body)]
        .into_iter()
        .map(|a| match a {
            SubscribeAction::Insert(row) => row.id,
            SubscribeAction::Reject(_) => panic!("valid submission refused"),
        })
        .collect();
    assert_ne!(ids[0], ids[1]);
}

#[test]
fn subscribe_now_refuses_missing_email() {
    match subscribe_now(b"name=ann") {
        SubscribeAction::Reject(r) => assert_eq!(r.status, STATUS_BAD_REQUEST),
        SubscribeAction::Insert(_) => panic!("submission without email accepted"),
    }
}

#[test]
fn reused_identifier_is_refused_by_the_table() {
    let mut table = SubscriptionTable::new();
    assert_eq!(handle(&mut table, "name=a&email=b", 5), 200);
    assert_eq!(handle(&mut table, "name=c&email=d", 5), 500);
    assert_eq!(table.len(), 1);
    assert!(table.contains_id(5));
    assert!(!table.contains_id(6));
}

#[test]
fn failed_insert_is_a_server_error() {
    let r = insert_response(false);
    assert_eq!(r.status, 500);
    assert!(r.body.is_empty());
    assert_eq!(insert_response(true).status, 200);
}

#[test]
fn stored_row_keeps_id_and_time() {
    match subscribe(b"email=x%40y.z&name=X", 42, -5) {
        SubscribeAction::Insert(row) => {
            assert_eq!(row.id, 42);
            assert_eq!(row.subscribed_at, -5);
            assert_eq!(row.name, "X");
            assert_eq!(row.email, "x@y.z");
        }
        SubscribeAction::Reject(_) => panic!("valid submission refused"),
    }
}
