use z2p::form::{decode_range, parse_form};
use z2p::subscription::{
    check_subscriber, find_subscriber_fields, parse_subscriber, FormRejection,
};

fn pairs(body: &str) -> Vec<(Vec<u8>, Vec<u8>)> {
    parse_form(body.as_bytes()).into_iter().map(|f| (f.name, f.value)).collect()
}

fn decode(s: &str) -> Vec<u8> {
    decode_range(s.as_bytes(), 0, s.len())
}

#[test]
fn decodes_plus_and_percent() {
    assert_eq!(decode("joe+smith"), b"joe smith".to_vec());
    assert_eq!(decode("joe%20smith"), b"joe smith".to_vec());
    assert_eq!(decode("a%2Bb%2bc"), b"a+b+c".to_vec());
    assert_eq!(decode("%41%6a"), b"Aj".to_vec());
}

#[test]
fn keeps_malformed_escapes() {
    assert_eq!(decode("100%"), b"100%".to_vec());
    assert_eq!(decode("%4"), b"%4".to_vec());
    assert_eq!(decode("%zz1"), b"%zz1".to_vec());
    assert_eq!(decode("%%41"), b"%A".to_vec());
}

#[test]
fn decodes_a_range_only() {
    assert_eq!(decode_range(b"xx%41yy", 2, 5), b"A".to_vec());
    assert_eq!(decode_range(b"abc", 1, 1), Vec::<u8>::new());
}

#[test]
fn splits_pairs_in_order() {
    assert_eq!(
        pairs("a=1&b=2&a=3"),
        vec![
            (b"a".to_vec(), b"1".to_vec()),
            (b"b".to_vec(), b"2".to_vec()),
            (b"a".to_vec(), b"3".to_vec()),
        ]
    );
}

#[test]
fn skips_empty_pieces_and_splits_at_first_equals() {
    assert_eq!(
        pairs("&&k=v=w&&flag&=x&"),
        vec![
            (b"k".to_vec(), b"v=w".to_vec()),
            (b"flag".to_vec(), Vec::new()),
            (Vec::new(), b"x".to_vec()),
        ]
    );
    assert!(pairs("").is_empty());
    assert!(pairs("&&&").is_empty());
}

#[test]
fn decodes_names_too() {
    assert_eq!(pairs("na%6De=a+b"), vec![(b"name".to_vec(), b"a b".to_vec())]);
}

#[test]
fn reads_subscriber_and_ignores_other_fields() {
    let s = parse_subscriber(b"x=1&email=a%40b.c&name=Al&y").ok().unwrap();
    assert_eq!(s.name, "Al");
    assert_eq!(s.email, "a@b.c");
}

#[test]
fn each_rejection_has_an_input() {
    let err = |b: &str| parse_subscriber(b.as_bytes()).err();
    assert_eq!(err("name=a&name=b&email=c"), Some(FormRejection::DuplicateField));
    assert_eq!(err("name=a&email=b&email=c"), Some(FormRejection::DuplicateField));
    assert_eq!(err("email=c"), Some(FormRejection::MissingName));
    assert_eq!(err(""), Some(FormRejection::MissingName));
    assert_eq!(err("name=a"), Some(FormRejection::MissingEmail));
    assert_eq!(err("name=&email=john@gmail.com"), Some(FormRejection::EmptyName));
    assert_eq!(err("name&email=x"), Some(FormRejection::EmptyName));
    assert_eq!(err("name=a&email="), Some(FormRejection::EmptyEmail));
}

#[test]
fn whitespace_name_and_odd_email_are_accepted() {
    let s = parse_subscriber(b"name=+&email=not-an-email").ok().unwrap();
    assert_eq!(s.name, " ");
    assert_eq!(s.email, "not-an-email");
}

#[test]
fn values_are_read_as_utf8() {
    let s = parse_subscriber(b"name=Ren%C3%A9e&email=%FF").ok().unwrap();
    assert_eq!(s.name, "Ren\u{e9}e");
    assert_eq!(s.email, "\u{fffd}");
}

#[test]
fn finds_field_positions() {
    let fields = parse_form(b"email=e&z=1&name=n");
    assert_eq!(find_subscriber_fields(&fields).ok(), Some((2, 0)));
    let fields = parse_form(b"z=1");
    assert_eq!(find_subscriber_fields(&fields).err(), Some(FormRejection::MissingName));
}

#[test]
fn checks_text_fields() {
    assert!(check_subscriber("a".to_string(), "b".to_string()).is_ok());
    assert_eq!(
        check_subscriber(String::new(), "b".to_string()).err(),
        Some(FormRejection::EmptyName)
    );
    assert_eq!(
        check_subscriber("a".to_string(), String::new()).err(),
        Some(FormRejection::EmptyEmail)
    );
}
