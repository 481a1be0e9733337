use chrono::{TimeZone, Utc};
use elasticsearch_dsl::queries::Query;
use elasticsearch_dsl::skip::ShouldSkip;
use elasticsearch_dsl::term::{try_eq, Inner, Term, Timestamp, MAX_EPOCH_SECONDS};
use std::cmp::Ordering;

#[allow(deprecated)]
fn instant(y: i32, mo: u32, d: u32, h: u32, mi: u32, s: u32) -> Timestamp {
    let dt = Utc.ymd(y, mo, d).and_hms(h, mi, s);
    Timestamp::new(dt.timestamp(), dt.timestamp_subsec_nanos()).unwrap()
}

#[test]
fn partial_equality() {
    let values = vec![
        (Inner::Bool(true), Inner::Bool(true)),
        (Inner::String("a".into()), Inner::String("a".into())),
        (Inner::SignedInteger(16), Inner::SignedInteger(16)),
        (Inner::SignedInteger(16), Inner::UnsignedInteger(16)),
        (Inner::UnsignedInteger(16), Inner::SignedInteger(16)),
        (Inner::UnsignedInteger(16), Inner::UnsignedInteger(16)),
        (
            Inner::DateTime(instant(2021, 3, 10, 10, 42, 0)),
            Inner::DateTime(instant(2021, 3, 10, 10, 42, 0)),
        ),
    ];

    for (left, right) in values {
        assert_eq!(left, right);
    }
}

#[test]
fn cross_integer_equality_is_symmetric() {
    assert_eq!(Term::from(16i64), Term::from(16u64));
    assert_eq!(Term::from(16u64), Term::from(16i64));
    assert_ne!(Term::from(-1i64), Term::from(1u64));
    assert_ne!(Term::from(1u64), Term::from(-1i64));
    assert_ne!(Inner::SignedInteger(-1), Inner::UnsignedInteger(u64::MAX));
    assert_ne!(Inner::UnsignedInteger(u64::MAX), Inner::SignedInteger(-1));
}

#[test]
fn unrelated_kinds_are_unequal() {
    assert_ne!(Term::from(true), Term::from("true".to_string()));
    assert_ne!(Term::from("1".to_string()), Term::from(1i32));
    assert_ne!(Term::from(1i32), Term::from("1".to_string()));
    assert_ne!(Term::from(false), Term::from(0u8));
    assert_ne!(Term::default(), Term::from(0u8));
}

#[test]
fn literals_read_back() {
    assert!(matches!(Term::from(true).0, Some(Inner::Bool(true))));
    assert!(matches!(Term::from(-5i8).0, Some(Inner::SignedInteger(-5))));
    assert!(matches!(Term::from(-300i16).0, Some(Inner::SignedInteger(-300))));
    assert!(matches!(Term::from(70000i32).0, Some(Inner::SignedInteger(70000))));
    assert!(matches!(Term::from(i64::MIN).0, Some(Inner::SignedInteger(i64::MIN))));
    assert!(matches!(Term::from(200u8).0, Some(Inner::UnsignedInteger(200))));
    assert!(matches!(Term::from(60000u16).0, Some(Inner::UnsignedInteger(60000))));
    assert!(matches!(Term::from(4000000000u32).0, Some(Inner::UnsignedInteger(4000000000))));
    assert!(matches!(Term::from(u64::MAX).0, Some(Inner::UnsignedInteger(u64::MAX))));
    assert!(Term::from(Option::<i32>::None).0.is_none());
    assert_eq!(Term::from(Some(7u16)), Term::from(7u16));
    assert_eq!(Term::from("abc".to_string()), Term::from("abc".to_string()));
    let t = Term::from(instant(2000, 1, 1, 0, 0, 0));
    assert_eq!(t, t.clone());
}

#[test]
fn omission_of_terms() {
    assert!(Term::default().should_skip());
    assert!(Term::from(Option::<String>::None).should_skip());
    assert!(Term::from(String::new()).should_skip());
    assert!(!Term::from(0i64).should_skip());
    assert!(!Term::from(0u64).should_skip());
    assert!(!Term::from(false).should_skip());
    assert!(!Term::from(" ".to_string()).should_skip());
}

#[test]
fn ordering_by_kind_then_value() {
    assert_eq!(Term::default().partial_cmp(&Term::from(false)), Some(Ordering::Less));
    assert_eq!(Term::from(true).partial_cmp(&Term::from(false)), Some(Ordering::Greater));
    assert_eq!(Term::from(true).partial_cmp(&Term::from("a".to_string())), Some(Ordering::Less));
    assert_eq!(Term::from("a".to_string()).partial_cmp(&Term::from(true)), Some(Ordering::Greater));
    assert_eq!(Term::from("ab".to_string()).partial_cmp(&Term::from("b".to_string())), Some(Ordering::Less));
    assert_eq!(Term::from("é".to_string()).partial_cmp(&Term::from("z".to_string())), Some(Ordering::Greater));
    assert_eq!(Term::from(-1i64).partial_cmp(&Term::from(0u64)), Some(Ordering::Less));
    assert_eq!(Term::from(u64::MAX).partial_cmp(&Term::from(i64::MAX)), Some(Ordering::Greater));
    assert_eq!(Term::from(16u8).partial_cmp(&Term::from(16i8)), Some(Ordering::Equal));
    assert_eq!(
        Term::from(instant(2021, 3, 10, 10, 42, 0)).partial_cmp(&Term::from(instant(2021, 3, 10, 10, 42, 1))),
        Some(Ordering::Less)
    );
}

#[test]
fn timestamps_from_plain_values() {
    let t = Timestamp::new(0, 0).unwrap();
    assert_eq!(t.text(), "1970-01-01T00:00:00Z");
    assert_eq!((t.secs(), t.nanos()), (0, 0));
    assert_eq!(instant(2021, 3, 10, 10, 42, 0).text(), "2021-03-10T10:42:00Z");
    assert_eq!(Timestamp::new(1, 500_000_000).unwrap().text(), "1970-01-01T00:00:01.500Z");
    assert!(Timestamp::new(MAX_EPOCH_SECONDS, 999_999_999).is_some());
    assert!(Timestamp::new(-MAX_EPOCH_SECONDS, 0).is_some());
    assert_eq!(Timestamp::new(59, 1_500_000_000).unwrap().text(), "1970-01-01T00:00:60.500Z");
    assert!(Timestamp::new(0, 2_000_000_000).is_none());
    assert!(Timestamp::new(0, 1_000_000_000).is_none());
    assert!(Timestamp::new(i64::MAX, 0).is_none());
}

#[test]
fn term_query_holds_converted_value() {
    let q = Query::term("field", 123);
    assert_eq!(q.field, "field");
    assert_eq!(q.value, Term::from(123i64));
    assert!(q.boost.is_none() && q.name.is_none());
}

#[test]
fn try_eq_across_integer_types() {
    assert!(try_eq(&16i64, &16u64));
    assert!(try_eq(&16u64, &16i64));
    assert!(!try_eq(&0i64, &u64::MAX));
    assert!(!try_eq(&-1i64, &u64::MAX));
    assert!(try_eq(&i64::MAX, &(i64::MAX as u64)));
    assert!(!try_eq(&1u64, &-1i64));
}
