use chrono::{TimeZone, Utc};
use elasticsearch_dsl::document::term_value_text;
use elasticsearch_dsl::queries::{MatchAllQuery, Query, SpanQuery};
use elasticsearch_dsl::skip::ShouldSkip;
use elasticsearch_dsl::term::{Term, Timestamp};
use elasticsearch_dsl::zero_terms_query::ZeroTermsQuery;

fn assert_serialize(text: String, expectation: &str) {
    let result: serde_json::Value = serde_json::from_str(&text).unwrap();
    let expected: serde_json::Value = serde_json::from_str(expectation).unwrap();
    assert_eq!(result, expected)
}

#[test]
fn match_all_query_serialization() {
    assert_serialize(Query::match_all().to_json(), r#"{ "match_all": {} }"#);

    assert_serialize(
        Query::match_all().boost(2).name("test").to_json(),
        r#"{ "match_all": { "boost": 2, "_name": "test" } }"#,
    );
}

#[test]
fn constant_score_query_serialization() {
    assert_serialize(
        Query::constant_score(Query::term("test1", 123)).to_json(),
        r#"{
            "constant_score": {
                "filter": {
                    "term": {
                        "test1": {
                            "value": 123
                        }
                    }
                }
            }
        }"#,
    );

    assert_serialize(
        Query::constant_score(Query::term("test1", 123))
            .boost(3)
            .name("test")
            .to_json(),
        r#"{
            "constant_score": {
                "filter": {
                    "term": {
                        "test1": {
                            "value": 123
                        }
                    }
                },
                "boost": 3,
                "_name": "test"
            }
        }"#,
    );
}

#[test]
fn span_field_masking_serialization() {
    assert_serialize(
        Query::span_field_masking(
            SpanQuery::SpanTerm(Query::span_term("test", 1234u32)),
            "test".to_string(),
        )
        .to_json(),
        r#"{
            "span_field_masking": {
                "query": {
                    "span_term": {
                        "test": {
                            "value": 1234
                        }
                    }
                },
                "field": "test"
            }
        }"#,
    );

    assert_serialize(
        Query::span_field_masking(
            SpanQuery::SpanTerm(Query::span_term("test", 1234u32)),
            "test".to_string(),
        )
        .to_json(),
        r#"{
            "span_field_masking": {
                "query": {
                    "span_term": {
                        "test": {
                            "value": 1234
                        }
                    }
                },
                "field": "test"
            }
        }"#,
    );
}

#[test]
fn exact_compact_text() {
    assert_eq!(Query::match_all().to_json(), r#"{"match_all":{}}"#);
    assert_eq!(
        Query::match_all().boost(2).name("test").to_json(),
        r#"{"match_all":{"boost":2,"_name":"test"}}"#
    );
    assert_eq!(
        Query::constant_score(Query::term("field", 123)).to_json(),
        r#"{"constant_score":{"filter":{"term":{"field":{"value":123}}}}}"#
    );
    assert_eq!(
        Query::span_field_masking(Query::span_term("field", 1234), "field").to_json(),
        r#"{"span_field_masking":{"query":{"span_term":{"field":{"value":1234}}},"field":"field"}}"#
    );
}

#[test]
fn serialization_is_repeatable() {
    let q = Query::from(
        Query::constant_score(Query::term("f", -42i64).boost(7).name("a\"b"))
            .boost(1)
            .name("outer"),
    );
    let first = q.to_json();
    let second = q.to_json();
    assert_eq!(first, second);
    assert_eq!(
        first,
        r#"{"constant_score":{"filter":{"term":{"f":{"value":-42,"boost":7,"_name":"a\"b"}}},"boost":1,"_name":"outer"}}"#
    );
}

#[test]
fn nested_span_field_masking() {
    let inner = Query::span_field_masking(Query::span_term("text.stems", "fox".to_string()), "text");
    let outer = Query::span_field_masking(inner, "body");
    assert_eq!(
        outer.to_json(),
        r#"{"span_field_masking":{"query":{"span_field_masking":{"query":{"span_term":{"text.stems":{"value":"fox"}}},"field":"text"}},"field":"body"}}"#
    );
}

#[test]
fn term_values_as_json() {
    assert_eq!(term_value_text(&Term::default()), "null");
    assert_eq!(term_value_text(&Term::from(true)), "true");
    assert_eq!(term_value_text(&Term::from(false)), "false");
    assert_eq!(term_value_text(&Term::from(0u8)), "0");
    assert_eq!(term_value_text(&Term::from(i64::MIN)), "-9223372036854775808");
    assert_eq!(term_value_text(&Term::from(u64::MAX)), "18446744073709551615");
    assert_eq!(term_value_text(&Term::from("line\nbreak \\ \"q\"".to_string())), r#""line\nbreak \\ \"q\"""#);
    let dt = Utc.with_ymd_and_hms(2021, 3, 10, 10, 42, 0).unwrap();
    let ts = Timestamp::new(dt.timestamp(), dt.timestamp_subsec_nanos()).unwrap();
    assert_eq!(term_value_text(&Term::from(ts)), r#""2021-03-10T10:42:00Z""#);
}

#[test]
fn compound_omission_delegates() {
    let empty = Query::constant_score(Query::term("f", String::new()));
    assert!(empty.should_skip());
    let nested = Query::constant_score(empty);
    assert!(nested.should_skip());
    let absent = Query::constant_score(Query::term("f", Option::<i32>::None));
    assert!(absent.should_skip());
    let zero = Query::constant_score(Query::term("f", 0));
    assert!(!zero.should_skip());
    assert!(!Query::constant_score(Query::match_all()).should_skip());
    assert!(!Query::from(Query::match_all()).should_skip());
    assert!(Query::from(Query::span_term("f", String::new())).should_skip());
}

#[test]
fn zero_terms_query_names() {
    assert_eq!(ZeroTermsQuery::Nothing.as_str(), "none");
    assert_eq!(ZeroTermsQuery::All.as_str(), "all");
    assert_ne!(ZeroTermsQuery::Nothing, ZeroTermsQuery::All);
}

#[test]
fn built_queries_as_arguments() {
    let filter = Query::from(Query::term("f", true));
    assert_eq!(
        Query::constant_score(filter).to_json(),
        r#"{"constant_score":{"filter":{"term":{"f":{"value":true}}}}}"#
    );
    let span = SpanQuery::from(Query::span_term("f", 1u8));
    assert_eq!(
        Query::span_field_masking(span, "g").to_json(),
        r#"{"span_field_masking":{"query":{"span_term":{"f":{"value":1}}},"field":"g"}}"#
    );
}

#[test]
fn clone_default_and_equality() {
    let q = Query::from(Query::constant_score(Query::span_field_masking(Query::span_term("a", 1), "b")).boost(4));
    let c = q.clone();
    assert_eq!(q, c);
    assert_eq!(q.to_json(), c.to_json());
    assert_eq!(MatchAllQuery::default(), Query::match_all());
    assert_ne!(Query::match_all(), Query::match_all().boost(1));
}

#[test]
fn control_characters_are_escaped() {
    assert_eq!(
        Query::match_all().name("a\u{1}\t\u{8}\u{c}\r/é").to_json(),
        "{\"match_all\":{\"_name\":\"a\\u0001\\t\\b\\f\\r/é\"}}"
    );
}
