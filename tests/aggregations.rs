use elasticsearch_dsl::aggregations::{AggregationName, AggregationsHandler};

#[test]
fn terms_lookup() {
    let response: serde_json::Value =
        serde_json::from_str(r#"{ "genres": { "buckets": [ { "key": "rock", "doc_count": 3 } ] } }"#)
            .unwrap();
    let handler = AggregationsHandler::new(Some(&response));
    let genres = handler.terms("genres").unwrap();
    assert_eq!(genres["buckets"][0]["doc_count"], 3);
    assert!(handler.terms("missing").is_none());
    let list: serde_json::Value = serde_json::from_str("[1, 2]").unwrap();
    assert!(AggregationsHandler::new(Some(&list)).terms("genres").is_none());
    assert_eq!(handler, AggregationsHandler::new(Some(&response)));
    assert!(AggregationsHandler::new(None).terms("genres").is_none());
}

#[test]
fn aggregation_names() {
    let a = AggregationName::new("genres");
    let b = AggregationName::from("genres".to_string());
    assert_eq!(a, b);
    assert_eq!(a.as_ref(), "genres");
    assert!(AggregationName::new("a") < AggregationName::new("b"));
}

#[test]
fn terms_lookup_by_name_value() {
    let response: serde_json::Value = serde_json::from_str(r#"{ "tags": { "buckets": [] } }"#).unwrap();
    let handler = AggregationsHandler::new(Some(&response));
    let by_name = handler.terms(AggregationName::new("tags")).unwrap();
    let by_string = handler.terms("tags".to_string()).unwrap();
    assert_eq!(by_name, by_string);
    assert!(by_name["buckets"].as_array().unwrap().is_empty());
}
