use elasticsearch_dsl::skip::{IntoText, ShouldSkip};

#[test]
fn containers_are_omitted_when_empty() {
    assert!(String::new().should_skip());
    assert!(!"x".to_string().should_skip());
    assert!(Vec::<u8>::new().should_skip());
    assert!(!vec![0u8].should_skip());
    assert!(Option::<u8>::None.should_skip());
    assert!(!Some(0u8).should_skip());
    assert!(!Some(String::new()).should_skip());
}

#[test]
fn text_arguments() {
    assert_eq!("abc".into_text(), "abc");
    assert_eq!("abc".to_string().into_text(), "abc");
}
