//! Names of aggregations and read access to the aggregations of a response.

use crate::skip::IntoText;
use serde_json::Value;
use vstd::prelude::*;

verus! {

#[verifier::external_type_specification]
#[verifier::external_body]
pub struct ExValue(Value);

/// The member of the JSON value `v` under `key`: `None` where `v` is not an
/// object or has no member under that key.
pub uninterp spec fn member_at(v: Value, key: Seq<char>) -> Option<Value>;

/// Relies on serde_json's `Value::get` with a `&str` index: the member under
/// `key` of an object, `None` for a missing key or a value that is not an
/// object; it never panics.
#[verifier::external_body]
fn member_of<'a>(v: &'a Value, key: &str) -> (r: Option<&'a Value>)
    ensures
        match r {
            Some(x) => member_at(*v, key@) == Some(*x),
            None => member_at(*v, key@) is None,
        },
{
    v.get(key)
}

/// Aggregation name
#[derive(Debug, Clone, PartialEq, Eq, PartialOrd, Ord, Hash)]
pub struct AggregationName(pub String);

impl AggregationName {
    /// The name made of the characters of `value`.
    pub fn new<T: IntoText>(value: T) -> (r: AggregationName)
        ensures
            r.0@ == value.text_spec(),
    {
        AggregationName(value.into_text())
    }
}

impl From<String> for AggregationName {
    fn from(value: String) -> (r: AggregationName) {
        AggregationName(value)
    }
}

impl vstd::std_specs::convert::FromSpecImpl<String> for AggregationName {
    open spec fn obeys_from_spec() -> bool {
        true
    }

    open spec fn from_spec(value: String) -> AggregationName {
        AggregationName(value)
    }
}

impl IntoText for AggregationName {
    open spec fn text_spec(&self) -> Seq<char> {
        self.0@
    }

    fn into_text(self) -> (r: String) {
        self.0
    }
}

impl AsRef<str> for AggregationName {
    fn as_ref(&self) -> (r: &str)
        ensures
            r@ == self.0@,
    {
        self.0.as_str()
    }
}

/// Aggregations response handler
#[derive(Debug, Clone, Copy, PartialEq, Eq)]
pub struct AggregationsHandler<'a> {
    pub aggregations: Option<&'a Value>,
}

impl<'a> AggregationsHandler<'a> {
    /// Creates a handler over the aggregations of a response, if it has any.
    pub fn new(aggregations: Option<&'a Value>) -> (r: AggregationsHandler<'a>)
        ensures
            r.aggregations == aggregations,
    {
        AggregationsHandler { aggregations }
    }

    /// The aggregation container under `aggregation_name`: `None` where the
    /// handler holds no aggregations, or they are not an object, or they have
    /// no member under that name; else that member.
    pub fn terms<N: IntoText>(&self, aggregation_name: N) -> (r: Option<&'a Value>)
        ensures
            match self.aggregations {
                None => r is None,
                Some(v) => match r {
                    Some(x) => member_at(*v, aggregation_name.text_spec()) == Some(*x),
                    None => member_at(*v, aggregation_name.text_spec()) is None,
                },
            },
    {
        match self.aggregations {
            Some(v) => {
                let name = aggregation_name.into_text();
                member_of(v, name.as_str())
            },
            None => None,
        }
    }
}

} // verus!
