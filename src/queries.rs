//! The query tree: one struct per query kind, and the sum types that nest them.

use crate::skip::{IntoText, ShouldSkip};
use crate::term::Term;
use vstd::prelude::*;
use vstd::std_specs::convert::IntoSpec;

verus! {

/// Returns documents that contain an exact term in a provided field.
#[derive(Debug, Clone, PartialEq)]
pub struct TermQuery {
    pub field: String,
    pub value: Term,
    pub boost: Option<u32>,
    pub name: Option<String>,
}

/// Matches spans containing a term.
#[derive(Debug, Clone, PartialEq)]
pub struct SpanTermQuery {
    pub field: String,
    pub value: Term,
    pub boost: Option<u32>,
    pub name: Option<String>,
}

/// The most simple query, which matches all documents, giving them all a
/// `_score` of `1.0`.
#[derive(Debug, Clone, PartialEq)]
pub struct MatchAllQuery {
    pub boost: Option<u32>,
    pub name: Option<String>,
}

/// Wraps a filter query and returns every matching document with a relevance
/// score equal to the `boost` parameter value.
#[derive(Debug, PartialEq)]
pub struct ConstantScoreQuery {
    pub filter: Box<Query>,
    pub boost: Option<u32>,
    pub name: Option<String>,
}

/// Wrapper to allow span queries to participate in composite single-field
/// span queries by lying about their search field.
#[derive(Debug, PartialEq)]
pub struct SpanFieldMaskingQuery {
    pub query: Box<SpanQuery>,
    pub field: String,
}

/// A search query of any supported kind.
#[derive(Debug, PartialEq)]
pub enum Query {
    Term(TermQuery),
    MatchAll(MatchAllQuery),
    ConstantScore(ConstantScoreQuery),
    SpanTerm(SpanTermQuery),
    SpanFieldMasking(SpanFieldMaskingQuery),
}

/// A query of a kind that may stand inside a span query.
#[derive(Debug, PartialEq)]
pub enum SpanQuery {
    SpanTerm(SpanTermQuery),
    SpanFieldMasking(SpanFieldMaskingQuery),
}

/// A query of any kind, or one already wrapped as a `Query`.
pub trait IntoQuery {
    /// The query it stands for.
    spec fn query_spec(&self) -> Query;

    /// The query it stands for.
    fn into_query(self) -> (r: Query)
        ensures
            r == self.query_spec(),
    ;
}

/// A span query of any kind, or one already wrapped as a `SpanQuery`.
pub trait IntoSpanQuery {
    /// The span query it stands for.
    spec fn span_query_spec(&self) -> SpanQuery;

    /// The span query it stands for.
    fn into_span_query(self) -> (r: SpanQuery)
        ensures
            r == self.span_query_spec(),
    ;
}

impl IntoQuery for Query {
    open spec fn query_spec(&self) -> Query {
        *self
    }

    fn into_query(self) -> (r: Query) {
        self
    }
}

impl IntoSpanQuery for SpanQuery {
    open spec fn span_query_spec(&self) -> SpanQuery {
        *self
    }

    fn into_span_query(self) -> (r: SpanQuery) {
        self
    }
}

impl IntoQuery for TermQuery {
    open spec fn query_spec(&self) -> Query {
        Query::Term(*self)
    }

    fn into_query(self) -> (r: Query) {
        Query::Term(self)
    }
}

impl IntoQuery for MatchAllQuery {
    open spec fn query_spec(&self) -> Query {
        Query::MatchAll(*self)
    }

    fn into_query(self) -> (r: Query) {
        Query::MatchAll(self)
    }
}

impl IntoQuery for ConstantScoreQuery {
    open spec fn query_spec(&self) -> Query {
        Query::ConstantScore(*self)
    }

    fn into_query(self) -> (r: Query) {
        Query::ConstantScore(self)
    }
}

impl IntoQuery for SpanTermQuery {
    open spec fn query_spec(&self) -> Query {
        Query::SpanTerm(*self)
    }

    fn into_query(self) -> (r: Query) {
        Query::SpanTerm(self)
    }
}

impl IntoQuery for SpanFieldMaskingQuery {
    open spec fn query_spec(&self) -> Query {
        Query::SpanFieldMasking(*self)
    }

    fn into_query(self) -> (r: Query) {
        Query::SpanFieldMasking(self)
    }
}

impl IntoSpanQuery for SpanTermQuery {
    open spec fn span_query_spec(&self) -> SpanQuery {
        SpanQuery::SpanTerm(*self)
    }

    fn into_span_query(self) -> (r: SpanQuery) {
        SpanQuery::SpanTerm(self)
    }
}

impl IntoSpanQuery for SpanFieldMaskingQuery {
    open spec fn span_query_spec(&self) -> SpanQuery {
        SpanQuery::SpanFieldMasking(*self)
    }

    fn into_span_query(self) -> (r: SpanQuery) {
        SpanQuery::SpanFieldMasking(self)
    }
}

/// Whether a query is omitted: a term query when its value is, a
/// constant-score query when its filter is, other kinds never.
pub open spec fn query_skipped(q: Query) -> bool
    decreases q,
{
    match q {
        Query::Term(t) => crate::term::term_skipped(t.value),
        Query::MatchAll(_) => false,
        Query::ConstantScore(c) => query_skipped(*c.filter),
        Query::SpanTerm(t) => crate::term::term_skipped(t.value),
        Query::SpanFieldMasking(_) => false,
    }
}

/// Whether a span query is omitted: a span term query when its value is.
pub open spec fn span_query_skipped(q: SpanQuery) -> bool {
    match q {
        SpanQuery::SpanTerm(t) => crate::term::term_skipped(t.value),
        SpanQuery::SpanFieldMasking(_) => false,
    }
}

/// A constant-score query is omitted exactly when the filter it wraps is:
/// omission is delegated to the sub-query, through any depth of nesting.
pub proof fn lemma_constant_score_skip_delegates(c: ConstantScoreQuery)
    ensures
        c.skip_spec() == (*c.filter).skip_spec(),
        Query::ConstantScore(c).skip_spec() == (*c.filter).skip_spec(),
{
}

impl Query {
    /// Creates a term query on `field` for `value`, with no boost and no name.
    pub fn term<F: IntoText, V: Into<Term>>(field: F, value: V) -> (r: TermQuery)
        ensures
            r.field@ == field.text_spec(),
            <V as IntoSpec<Term>>::obeys_into_spec() ==> r.value == value.into_spec(),
            r.boost is None,
            r.name is None,
    {
        TermQuery { field: field.into_text(), value: value.into(), boost: None, name: None }
    }

    /// Creates a span term query on `field` for `value`, with no boost and no
    /// name.
    pub fn span_term<F: IntoText, V: Into<Term>>(field: F, value: V) -> (r: SpanTermQuery)
        ensures
            r.field@ == field.text_spec(),
            <V as IntoSpec<Term>>::obeys_into_spec() ==> r.value == value.into_spec(),
            r.boost is None,
            r.name is None,
    {
        SpanTermQuery { field: field.into_text(), value: value.into(), boost: None, name: None }
    }

    /// Creates a match-all query, with no boost and no name.
    pub fn match_all() -> (r: MatchAllQuery)
        ensures
            r.boost is None,
            r.name is None,
    {
        MatchAllQuery { boost: None, name: None }
    }

    /// Creates a constant-score query around `filter`, with no boost and no
    /// name.
    pub fn constant_score<Q: IntoQuery>(filter: Q) -> (r: ConstantScoreQuery)
        ensures
            *r.filter == filter.query_spec(),
            r.boost is None,
            r.name is None,
    {
        ConstantScoreQuery { filter: Box::new(filter.into_query()), boost: None, name: None }
    }

    /// Creates a span field masking query that presents `query` as a query on
    /// `field`.
    pub fn span_field_masking<Q: IntoSpanQuery, F: IntoText>(query: Q, field: F) -> (r:
        SpanFieldMaskingQuery)
        ensures
            *r.query == query.span_query_spec(),
            r.field@ == field.text_spec(),
    {
        SpanFieldMaskingQuery { query: Box::new(query.into_span_query()), field: field.into_text() }
    }
}

impl Clone for Query {
    fn clone(&self) -> (r: Query)
        decreases self,
    {
        match self {
            Query::Term(q) => Query::Term(q.clone()),
            Query::MatchAll(q) => Query::MatchAll(q.clone()),
            Query::ConstantScore(q) => Query::ConstantScore(q.clone()),
            Query::SpanTerm(q) => Query::SpanTerm(q.clone()),
            Query::SpanFieldMasking(q) => Query::SpanFieldMasking(q.clone()),
        }
    }
}

impl Clone for ConstantScoreQuery {
    fn clone(&self) -> (r: ConstantScoreQuery)
        decreases self,
    {
        ConstantScoreQuery {
            filter: Box::new((*self.filter).clone()),
            boost: self.boost,
            name: self.name.clone(),
        }
    }
}

impl Clone for SpanQuery {
    fn clone(&self) -> (r: SpanQuery)
        decreases self,
    {
        match self {
            SpanQuery::SpanTerm(q) => SpanQuery::SpanTerm(q.clone()),
            SpanQuery::SpanFieldMasking(q) => SpanQuery::SpanFieldMasking(q.clone()),
        }
    }
}

impl Clone for SpanFieldMaskingQuery {
    fn clone(&self) -> (r: SpanFieldMaskingQuery)
        decreases self,
    {
        SpanFieldMaskingQuery { query: Box::new((*self.query).clone()), field: self.field.clone() }
    }
}

impl Default for MatchAllQuery {
    fn default() -> (r: MatchAllQuery)
        ensures
            r.boost is None,
            r.name is None,
    {
        MatchAllQuery { boost: None, name: None }
    }
}

impl ShouldSkip for Query {
    open spec fn skip_spec(&self) -> bool {
        query_skipped(*self)
    }

    fn should_skip(&self) -> (r: bool)
        decreases self,
    {
        match self {
            Query::Term(t) => t.should_skip(),
            Query::MatchAll(m) => m.should_skip(),
            Query::ConstantScore(c) => c.filter.should_skip(),
            Query::SpanTerm(t) => t.should_skip(),
            Query::SpanFieldMasking(m) => m.should_skip(),
        }
    }
}

impl ShouldSkip for SpanQuery {
    open spec fn skip_spec(&self) -> bool {
        span_query_skipped(*self)
    }

    fn should_skip(&self) -> (r: bool) {
        match self {
            SpanQuery::SpanTerm(t) => t.should_skip(),
            SpanQuery::SpanFieldMasking(m) => m.should_skip(),
        }
    }
}

impl ShouldSkip for TermQuery {
    open spec fn skip_spec(&self) -> bool {
        crate::term::term_skipped(self.value)
    }

    fn should_skip(&self) -> (r: bool) {
        self.value.should_skip()
    }
}

impl ShouldSkip for SpanTermQuery {
    open spec fn skip_spec(&self) -> bool {
        crate::term::term_skipped(self.value)
    }

    fn should_skip(&self) -> (r: bool) {
        self.value.should_skip()
    }
}

impl ShouldSkip for MatchAllQuery {
    open spec fn skip_spec(&self) -> bool {
        false
    }

    fn should_skip(&self) -> (r: bool) {
        false
    }
}

impl ShouldSkip for ConstantScoreQuery {
    open spec fn skip_spec(&self) -> bool {
        query_skipped(*self.filter)
    }

    fn should_skip(&self) -> (r: bool) {
        self.filter.should_skip()
    }
}

impl ShouldSkip for SpanFieldMaskingQuery {
    open spec fn skip_spec(&self) -> bool {
        false
    }

    fn should_skip(&self) -> (r: bool) {
        false
    }
}

impl TermQuery {
    /// Sets the relevance boost, keeping everything else.
    pub fn boost(self, boost: u32) -> (r: TermQuery)
        ensures
            r.boost == Some(boost),
            r.name == self.name,
            r.field == self.field,
            r.value == self.value,
    {
        TermQuery { boost: Some(boost), ..self }
    }

    /// Sets the query name, keeping everything else.
    pub fn name<N: IntoText>(self, name: N) -> (r: TermQuery)
        ensures
            r.name matches Some(n) && n@ == name.text_spec(),
            r.boost == self.boost,
            r.field == self.field,
            r.value == self.value,
    {
        TermQuery { name: Some(name.into_text()), ..self }
    }
}

impl SpanTermQuery {
    /// Sets the relevance boost, keeping everything else.
    pub fn boost(self, boost: u32) -> (r: SpanTermQuery)
        ensures
            r.boost == Some(boost),
            r.name == self.name,
            r.field == self.field,
            r.value == self.value,
    {
        SpanTermQuery { boost: Some(boost), ..self }
    }

    /// Sets the query name, keeping everything else.
    pub fn name<N: IntoText>(self, name: N) -> (r: SpanTermQuery)
        ensures
            r.name matches Some(n) && n@ == name.text_spec(),
            r.boost == self.boost,
            r.field == self.field,
            r.value == self.value,
    {
        SpanTermQuery { name: Some(name.into_text()), ..self }
    }
}

impl MatchAllQuery {
    /// Sets the relevance boost, keeping everything else.
    pub fn boost(self, boost: u32) -> (r: MatchAllQuery)
        ensures
            r.boost == Some(boost),
            r.name == self.name,
    {
        MatchAllQuery { boost: Some(boost), ..self }
    }

    /// Sets the query name, keeping everything else.
    pub fn name<N: IntoText>(self, name: N) -> (r: MatchAllQuery)
        ensures
            r.name matches Some(n) && n@ == name.text_spec(),
            r.boost == self.boost,
    {
        MatchAllQuery { name: Some(name.into_text()), ..self }
    }
}

impl ConstantScoreQuery {
    /// Sets the relevance boost, keeping everything else.
    pub fn boost(self, boost: u32) -> (r: ConstantScoreQuery)
        ensures
            r.boost == Some(boost),
            r.name == self.name,
            r.filter == self.filter,
    {
        ConstantScoreQuery { boost: Some(boost), ..self }
    }

    /// Sets the query name, keeping everything else.
    pub fn name<N: IntoText>(self, name: N) -> (r: ConstantScoreQuery)
        ensures
            r.name matches Some(n) && n@ == name.text_spec(),
            r.boost == self.boost,
            r.filter == self.filter,
    {
        ConstantScoreQuery { name: Some(name.into_text()), ..self }
    }
}

impl From<TermQuery> for Query {
    fn from(q: TermQuery) -> (r: Query) {
        Query::Term(q)
    }
}

impl vstd::std_specs::convert::FromSpecImpl<TermQuery> for Query {
    open spec fn obeys_from_spec() -> bool {
        true
    }

    open spec fn from_spec(q: TermQuery) -> Query {
        Query::Term(q)
    }
}

impl From<MatchAllQuery> for Query {
    fn from(q: MatchAllQuery) -> (r: Query) {
        Query::MatchAll(q)
    }
}

impl vstd::std_specs::convert::FromSpecImpl<MatchAllQuery> for Query {
    open spec fn obeys_from_spec() -> bool {
        true
    }

    open spec fn from_spec(q: MatchAllQuery) -> Query {
        Query::MatchAll(q)
    }
}

impl From<ConstantScoreQuery> for Query {
    fn from(q: ConstantScoreQuery) -> (r: Query) {
        Query::ConstantScore(q)
    }
}

impl vstd::std_specs::convert::FromSpecImpl<ConstantScoreQuery> for Query {
    open spec fn obeys_from_spec() -> bool {
        true
    }

    open spec fn from_spec(q: ConstantScoreQuery) -> Query {
        Query::ConstantScore(q)
    }
}

impl From<SpanTermQuery> for Query {
    fn from(q: SpanTermQuery) -> (r: Query) {
        Query::SpanTerm(q)
    }
}

impl vstd::std_specs::convert::FromSpecImpl<SpanTermQuery> for Query {
    open spec fn obeys_from_spec() -> bool {
        true
    }

    open spec fn from_spec(q: SpanTermQuery) -> Query {
        Query::SpanTerm(q)
    }
}

impl From<SpanFieldMaskingQuery> for Query {
    fn from(q: SpanFieldMaskingQuery) -> (r: Query) {
        Query::SpanFieldMasking(q)
    }
}

impl vstd::std_specs::convert::FromSpecImpl<SpanFieldMaskingQuery> for Query {
    open spec fn obeys_from_spec() -> bool {
        true
    }

    open spec fn from_spec(q: SpanFieldMaskingQuery) -> Query {
        Query::SpanFieldMasking(q)
    }
}

impl From<SpanTermQuery> for SpanQuery {
    fn from(q: SpanTermQuery) -> (r: SpanQuery) {
        SpanQuery::SpanTerm(q)
    }
}

impl vstd::std_specs::convert::FromSpecImpl<SpanTermQuery> for SpanQuery {
    open spec fn obeys_from_spec() -> bool {
        true
    }

    open spec fn from_spec(q: SpanTermQuery) -> SpanQuery {
        SpanQuery::SpanTerm(q)
    }
}

impl From<SpanFieldMaskingQuery> for SpanQuery {
    fn from(q: SpanFieldMaskingQuery) -> (r: SpanQuery) {
        SpanQuery::SpanFieldMasking(q)
    }
}

impl vstd::std_specs::convert::FromSpecImpl<SpanFieldMaskingQuery> for SpanQuery {
    open spec fn obeys_from_spec() -> bool {
        true
    }

    open spec fn from_spec(q: SpanFieldMaskingQuery) -> SpanQuery {
        SpanQuery::SpanFieldMasking(q)
    }
}

} // verus!
