//! The JSON document of each query: one object keyed by the query kind,
//! holding its fields, with omitted attributes left out.

use crate::json::{
    joined,
    lemma_plain_string, plain,
    bool_text, decimal, json_string_of, member, null_text, object, push_bool, push_null,
    push_signed, push_string, push_unsigned, signed_decimal, write_object,
};
use crate::queries::{
    ConstantScoreQuery, MatchAllQuery, Query, SpanFieldMaskingQuery, SpanQuery, SpanTermQuery,
    TermQuery,
};
use crate::term::{rfc3339_of, Inner, Term};
use vstd::prelude::*;

verus! {

/// The texts that a sequence of strings holds.
pub open spec fn texts(v: Seq<String>) -> Seq<Seq<char>> {
    v.map_values(|s: String| s@)
}

/// The key `value`.
pub open spec fn key_value() -> Seq<char> {
    seq!['v', 'a', 'l', 'u', 'e']
}

fn value_key() -> (r: &'static str)
    ensures
        r@ == key_value(),
{
    proof {
        reveal_strlit("value");
    }
    let r = "value";
    assert(r@ =~= key_value());
    r
}

/// The key `boost`.
pub open spec fn key_boost() -> Seq<char> {
    seq!['b', 'o', 'o', 's', 't']
}

fn boost_key() -> (r: &'static str)
    ensures
        r@ == key_boost(),
{
    proof {
        reveal_strlit("boost");
    }
    let r = "boost";
    assert(r@ =~= key_boost());
    r
}

/// The key `_name`.
pub open spec fn key_name() -> Seq<char> {
    seq!['_', 'n', 'a', 'm', 'e']
}

fn name_key() -> (r: &'static str)
    ensures
        r@ == key_name(),
{
    proof {
        reveal_strlit("_name");
    }
    let r = "_name";
    assert(r@ =~= key_name());
    r
}

/// The key `term`.
pub open spec fn key_term() -> Seq<char> {
    seq!['t', 'e', 'r', 'm']
}

fn term_key() -> (r: &'static str)
    ensures
        r@ == key_term(),
{
    proof {
        reveal_strlit("term");
    }
    let r = "term";
    assert(r@ =~= key_term());
    r
}

/// The key `span_term`.
pub open spec fn key_span_term() -> Seq<char> {
    seq!['s', 'p', 'a', 'n', '_', 't', 'e', 'r', 'm']
}

fn span_term_key() -> (r: &'static str)
    ensures
        r@ == key_span_term(),
{
    proof {
        reveal_strlit("span_term");
    }
    let r = "span_term";
    assert(r@ =~= key_span_term());
    r
}

/// The key `match_all`.
pub open spec fn key_match_all() -> Seq<char> {
    seq!['m', 'a', 't', 'c', 'h', '_', 'a', 'l', 'l']
}

fn match_all_key() -> (r: &'static str)
    ensures
        r@ == key_match_all(),
{
    proof {
        reveal_strlit("match_all");
    }
    let r = "match_all";
    assert(r@ =~= key_match_all());
    r
}

/// The key `constant_score`.
pub open spec fn key_constant_score() -> Seq<char> {
    seq!['c', 'o', 'n', 's', 't', 'a', 'n', 't', '_', 's', 'c', 'o', 'r', 'e']
}

fn constant_score_key() -> (r: &'static str)
    ensures
        r@ == key_constant_score(),
{
    proof {
        reveal_strlit("constant_score");
    }
    let r = "constant_score";
    assert(r@ =~= key_constant_score());
    r
}

/// The key `filter`.
pub open spec fn key_filter() -> Seq<char> {
    seq!['f', 'i', 'l', 't', 'e', 'r']
}

fn filter_key() -> (r: &'static str)
    ensures
        r@ == key_filter(),
{
    proof {
        reveal_strlit("filter");
    }
    let r = "filter";
    assert(r@ =~= key_filter());
    r
}

/// The key `span_field_masking`.
pub open spec fn key_span_field_masking() -> Seq<char> {
    seq!['s', 'p', 'a', 'n', '_', 'f', 'i', 'e', 'l', 'd', '_', 'm', 'a', 's', 'k', 'i', 'n', 'g']
}

fn span_field_masking_key() -> (r: &'static str)
    ensures
        r@ == key_span_field_masking(),
{
    proof {
        reveal_strlit("span_field_masking");
    }
    let r = "span_field_masking";
    assert(r@ =~= key_span_field_masking());
    r
}

/// The key `query`.
pub open spec fn key_query() -> Seq<char> {
    seq!['q', 'u', 'e', 'r', 'y']
}

fn query_key() -> (r: &'static str)
    ensures
        r@ == key_query(),
{
    proof {
        reveal_strlit("query");
    }
    let r = "query";
    assert(r@ =~= key_query());
    r
}

/// The key `field`.
pub open spec fn key_field() -> Seq<char> {
    seq!['f', 'i', 'e', 'l', 'd']
}

fn field_key() -> (r: &'static str)
    ensures
        r@ == key_field(),
{
    proof {
        reveal_strlit("field");
    }
    let r = "field";
    assert(r@ =~= key_field());
    r
}

/// The JSON text of a term's value: `null` when absent, the literal, the
/// number, or the quoted text (of a string or of an instant).
pub open spec fn term_value_json(t: Term) -> Seq<char> {
    match t.0 {
        None => null_text(),
        Some(Inner::Bool(b)) => bool_text(b),
        Some(Inner::String(s)) => json_string_of(s@),
        Some(Inner::SignedInteger(i)) => signed_decimal(i as int),
        Some(Inner::UnsignedInteger(u)) => decimal(u as nat),
        Some(Inner::DateTime(d)) => json_string_of(rfc3339_of(d.secs_spec(), d.nanos_spec())),
    }
}

/// The boost and name members, each only when set.
pub open spec fn attrs(boost: Option<u32>, name: Option<String>) -> Seq<Seq<char>> {
    let b = match boost {
        Some(b) => seq![member(key_boost(), decimal(b as nat))],
        None => Seq::empty(),
    };
    let n = match name {
        Some(n) => seq![member(key_name(), json_string_of(n@))],
        None => Seq::empty(),
    };
    b + n
}

/// An object with the single member `kind`, whose value is `body`.
pub open spec fn keyed(kind: Seq<char>, body: Seq<char>) -> Seq<char> {
    object(seq![member(kind, body)])
}

/// A term-level query: `{kind: {field: {"value": v, boost?, _name?}}}`.
pub open spec fn leaf_json(
    kind: Seq<char>,
    field: Seq<char>,
    value: Term,
    boost: Option<u32>,
    name: Option<String>,
) -> Seq<char> {
    keyed(
        kind,
        keyed(field, object(seq![member(key_value(), term_value_json(value))] + attrs(boost, name))),
    )
}

/// `{"term": {field: {"value": v, boost?, _name?}}}`
pub open spec fn term_query_json(q: TermQuery) -> Seq<char> {
    leaf_json(key_term(), q.field@, q.value, q.boost, q.name)
}

/// `{"span_term": {field: {"value": v, boost?, _name?}}}`
pub open spec fn span_term_query_json(q: SpanTermQuery) -> Seq<char> {
    leaf_json(key_span_term(), q.field@, q.value, q.boost, q.name)
}

/// `{"match_all": {boost?, _name?}}`
pub open spec fn match_all_query_json(q: MatchAllQuery) -> Seq<char> {
    keyed(key_match_all(), object(attrs(q.boost, q.name)))
}

/// `{"span_field_masking": {"query": q, "field": f}}`, and any span query.
pub open spec fn span_query_json(q: SpanQuery) -> Seq<char>
    decreases q,
{
    match q {
        SpanQuery::SpanTerm(t) => span_term_query_json(t),
        SpanQuery::SpanFieldMasking(m) => keyed(
            key_span_field_masking(),
            object(
                seq![
                    member(key_query(), span_query_json(*m.query)),
                    member(key_field(), json_string_of(m.field@)),
                ],
            ),
        ),
    }
}

/// The document of a span field masking query.
pub open spec fn span_field_masking_query_json(q: SpanFieldMaskingQuery) -> Seq<char> {
    span_query_json(SpanQuery::SpanFieldMasking(q))
}

/// The document of any query; a constant-score query is
/// `{"constant_score": {"filter": f, boost?, _name?}}`.
pub open spec fn query_json(q: Query) -> Seq<char>
    decreases q,
{
    match q {
        Query::Term(t) => term_query_json(t),
        Query::MatchAll(m) => match_all_query_json(m),
        Query::ConstantScore(c) => keyed(
            key_constant_score(),
            object(seq![member(key_filter(), query_json(*c.filter))] + attrs(c.boost, c.name)),
        ),
        Query::SpanTerm(t) => span_term_query_json(t),
        Query::SpanFieldMasking(m) => span_field_masking_query_json(m),
    }
}

/// The document of a constant-score query.
pub open spec fn constant_score_query_json(q: ConstantScoreQuery) -> Seq<char> {
    query_json(Query::ConstantScore(q))
}

/// Serialization depends on the tree alone: two documents written for equal
/// trees (the same tree written twice included) are the same text.
pub proof fn lemma_serialization_deterministic(a: Query, b: Query, r1: Seq<char>, r2: Seq<char>)
    requires
        a == b,
        r1 == query_json(a),
        r2 == query_json(b),
    ensures
        r1 == r2,
{
}

proof fn lemma_keyed(kind: Seq<char>, body: Seq<char>)
    requires
        plain(kind),
    ensures
        keyed(kind, body) == seq!['{', '"'] + kind + seq!['"', ':'] + body + seq!['}'],
{
    lemma_plain_string(kind);
    assert(keyed(kind, body) =~= seq!['{', '"'] + kind + seq!['"', ':'] + body + seq!['}']);
}

proof fn lemma_member(key: Seq<char>, value: Seq<char>)
    requires
        plain(key),
    ensures
        member(key, value) == seq!['"'] + key + seq!['"', ':'] + value,
{
    lemma_plain_string(key);
    assert(member(key, value) =~= seq!['"'] + key + seq!['"', ':'] + value);
}

/// A match-all query with neither boost nor name is written
/// `{"match_all":{}}`.
pub proof fn lemma_bare_match_all(q: MatchAllQuery)
    requires
        q.boost is None,
        q.name is None,
    ensures
        match_all_query_json(q) == seq!['{', '"'] + key_match_all() + seq!['"', ':', '{', '}', '}'],
{
    assert(attrs(q.boost, q.name) =~= Seq::<Seq<char>>::empty());
    assert(object(Seq::<Seq<char>>::empty()) =~= seq!['{', '}']);
    lemma_keyed(key_match_all(), seq!['{', '}']);
}

/// A match-all query with boost 2 and name `test` is written
/// `{"match_all":{"boost":2,"_name":"test"}}`.
pub proof fn lemma_match_all_with_attributes(q: MatchAllQuery)
    requires
        q.boost == Some(2u32),
        q.name matches Some(n) && n@ == seq!['t', 'e', 's', 't'],
    ensures
        match_all_query_json(q) == seq!['{', '"'] + key_match_all() + seq!['"', ':', '{', '"']
            + key_boost() + seq!['"', ':', '2', ',', '"'] + key_name() + seq![
            '"',
            ':',
            '"',
            't',
            'e',
            's',
            't',
            '"',
            '}',
            '}',
        ],
{
    let test = seq!['t', 'e', 's', 't'];
    lemma_member(key_boost(), decimal(2));
    lemma_member(key_name(), json_string_of(test));
    lemma_plain_string(test);
    let ms = attrs(q.boost, q.name);
    assert(ms =~= seq![member(key_boost(), decimal(2)), member(key_name(), json_string_of(test))]);
    assert(ms.drop_last() =~= seq![member(key_boost(), decimal(2))]);
    let body = object(ms);
    assert(decimal(2) =~= seq!['2']);
    assert(joined(ms.drop_last()) == member(key_boost(), decimal(2)));
    assert(joined(ms) == joined(ms.drop_last()) + seq![','] + ms.last());
    assert(body =~= seq!['{', '"'] + key_boost() + seq!['"', ':', '2', ',', '"'] + key_name() + seq![
        '"',
        ':',
        '"',
        't',
        'e',
        's',
        't',
        '"',
        '}',
    ]);
    lemma_keyed(key_match_all(), body);
}

proof fn lemma_single_object(m: Seq<char>)
    ensures
        object(seq![m]) == seq!['{'] + m + seq!['}'],
{
    assert(object(seq![m]) =~= seq!['{'] + m + seq!['}']);
}

proof fn lemma_leaf_value_only(kind: Seq<char>, field: Seq<char>, value: Term, digits: Seq<char>)
    requires
        plain(kind),
        plain(field),
        term_value_json(value) == digits,
    ensures
        leaf_json(kind, field, value, None, None) == seq!['{', '"'] + kind + seq!['"', ':', '{', '"']
            + field + seq!['"', ':', '{', '"'] + key_value() + seq!['"', ':'] + digits + seq![
            '}',
            '}',
            '}',
        ],
{
    let m = member(key_value(), digits);
    assert(seq![m] + attrs(None, None) =~= seq![m]);
    lemma_single_object(m);
    lemma_member(key_value(), digits);
    let inner = object(seq![m]);
    lemma_keyed(field, inner);
    lemma_keyed(kind, keyed(field, inner));
    assert(leaf_json(kind, field, value, None, None) =~= seq!['{', '"'] + kind + seq![
        '"',
        ':',
        '{',
        '"',
    ] + field + seq!['"', ':', '{', '"'] + key_value() + seq!['"', ':'] + digits + seq![
        '}',
        '}',
        '}',
    ]);
}

proof fn lemma_decimal_digits()
    ensures
        decimal(123) == seq!['1', '2', '3'],
        decimal(1234) == seq!['1', '2', '3', '4'],
{
    assert(decimal(1) =~= seq!['1']);
    assert(decimal(12) =~= seq!['1', '2']);
    assert(decimal(123) =~= seq!['1', '2', '3']);
    assert(decimal(1234) =~= seq!['1', '2', '3', '4']);
}

/// A constant-score query, without boost or name, around a term query on
/// `field` for 123 (without boost or name) is written
/// `{"constant_score":{"filter":{"term":{"field":{"value":123}}}}}`.
#[verifier::rlimit(100)]
pub proof fn lemma_constant_score_of_term(c: ConstantScoreQuery, t: TermQuery)
    requires
        *c.filter == Query::Term(t),
        c.boost is None,
        c.name is None,
        t.field@ == key_field(),
        t.value == Term(Some(Inner::SignedInteger(123))),
        t.boost is None,
        t.name is None,
    ensures
        constant_score_query_json(c) == seq!['{', '"'] + key_constant_score() + seq![
            '"',
            ':',
            '{',
            '"',
        ] + key_filter() + seq!['"', ':', '{', '"'] + key_term() + seq!['"', ':', '{', '"']
            + key_field() + seq!['"', ':', '{', '"'] + key_value() + seq![
            '"',
            ':',
            '1',
            '2',
            '3',
            '}',
            '}',
            '}',
            '}',
            '}',
        ],
{
    let digits = seq!['1', '2', '3'];
    lemma_decimal_digits();
    lemma_leaf_value_only(key_term(), key_field(), t.value, digits);
    let f = query_json(*c.filter);
    let m = member(key_filter(), f);
    assert(seq![m] + attrs(c.boost, c.name) =~= seq![m]);
    lemma_single_object(m);
    lemma_member(key_filter(), f);
    lemma_keyed(key_constant_score(), object(seq![m]));
    assert(constant_score_query_json(c) =~= seq!['{', '"'] + key_constant_score() + seq![
        '"',
        ':',
        '{',
        '"',
    ] + key_filter() + seq!['"', ':', '{', '"'] + key_term() + seq!['"', ':', '{', '"']
        + key_field() + seq!['"', ':', '{', '"'] + key_value() + seq![
        '"',
        ':',
        '1',
        '2',
        '3',
        '}',
        '}',
        '}',
        '}',
        '}',
    ]);
}

/// A span field masking query on `field` around a span term query on `field`
/// for 1234 (without boost or name) is written
/// `{"span_field_masking":{"query":{"span_term":{"field":{"value":1234}}},"field":"field"}}`.
#[verifier::rlimit(100)]
pub proof fn lemma_span_field_masking_of_span_term(m: SpanFieldMaskingQuery, t: SpanTermQuery)
    requires
        *m.query == SpanQuery::SpanTerm(t),
        m.field@ == key_field(),
        t.field@ == key_field(),
        t.value == Term(Some(Inner::UnsignedInteger(1234))),
        t.boost is None,
        t.name is None,
    ensures
        span_field_masking_query_json(m) == seq!['{', '"'] + key_span_field_masking() + seq![
            '"',
            ':',
            '{',
            '"',
        ] + key_query() + seq!['"', ':', '{', '"'] + key_span_term() + seq!['"', ':', '{', '"']
            + key_field() + seq!['"', ':', '{', '"'] + key_value() + seq![
            '"',
            ':',
            '1',
            '2',
            '3',
            '4',
            '}',
            '}',
            '}',
            ',',
            '"',
        ] + key_field() + seq!['"', ':', '"'] + key_field() + seq!['"', '}', '}'],
{
    let digits = seq!['1', '2', '3', '4'];
    lemma_decimal_digits();
    lemma_leaf_value_only(key_span_term(), key_field(), t.value, digits);
    let q = span_query_json(*m.query);
    let fv = json_string_of(m.field@);
    lemma_plain_string(key_field());
    let ms = seq![member(key_query(), q), member(key_field(), fv)];
    lemma_member(key_query(), q);
    lemma_member(key_field(), fv);
    assert(ms.drop_last() =~= seq![member(key_query(), q)]);
    assert(joined(ms) == joined(ms.drop_last()) + seq![','] + ms.last());
    lemma_keyed(key_span_field_masking(), object(ms));
    assert(span_field_masking_query_json(m) =~= seq!['{', '"'] + key_span_field_masking() + seq![
        '"',
        ':',
        '{',
        '"',
    ] + key_query() + seq!['"', ':', '{', '"'] + key_span_term() + seq!['"', ':', '{', '"']
        + key_field() + seq!['"', ':', '{', '"'] + key_value() + seq![
        '"',
        ':',
        '1',
        '2',
        '3',
        '4',
        '}',
        '}',
        '}',
        ',',
        '"',
    ] + key_field() + seq!['"', ':', '"'] + key_field() + seq!['"', '}', '}']);
}

/// A constant-score query without boost or name holds only its filter.
pub proof fn lemma_bare_constant_score(c: ConstantScoreQuery)
    requires
        c.boost is None,
        c.name is None,
    ensures
        constant_score_query_json(c) == keyed(
            key_constant_score(),
            object(seq![member(key_filter(), query_json(*c.filter))]),
        ),
{
    assert(seq![member(key_filter(), query_json(*c.filter))] + attrs(c.boost, c.name)
        =~= seq![member(key_filter(), query_json(*c.filter))]);
}

fn member_text(key: &str, value: &String) -> (r: String)
    ensures
        r@ == member(key@, value@),
{
    let mut out = String::new();
    push_string(&mut out, key);
    out.append(":");
    proof {
        reveal_strlit(":");
    }
    out.append(value.as_str());
    assert(out@ =~= member(key@, value@));
    out
}

fn keyed_text(kind: &str, body: &String) -> (r: String)
    ensures
        r@ == keyed(kind@, body@),
{
    let mut ms: Vec<String> = Vec::new();
    ms.push(member_text(kind, body));
    assert(texts(ms@) =~= seq![member(kind@, body@)]);
    write_object(&ms)
}

fn push_attrs(ms: &mut Vec<String>, boost: &Option<u32>, name: &Option<String>)
    ensures
        texts(final(ms)@) == texts(old(ms)@) + attrs(*boost, *name),
{
    let ghost start = texts(ms@);
    match boost {
        Some(b) => {
            let mut v = String::new();
            push_unsigned(&mut v, *b as u64);
            assert(v@ =~= decimal(*b as nat));
            ms.push(member_text(boost_key(), &v));
        },
        None => {},
    }
    let ghost mid = texts(ms@);
    assert(mid =~= start + match *boost {
        Some(b) => seq![member(key_boost(), decimal(b as nat))],
        None => Seq::<Seq<char>>::empty(),
    });
    match name {
        Some(n) => {
            let mut v = String::new();
            push_string(&mut v, n.as_str());
            assert(v@ =~= json_string_of(n@));
            ms.push(member_text(name_key(), &v));
        },
        None => {},
    }
    assert(texts(ms@) =~= start + attrs(*boost, *name));
}

/// The JSON text of a term's value.
pub fn term_value_text(t: &Term) -> (r: String)
    ensures
        r@ == term_value_json(*t),
{
    let mut out = String::new();
    match &t.0 {
        None => push_null(&mut out),
        Some(Inner::Bool(b)) => push_bool(&mut out, *b),
        Some(Inner::String(s)) => push_string(&mut out, s.as_str()),
        Some(Inner::SignedInteger(i)) => push_signed(&mut out, *i),
        Some(Inner::UnsignedInteger(u)) => push_unsigned(&mut out, *u),
        Some(Inner::DateTime(d)) => push_string(&mut out, d.text().as_str()),
    }
    assert(out@ =~= term_value_json(*t));
    out
}

fn leaf_text(kind: &str, field: &str, value: &Term, boost: &Option<u32>, name: &Option<String>) -> (r:
    String)
    ensures
        r@ == leaf_json(kind@, field@, *value, *boost, *name),
{
    let mut ms: Vec<String> = Vec::new();
    let v = term_value_text(value);
    ms.push(member_text(value_key(), &v));
    assert(texts(ms@) =~= seq![member(key_value(), term_value_json(*value))]);
    push_attrs(&mut ms, boost, name);
    let body = write_object(&ms);
    let inner = keyed_text(field, &body);
    keyed_text(kind, &inner)
}

impl TermQuery {
    /// The query's JSON document.
    pub fn to_json(&self) -> (r: String)
        ensures
            r@ == term_query_json(*self),
    {
        leaf_text(term_key(), self.field.as_str(), &self.value, &self.boost, &self.name)
    }
}

impl SpanTermQuery {
    /// The query's JSON document.
    pub fn to_json(&self) -> (r: String)
        ensures
            r@ == span_term_query_json(*self),
    {
        leaf_text(span_term_key(), self.field.as_str(), &self.value, &self.boost, &self.name)
    }
}

impl MatchAllQuery {
    /// The query's JSON document.
    pub fn to_json(&self) -> (r: String)
        ensures
            r@ == match_all_query_json(*self),
    {
        let mut ms: Vec<String> = Vec::new();
        assert(texts(ms@) =~= Seq::empty());
        push_attrs(&mut ms, &self.boost, &self.name);
        assert(texts(ms@) =~= attrs(self.boost, self.name));
        let body = write_object(&ms);
        keyed_text(match_all_key(), &body)
    }
}

impl SpanFieldMaskingQuery {
    /// The query's JSON document.
    pub fn to_json(&self) -> (r: String)
        ensures
            r@ == span_field_masking_query_json(*self),
        decreases self,
    {
        let q = self.query.to_json();
        let mut f = String::new();
        push_string(&mut f, self.field.as_str());
        assert(f@ =~= json_string_of(self.field@));
        let mut ms: Vec<String> = Vec::new();
        ms.push(member_text(query_key(), &q));
        ms.push(member_text(field_key(), &f));
        assert(texts(ms@) =~= seq![
            member(key_query(), span_query_json(*self.query)),
            member(key_field(), json_string_of(self.field@)),
        ]);
        let body = write_object(&ms);
        keyed_text(span_field_masking_key(), &body)
    }
}

impl SpanQuery {
    /// The query's JSON document.
    pub fn to_json(&self) -> (r: String)
        ensures
            r@ == span_query_json(*self),
        decreases self,
    {
        match self {
            SpanQuery::SpanTerm(t) => t.to_json(),
            SpanQuery::SpanFieldMasking(m) => m.to_json(),
        }
    }
}

impl ConstantScoreQuery {
    /// The query's JSON document.
    pub fn to_json(&self) -> (r: String)
        ensures
            r@ == constant_score_query_json(*self),
        decreases self,
    {
        let f = self.filter.to_json();
        let mut ms: Vec<String> = Vec::new();
        ms.push(member_text(filter_key(), &f));
        assert(texts(ms@) =~= seq![member(key_filter(), query_json(*self.filter))]);
        push_attrs(&mut ms, &self.boost, &self.name);
        let body = write_object(&ms);
        keyed_text(constant_score_key(), &body)
    }
}

impl Query {
    /// The query's JSON document.
    pub fn to_json(&self) -> (r: String)
        ensures
            r@ == query_json(*self),
        decreases self,
    {
        match self {
            Query::Term(t) => t.to_json(),
            Query::MatchAll(m) => m.to_json(),
            Query::ConstantScore(c) => c.to_json(),
            Query::SpanTerm(t) => t.to_json(),
            Query::SpanFieldMasking(m) => m.to_json(),
        }
    }
}

} // verus!
