//! The normalized scalar held by leaf query clauses.

use crate::skip::ShouldSkip;
use chrono::{DateTime, Utc};
use std::cmp::Ordering;
use vstd::prelude::*;
use vstd::std_specs::cmp::PartialEqSpec;
use vstd::std_specs::convert::{FromSpec, TryFromSpec};

verus! {

/// The RFC 3339 text (automatic sub-second digits, `Z` suffix) that chrono
/// writes for the UTC instant `secs` seconds and `nanos` nanoseconds past the
/// Unix epoch.
pub uninterp spec fn rfc3339_of(secs: int, nanos: int) -> Seq<char>;

/// Relies on chrono's `DateTime::<Utc>::from_timestamp`, which is `None` for an
/// invalid nanosecond part or an out-of-range instant and `Some` for a
/// nanosecond part below one second within its date range (about 262,000
/// years either side of the epoch), and on
/// `DateTime::to_rfc3339_opts(SecondsFormat::AutoSi, true)`, the text chrono's
/// serde support writes.
#[verifier::external_body]
fn utc_text(secs: i64, nanos: u32) -> (r: Option<String>)
    ensures
        r matches Some(t) ==> t@ == rfc3339_of(secs as int, nanos as int),
        r is Some ==> nanos < 2_000_000_000,
        r is Some ==> nanos < 1_000_000_000 || secs % 60 == 59,
        nanos < 1_000_000_000 && -MAX_EPOCH_SECONDS <= secs <= MAX_EPOCH_SECONDS ==> r is Some,
{
    DateTime::<Utc>::from_timestamp(secs, nanos).map(
        |d| d.to_rfc3339_opts(chrono::SecondsFormat::AutoSi, true),
    )
}

/// Seconds either side of the Unix epoch within which every instant has a
/// timestamp (a little over 253,000 years).
pub const MAX_EPOCH_SECONDS: i64 = 8_000_000_000_000;

/// A UTC instant: seconds since the Unix epoch, nanoseconds past that second
/// (past one second only within a leap second), and its RFC 3339 text.
#[derive(Debug)]
pub struct Timestamp {
    secs: i64,
    nanos: u32,
    text: String,
}

impl Timestamp {
    /// Seconds since the Unix epoch.
    pub closed spec fn secs_spec(&self) -> int {
        self.secs as int
    }

    /// Nanoseconds past the second.
    pub closed spec fn nanos_spec(&self) -> int {
        self.nanos as int
    }

    /// Nanoseconds stay below two seconds (a leap second reaches past one),
    /// and the text is chrono's for this instant.
    #[verifier::type_invariant]
    spec fn wf(&self) -> bool {
        &&& self.nanos < 2_000_000_000
        &&& self.text@ == rfc3339_of(self.secs as int, self.nanos as int)
    }

    /// The instant `secs` seconds and `nanos` nanoseconds past the Unix epoch,
    /// or `None` where chrono has no such instant; always `Some` for a
    /// nanosecond part below one second within `MAX_EPOCH_SECONDS` of the
    /// epoch.
    pub fn new(secs: i64, nanos: u32) -> (r: Option<Timestamp>)
        ensures
            r matches Some(t) ==> t.secs_spec() == secs && t.nanos_spec() == nanos,
            nanos >= 2_000_000_000 ==> r is None,
            nanos < 1_000_000_000 && -MAX_EPOCH_SECONDS <= secs <= MAX_EPOCH_SECONDS ==> r is Some,
    {
        match utc_text(secs, nanos) {
            Some(text) => Some(Timestamp { secs, nanos, text }),
            None => None,
        }
    }

    /// Seconds since the Unix epoch.
    pub fn secs(&self) -> (r: i64)
        ensures
            r == self.secs_spec(),
    {
        self.secs
    }

    /// Nanoseconds past the second.
    pub fn nanos(&self) -> (r: u32)
        ensures
            r == self.nanos_spec(),
    {
        self.nanos
    }

    /// The RFC 3339 text of the instant.
    pub fn text(&self) -> (r: &String)
        ensures
            r@ == rfc3339_of(self.secs_spec(), self.nanos_spec()),
    {
        proof {
            use_type_invariant(self);
        }
        &self.text
    }
}

impl Clone for Timestamp {
    fn clone(&self) -> (r: Timestamp) {
        proof {
            use_type_invariant(self);
        }
        Timestamp { secs: self.secs, nanos: self.nanos, text: self.text.clone() }
    }
}

/// One scalar of a given kind.
#[derive(Debug, Clone)]
pub enum Inner {
    /// Boolean value
    Bool(bool),
    /// String value
    String(String),
    /// Signed integer value
    SignedInteger(i64),
    /// Unsigned integer value
    UnsignedInteger(u64),
    /// Date and time
    DateTime(Timestamp),
}

/// The integer a scalar of an integer kind holds, whichever its kind.
pub open spec fn integer_of(v: Inner) -> Option<int> {
    match v {
        Inner::SignedInteger(i) => Some(i as int),
        Inner::UnsignedInteger(u) => Some(u as int),
        _ => None,
    }
}

/// Rank of a scalar's kind; both integer kinds share one rank.
pub open spec fn kind_rank(v: Inner) -> int {
    match v {
        Inner::Bool(_) => 0,
        Inner::String(_) => 1,
        Inner::SignedInteger(_) => 2,
        Inner::UnsignedInteger(_) => 2,
        Inner::DateTime(_) => 3,
    }
}

/// Value equality: same kind and equal contents, or two integers of either
/// kind that are the same number. Kinds of different rank are never equal.
pub open spec fn inner_eq(a: Inner, b: Inner) -> bool {
    match (a, b) {
        (Inner::Bool(x), Inner::Bool(y)) => x == y,
        (Inner::String(x), Inner::String(y)) => x@ == y@,
        (Inner::DateTime(x), Inner::DateTime(y)) => x.secs_spec() == y.secs_spec() && x.nanos_spec()
            == y.nanos_spec(),
        _ => integer_of(a).is_some() && integer_of(a) == integer_of(b),
    }
}

/// The natural order of two integers.
pub open spec fn int_order(a: int, b: int) -> Ordering {
    if a < b {
        Ordering::Less
    } else if a == b {
        Ordering::Equal
    } else {
        Ordering::Greater
    }
}

/// Lexicographic order of two character sequences, by code point.
pub open spec fn text_order(a: Seq<char>, b: Seq<char>) -> Ordering
    decreases a.len(),
{
    if a.len() == 0 || b.len() == 0 {
        int_order(a.len() as int, b.len() as int)
    } else if a[0] != b[0] {
        int_order(a[0] as int, b[0] as int)
    } else {
        text_order(a.drop_first(), b.drop_first())
    }
}

/// Order of scalars: first by kind rank, then within a rank by content
/// (`false < true`; text lexicographically; integers as numbers, across both
/// integer kinds; instants chronologically).
pub open spec fn inner_order(a: Inner, b: Inner) -> Ordering {
    if kind_rank(a) != kind_rank(b) {
        int_order(kind_rank(a), kind_rank(b))
    } else {
        match (a, b) {
            (Inner::Bool(x), Inner::Bool(y)) => int_order(if x { 1 } else { 0 }, if y { 1 } else { 0 }),
            (Inner::String(x), Inner::String(y)) => text_order(x@, y@),
            (Inner::DateTime(x), Inner::DateTime(y)) => if x.secs_spec() != y.secs_spec() {
                int_order(x.secs_spec(), y.secs_spec())
            } else {
                int_order(x.nanos_spec(), y.nanos_spec())
            },
            _ => int_order(integer_of(a).unwrap(), integer_of(b).unwrap()),
        }
    }
}

/// Relies on `str`'s `Ord`: lexicographic comparison of the UTF-8 bytes, which
/// orders as the code points do.
#[verifier::external_body]
fn compare_text(a: &str, b: &str) -> (r: Ordering)
    ensures
        r == text_order(a@, b@),
{
    a.cmp(b)
}

fn compare_ints(a: i128, b: i128) -> (r: Ordering)
    ensures
        r == int_order(a as int, b as int),
{
    if a < b {
        Ordering::Less
    } else if a == b {
        Ordering::Equal
    } else {
        Ordering::Greater
    }
}

fn integer_value(v: &Inner) -> (r: Option<i128>)
    ensures
        r matches Some(x) ==> integer_of(*v) == Some(x as int),
        r is None ==> integer_of(*v) is None,
{
    match v {
        Inner::SignedInteger(i) => Some(*i as i128),
        Inner::UnsignedInteger(u) => Some(*u as i128),
        _ => None,
    }
}

/// Whether `right`, converted losslessly into `left`'s type, equals `left`;
/// `false` where the conversion fails.
pub fn try_eq<L, R>(left: &L, right: &R) -> (r: bool) where
    L: TryFrom<R> + PartialEq + Copy,
    R: PartialEq + Copy,

    ensures
        L::obeys_try_from_spec() && L::obeys_eq_spec() ==> r == (match L::try_from_spec(*right) {
            Ok(v) => left.eq_spec(&v),
            Err(_) => false,
        }),
{
    match L::try_from(*right) {
        Ok(v) => left.eq(&v),
        Err(_) => false,
    }
}

impl Inner {
    fn rank(&self) -> (r: u8)
        ensures
            r as int == kind_rank(*self),
    {
        match self {
            Inner::Bool(_) => 0,
            Inner::String(_) => 1,
            Inner::SignedInteger(_) => 2,
            Inner::UnsignedInteger(_) => 2,
            Inner::DateTime(_) => 3,
        }
    }

    /// Value equality of two scalars.
    pub fn equals(&self, other: &Inner) -> (r: bool)
        ensures
            r == inner_eq(*self, *other),
    {
        match (self, other) {
            (Inner::Bool(x), Inner::Bool(y)) => *x == *y,
            (Inner::String(x), Inner::String(y)) => *x == *y,
            (Inner::DateTime(x), Inner::DateTime(y)) => x.secs == y.secs && x.nanos == y.nanos,
            (Inner::SignedInteger(x), Inner::SignedInteger(y)) => *x == *y,
            (Inner::UnsignedInteger(x), Inner::UnsignedInteger(y)) => *x == *y,
            (Inner::SignedInteger(x), Inner::UnsignedInteger(y)) => try_eq(y, x),
            (Inner::UnsignedInteger(x), Inner::SignedInteger(y)) => try_eq(x, y),
            _ => false,
        }
    }

    /// Order of two scalars, by kind rank and then by content.
    pub fn compare(&self, other: &Inner) -> (r: Ordering)
        ensures
            r == inner_order(*self, *other),
    {
        let ra = self.rank();
        let rb = other.rank();
        if ra != rb {
            return compare_ints(ra as i128, rb as i128);
        }
        match (self, other) {
            (Inner::Bool(x), Inner::Bool(y)) => compare_ints(
                if *x { 1 } else { 0 },
                if *y { 1 } else { 0 },
            ),
            (Inner::String(x), Inner::String(y)) => compare_text(x.as_str(), y.as_str()),
            (Inner::DateTime(x), Inner::DateTime(y)) => if x.secs != y.secs {
                compare_ints(x.secs as i128, y.secs as i128)
            } else {
                compare_ints(x.nanos as i128, y.nanos as i128)
            },
            _ => match (integer_value(self), integer_value(other)) {
                (Some(x), Some(y)) => compare_ints(x, y),
                _ => Ordering::Equal,
            },
        }
    }
}

impl PartialEq for Inner {
    fn eq(&self, other: &Inner) -> (r: bool) {
        self.equals(other)
    }
}

impl vstd::std_specs::cmp::PartialEqSpecImpl for Inner {
    open spec fn obeys_eq_spec() -> bool {
        true
    }

    open spec fn eq_spec(&self, other: &Inner) -> bool {
        inner_eq(*self, *other)
    }
}

impl Eq for Inner {}

impl PartialOrd for Inner {
    fn partial_cmp(&self, other: &Inner) -> (r: Option<Ordering>) {
        Some(self.compare(other))
    }
}

impl vstd::std_specs::cmp::PartialOrdSpecImpl for Inner {
    open spec fn obeys_partial_cmp_spec() -> bool {
        true
    }

    open spec fn partial_cmp_spec(&self, other: &Inner) -> Option<Ordering> {
        Some(inner_order(*self, *other))
    }
}

/// Leaf term value: one scalar, or none.
#[derive(Debug, Clone)]
pub struct Term(pub Option<Inner>);

/// Equality of terms: both absent, or both present with equal scalars.
pub open spec fn term_eq(a: Term, b: Term) -> bool {
    match (a.0, b.0) {
        (None, None) => true,
        (Some(x), Some(y)) => inner_eq(x, y),
        _ => false,
    }
}

/// Order of terms: an absent term comes before every present one.
pub open spec fn term_order(a: Term, b: Term) -> Ordering {
    match (a.0, b.0) {
        (None, None) => Ordering::Equal,
        (None, Some(_)) => Ordering::Less,
        (Some(_), None) => Ordering::Greater,
        (Some(x), Some(y)) => inner_order(x, y),
    }
}

/// A term is omitted when absent or when it holds empty text.
pub open spec fn term_skipped(t: Term) -> bool {
    match t.0 {
        None => true,
        Some(Inner::String(s)) => s@.len() == 0,
        _ => false,
    }
}

impl Term {
    /// Value equality of two terms.
    pub fn equals(&self, other: &Term) -> (r: bool)
        ensures
            r == term_eq(*self, *other),
    {
        match (&self.0, &other.0) {
            (None, None) => true,
            (Some(x), Some(y)) => x.equals(y),
            _ => false,
        }
    }

    /// Order of two terms.
    pub fn compare(&self, other: &Term) -> (r: Ordering)
        ensures
            r == term_order(*self, *other),
    {
        match (&self.0, &other.0) {
            (None, None) => Ordering::Equal,
            (None, Some(_)) => Ordering::Less,
            (Some(_), None) => Ordering::Greater,
            (Some(x), Some(y)) => x.compare(y),
        }
    }
}

impl PartialEq for Term {
    fn eq(&self, other: &Term) -> (r: bool) {
        self.equals(other)
    }
}

impl vstd::std_specs::cmp::PartialEqSpecImpl for Term {
    open spec fn obeys_eq_spec() -> bool {
        true
    }

    open spec fn eq_spec(&self, other: &Term) -> bool {
        term_eq(*self, *other)
    }
}

impl Eq for Term {}

impl PartialOrd for Term {
    fn partial_cmp(&self, other: &Term) -> (r: Option<Ordering>) {
        Some(self.compare(other))
    }
}

impl vstd::std_specs::cmp::PartialOrdSpecImpl for Term {
    open spec fn obeys_partial_cmp_spec() -> bool {
        true
    }

    open spec fn partial_cmp_spec(&self, other: &Term) -> Option<Ordering> {
        Some(term_order(*self, *other))
    }
}

impl Default for Term {
    fn default() -> (r: Term)
        ensures
            r.0 is None,
    {
        Term(None)
    }
}

impl ShouldSkip for Term {
    open spec fn skip_spec(&self) -> bool {
        term_skipped(*self)
    }

    fn should_skip(&self) -> (r: bool) {
        match &self.0 {
            None => true,
            Some(Inner::String(value)) => value.should_skip(),
            _ => false,
        }
    }
}

/// The opposite of an ordering.
pub open spec fn flipped(o: Ordering) -> Ordering {
    match o {
        Ordering::Less => Ordering::Greater,
        Ordering::Equal => Ordering::Equal,
        Ordering::Greater => Ordering::Less,
    }
}

/// Every term equals itself.
pub proof fn lemma_eq_reflexive(t: Term)
    ensures
        term_eq(t, t),
{
}

/// A term built from a literal holds that literal, in the kind that its type
/// maps to, integers widened to 64 bits without change of value, and equals a
/// term built from the same literal.
pub proof fn lemma_literal_read_back(
    b: bool,
    s: String,
    i8v: i8,
    i16v: i16,
    i32v: i32,
    i64v: i64,
    u8v: u8,
    u16v: u16,
    u32v: u32,
    u64v: u64,
    d: Timestamp,
)
    ensures
        Term::from_spec(b).0 == Some(Inner::Bool(b)),
        Term::from_spec(s).0 == Some(Inner::String(s)),
        integer_of(Term::from_spec(i8v).0.unwrap()) == Some(i8v as int),
        integer_of(Term::from_spec(i16v).0.unwrap()) == Some(i16v as int),
        integer_of(Term::from_spec(i32v).0.unwrap()) == Some(i32v as int),
        integer_of(Term::from_spec(i64v).0.unwrap()) == Some(i64v as int),
        integer_of(Term::from_spec(u8v).0.unwrap()) == Some(u8v as int),
        integer_of(Term::from_spec(u16v).0.unwrap()) == Some(u16v as int),
        integer_of(Term::from_spec(u32v).0.unwrap()) == Some(u32v as int),
        integer_of(Term::from_spec(u64v).0.unwrap()) == Some(u64v as int),
        Term::from_spec(d).0 == Some(Inner::DateTime(d)),
        term_eq(Term::from_spec(b), Term::from_spec(b)),
        term_eq(Term::from_spec(s), Term::from_spec(s)),
        term_eq(Term::from_spec(i64v), Term::from_spec(i64v)),
        term_eq(Term::from_spec(u64v), Term::from_spec(u64v)),
        term_eq(Term::from_spec(d), Term::from_spec(d)),
        Term::from_spec(Option::<i64>::None).0 is None,
{
}

/// Equality is symmetric, across the two integer kinds as well.
pub proof fn lemma_eq_symmetric(a: Term, b: Term)
    ensures
        term_eq(a, b) == term_eq(b, a),
{
}

/// A signed and an unsigned integer are equal exactly when they are the same
/// number; a negative signed integer equals no unsigned one.
pub proof fn lemma_signed_unsigned_eq(i: i64, u: u64)
    ensures
        inner_eq(Inner::SignedInteger(i), Inner::UnsignedInteger(u)) <==> i as int == u as int,
        inner_eq(Inner::UnsignedInteger(u), Inner::SignedInteger(i)) <==> i as int == u as int,
        i < 0 ==> !inner_eq(Inner::SignedInteger(i), Inner::UnsignedInteger(u)),
        i < 0 ==> !inner_eq(Inner::UnsignedInteger(u), Inner::SignedInteger(i)),
{
}

/// Scalars of unrelated kinds (any two kinds but the two integer kinds) are
/// never equal.
pub proof fn lemma_unrelated_kinds_unequal(a: Inner, b: Inner)
    requires
        kind_rank(a) != kind_rank(b),
    ensures
        !inner_eq(a, b),
        !inner_eq(b, a),
{
}

proof fn lemma_text_order_flips(a: Seq<char>, b: Seq<char>)
    ensures
        text_order(a, b) == flipped(text_order(b, a)),
        text_order(a, b) == Ordering::Equal <==> a == b,
    decreases a.len(),
{
    if a.len() == 0 || b.len() == 0 {
        if a.len() == 0 && b.len() == 0 {
            assert(a =~= b);
        }
    } else if a[0] != b[0] {
    } else {
        lemma_text_order_flips(a.drop_first(), b.drop_first());
        if a.drop_first() == b.drop_first() {
            assert(a =~= seq![a[0]] + a.drop_first());
            assert(b =~= seq![b[0]] + b.drop_first());
        }
        if a == b {
            assert(a.drop_first() =~= b.drop_first());
        }
    }
}

proof fn lemma_text_order_transitive(a: Seq<char>, b: Seq<char>, c: Seq<char>)
    requires
        text_order(a, b) == Ordering::Less,
        text_order(b, c) == Ordering::Less,
    ensures
        text_order(a, c) == Ordering::Less,
    decreases a.len(),
{
    if a.len() > 0 && b.len() > 0 && c.len() > 0 && a[0] == b[0] && b[0] == c[0] {
        lemma_text_order_transitive(a.drop_first(), b.drop_first(), c.drop_first());
    }
}

/// The order of terms is transitive; with antisymmetry this makes it a total
/// order whose ties are exactly the equal terms.
pub proof fn lemma_order_transitive(a: Term, b: Term, c: Term)
    requires
        term_order(a, b) == Ordering::Less,
        term_order(b, c) == Ordering::Less,
    ensures
        term_order(a, c) == Ordering::Less,
{
    match (a.0, b.0, c.0) {
        (Some(Inner::String(x)), Some(Inner::String(y)), Some(Inner::String(z))) => {
            lemma_text_order_transitive(x@, y@, z@);
        },
        _ => {},
    }
}

/// Swapping the operands of a comparison flips its outcome, and a comparison
/// gives `Equal` exactly when the terms are equal.
pub proof fn lemma_order_antisymmetric(a: Term, b: Term)
    ensures
        term_order(a, b) == flipped(term_order(b, a)),
        term_order(a, b) == Ordering::Equal <==> term_eq(a, b),
{
    match (a.0, b.0) {
        (Some(Inner::String(x)), Some(Inner::String(y))) => {
            lemma_text_order_flips(x@, y@);
        },
        _ => {},
    }
}

impl From<bool> for Term {
    fn from(v: bool) -> (r: Term) {
        Term(Some(Inner::Bool(v)))
    }
}

impl vstd::std_specs::convert::FromSpecImpl<bool> for Term {
    open spec fn obeys_from_spec() -> bool {
        true
    }

    open spec fn from_spec(v: bool) -> Term {
        Term(Some(Inner::Bool(v)))
    }
}

impl From<String> for Term {
    fn from(v: String) -> (r: Term) {
        Term(Some(Inner::String(v)))
    }
}

impl vstd::std_specs::convert::FromSpecImpl<String> for Term {
    open spec fn obeys_from_spec() -> bool {
        true
    }

    open spec fn from_spec(v: String) -> Term {
        Term(Some(Inner::String(v)))
    }
}

impl From<i8> for Term {
    fn from(v: i8) -> (r: Term) {
        Term(Some(Inner::SignedInteger(v as i64)))
    }
}

impl vstd::std_specs::convert::FromSpecImpl<i8> for Term {
    open spec fn obeys_from_spec() -> bool {
        true
    }

    open spec fn from_spec(v: i8) -> Term {
        Term(Some(Inner::SignedInteger(v as i64)))
    }
}

impl From<i16> for Term {
    fn from(v: i16) -> (r: Term) {
        Term(Some(Inner::SignedInteger(v as i64)))
    }
}

impl vstd::std_specs::convert::FromSpecImpl<i16> for Term {
    open spec fn obeys_from_spec() -> bool {
        true
    }

    open spec fn from_spec(v: i16) -> Term {
        Term(Some(Inner::SignedInteger(v as i64)))
    }
}

impl From<i32> for Term {
    fn from(v: i32) -> (r: Term) {
        Term(Some(Inner::SignedInteger(v as i64)))
    }
}

impl vstd::std_specs::convert::FromSpecImpl<i32> for Term {
    open spec fn obeys_from_spec() -> bool {
        true
    }

    open spec fn from_spec(v: i32) -> Term {
        Term(Some(Inner::SignedInteger(v as i64)))
    }
}

impl From<i64> for Term {
    fn from(v: i64) -> (r: Term) {
        Term(Some(Inner::SignedInteger(v)))
    }
}

impl vstd::std_specs::convert::FromSpecImpl<i64> for Term {
    open spec fn obeys_from_spec() -> bool {
        true
    }

    open spec fn from_spec(v: i64) -> Term {
        Term(Some(Inner::SignedInteger(v)))
    }
}

impl From<u8> for Term {
    fn from(v: u8) -> (r: Term) {
        Term(Some(Inner::UnsignedInteger(v as u64)))
    }
}

impl vstd::std_specs::convert::FromSpecImpl<u8> for Term {
    open spec fn obeys_from_spec() -> bool {
        true
    }

    open spec fn from_spec(v: u8) -> Term {
        Term(Some(Inner::UnsignedInteger(v as u64)))
    }
}

impl From<u16> for Term {
    fn from(v: u16) -> (r: Term) {
        Term(Some(Inner::UnsignedInteger(v as u64)))
    }
}

impl vstd::std_specs::convert::FromSpecImpl<u16> for Term {
    open spec fn obeys_from_spec() -> bool {
        true
    }

    open spec fn from_spec(v: u16) -> Term {
        Term(Some(Inner::UnsignedInteger(v as u64)))
    }
}

impl From<u32> for Term {
    fn from(v: u32) -> (r: Term) {
        Term(Some(Inner::UnsignedInteger(v as u64)))
    }
}

impl vstd::std_specs::convert::FromSpecImpl<u32> for Term {
    open spec fn obeys_from_spec() -> bool {
        true
    }

    open spec fn from_spec(v: u32) -> Term {
        Term(Some(Inner::UnsignedInteger(v as u64)))
    }
}

impl From<u64> for Term {
    fn from(v: u64) -> (r: Term) {
        Term(Some(Inner::UnsignedInteger(v)))
    }
}

impl vstd::std_specs::convert::FromSpecImpl<u64> for Term {
    open spec fn obeys_from_spec() -> bool {
        true
    }

    open spec fn from_spec(v: u64) -> Term {
        Term(Some(Inner::UnsignedInteger(v)))
    }
}

impl From<Timestamp> for Term {
    fn from(v: Timestamp) -> (r: Term) {
        Term(Some(Inner::DateTime(v)))
    }
}

impl vstd::std_specs::convert::FromSpecImpl<Timestamp> for Term {
    open spec fn obeys_from_spec() -> bool {
        true
    }

    open spec fn from_spec(v: Timestamp) -> Term {
        Term(Some(Inner::DateTime(v)))
    }
}

impl From<Option<bool>> for Term {
    fn from(v: Option<bool>) -> (r: Term) {
        match v {
            Some(v) => Term(Some(Inner::Bool(v))),
            None => Term(None),
        }
    }
}

impl vstd::std_specs::convert::FromSpecImpl<Option<bool>> for Term {
    open spec fn obeys_from_spec() -> bool {
        true
    }

    open spec fn from_spec(v: Option<bool>) -> Term {
        match v {
            Some(v) => Term(Some(Inner::Bool(v))),
            None => Term(None),
        }
    }
}

impl From<Option<String>> for Term {
    fn from(v: Option<String>) -> (r: Term) {
        match v {
            Some(v) => Term(Some(Inner::String(v))),
            None => Term(None),
        }
    }
}

impl vstd::std_specs::convert::FromSpecImpl<Option<String>> for Term {
    open spec fn obeys_from_spec() -> bool {
        true
    }

    open spec fn from_spec(v: Option<String>) -> Term {
        match v {
            Some(v) => Term(Some(Inner::String(v))),
            None => Term(None),
        }
    }
}

impl From<Option<i8>> for Term {
    fn from(v: Option<i8>) -> (r: Term) {
        match v {
            Some(v) => Term(Some(Inner::SignedInteger(v as i64))),
            None => Term(None),
        }
    }
}

impl vstd::std_specs::convert::FromSpecImpl<Option<i8>> for Term {
    open spec fn obeys_from_spec() -> bool {
        true
    }

    open spec fn from_spec(v: Option<i8>) -> Term {
        match v {
            Some(v) => Term(Some(Inner::SignedInteger(v as i64))),
            None => Term(None),
        }
    }
}

impl From<Option<i16>> for Term {
    fn from(v: Option<i16>) -> (r: Term) {
        match v {
            Some(v) => Term(Some(Inner::SignedInteger(v as i64))),
            None => Term(None),
        }
    }
}

impl vstd::std_specs::convert::FromSpecImpl<Option<i16>> for Term {
    open spec fn obeys_from_spec() -> bool {
        true
    }

    open spec fn from_spec(v: Option<i16>) -> Term {
        match v {
            Some(v) => Term(Some(Inner::SignedInteger(v as i64))),
            None => Term(None),
        }
    }
}

impl From<Option<i32>> for Term {
    fn from(v: Option<i32>) -> (r: Term) {
        match v {
            Some(v) => Term(Some(Inner::SignedInteger(v as i64))),
            None => Term(None),
        }
    }
}

impl vstd::std_specs::convert::FromSpecImpl<Option<i32>> for Term {
    open spec fn obeys_from_spec() -> bool {
        true
    }

    open spec fn from_spec(v: Option<i32>) -> Term {
        match v {
            Some(v) => Term(Some(Inner::SignedInteger(v as i64))),
            None => Term(None),
        }
    }
}

impl From<Option<i64>> for Term {
    fn from(v: Option<i64>) -> (r: Term) {
        match v {
            Some(v) => Term(Some(Inner::SignedInteger(v))),
            None => Term(None),
        }
    }
}

impl vstd::std_specs::convert::FromSpecImpl<Option<i64>> for Term {
    open spec fn obeys_from_spec() -> bool {
        true
    }

    open spec fn from_spec(v: Option<i64>) -> Term {
        match v {
            Some(v) => Term(Some(Inner::SignedInteger(v))),
            None => Term(None),
        }
    }
}

impl From<Option<u8>> for Term {
    fn from(v: Option<u8>) -> (r: Term) {
        match v {
            Some(v) => Term(Some(Inner::UnsignedInteger(v as u64))),
            None => Term(None),
        }
    }
}

impl vstd::std_specs::convert::FromSpecImpl<Option<u8>> for Term {
    open spec fn obeys_from_spec() -> bool {
        true
    }

    open spec fn from_spec(v: Option<u8>) -> Term {
        match v {
            Some(v) => Term(Some(Inner::UnsignedInteger(v as u64))),
            None => Term(None),
        }
    }
}

impl From<Option<u16>> for Term {
    fn from(v: Option<u16>) -> (r: Term) {
        match v {
            Some(v) => Term(Some(Inner::UnsignedInteger(v as u64))),
            None => Term(None),
        }
    }
}

impl vstd::std_specs::convert::FromSpecImpl<Option<u16>> for Term {
    open spec fn obeys_from_spec() -> bool {
        true
    }

    open spec fn from_spec(v: Option<u16>) -> Term {
        match v {
            Some(v) => Term(Some(Inner::UnsignedInteger(v as u64))),
            None => Term(None),
        }
    }
}

impl From<Option<u32>> for Term {
    fn from(v: Option<u32>) -> (r: Term) {
        match v {
            Some(v) => Term(Some(Inner::UnsignedInteger(v as u64))),
            None => Term(None),
        }
    }
}

impl vstd::std_specs::convert::FromSpecImpl<Option<u32>> for Term {
    open spec fn obeys_from_spec() -> bool {
        true
    }

    open spec fn from_spec(v: Option<u32>) -> Term {
        match v {
            Some(v) => Term(Some(Inner::UnsignedInteger(v as u64))),
            None => Term(None),
        }
    }
}

impl From<Option<u64>> for Term {
    fn from(v: Option<u64>) -> (r: Term) {
        match v {
            Some(v) => Term(Some(Inner::UnsignedInteger(v))),
            None => Term(None),
        }
    }
}

impl vstd::std_specs::convert::FromSpecImpl<Option<u64>> for Term {
    open spec fn obeys_from_spec() -> bool {
        true
    }

    open spec fn from_spec(v: Option<u64>) -> Term {
        match v {
            Some(v) => Term(Some(Inner::UnsignedInteger(v))),
            None => Term(None),
        }
    }
}

impl From<Option<Timestamp>> for Term {
    fn from(v: Option<Timestamp>) -> (r: Term) {
        match v {
            Some(v) => Term(Some(Inner::DateTime(v))),
            None => Term(None),
        }
    }
}

impl vstd::std_specs::convert::FromSpecImpl<Option<Timestamp>> for Term {
    open spec fn obeys_from_spec() -> bool {
        true
    }

    open spec fn from_spec(v: Option<Timestamp>) -> Term {
        match v {
            Some(v) => Term(Some(Inner::DateTime(v))),
            None => Term(None),
        }
    }
}

} // verus!
