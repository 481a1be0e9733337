//! What a match query returns when analysis removes every token.

use vstd::prelude::*;

verus! {

/// Indicates whether no documents are returned if the `analyzer` removes all
/// tokens, such as when using a `stop` filter.
#[derive(Debug, Clone, Copy, PartialEq, Eq, Structural)]
pub enum ZeroTermsQuery {
    /// No documents are returned if the `analyzer` removes all tokens.
    Nothing,
    /// Returns all documents, similar to a match-all query.
    All,
}

impl ZeroTermsQuery {
    /// The option's name in the query document.
    pub fn as_str(&self) -> (r: &'static str)
        ensures
            r@ == (match *self {
                ZeroTermsQuery::Nothing => seq!['n', 'o', 'n', 'e'],
                ZeroTermsQuery::All => seq!['a', 'l', 'l'],
            }),
    {
        proof {
            reveal_strlit("none");
            reveal_strlit("all");
        }
        let r = match self {
            ZeroTermsQuery::Nothing => "none",
            ZeroTermsQuery::All => "all",
        };
        assert(r@ =~= (match *self {
            ZeroTermsQuery::Nothing => seq!['n', 'o', 'n', 'e'],
            ZeroTermsQuery::All => seq!['a', 'l', 'l'],
        }));
        r
    }
}

} // verus!
