//! Typed construction of search-query documents and their compact JSON form.

pub mod json;
pub mod skip;
pub mod term;
pub mod queries;
pub mod document;
pub mod aggregations;
pub mod zero_terms_query;
