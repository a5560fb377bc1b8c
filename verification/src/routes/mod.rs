//! The operations of the core as the transport calls them: the shapes of
//! requests and responses, and what each operation answers.

pub mod bots;
pub mod packs;

use crate::models::utils::text_view;
use vstd::prelude::*;

verus! {

/// The entity kinds of the listing.
#[derive(Debug, Copy, Clone, PartialEq, Eq, Structural)]
pub enum ApiTags {
    Bots,
    Packs,
}

/// The answer to a write operation.
#[derive(Debug, Copy, Clone, PartialEq, Eq, Structural)]
pub enum StandardResponse {
    /// The operation was accepted.
    Accepted,
    /// The id names nothing in the row store.
    BadRequest,
}

/// The default size of a page.
pub const DEFAULT_LIMIT: usize = 20;

/// The largest size of a page.
pub const MAX_LIMIT: usize = 50;

/// The largest offset of a page.
pub const MAX_OFFSET: usize = 40000;

/// The most characters of a free-text query.
pub const MAX_QUERY_CHARS: usize = 50;

/// A free-text query is in order when it is absent or has from 1 to 50
/// characters.
pub open spec fn query_in_order(query: Option<Seq<char>>) -> bool {
    match query {
        Some(text) => 1 <= text.len() <= MAX_QUERY_CHARS,
        None => true,
    }
}

/// A page size is in order when it is absent or from 1 to 50.
pub open spec fn limit_in_order(limit: Option<usize>) -> bool {
    match limit {
        Some(size) => 1 <= size <= MAX_LIMIT,
        None => true,
    }
}

/// The page size of a request: the one it names, else 20.
pub open spec fn limit_or_default(limit: Option<usize>) -> usize {
    match limit {
        Some(size) => size,
        None => DEFAULT_LIMIT,
    }
}

/// The query of a response: the one of the request, or `*` for a request
/// without one.
pub open spec fn query_or_wildcard(query: Option<Seq<char>>) -> Seq<char> {
    match query {
        Some(text) => text,
        None => "*"@,
    }
}

/// Whether the query of a request is in order.
pub fn check_query(query: &Option<String>) -> (in_order: bool)
    ensures
        in_order == query_in_order(text_view(*query)),
{
    match query {
        Some(text) => {
            let chars = text.as_str().unicode_len();
            1 <= chars && chars <= MAX_QUERY_CHARS
        },
        None => true,
    }
}

/// Whether the page size of a request is in order.
pub fn check_limit(limit: Option<usize>) -> (in_order: bool)
    ensures
        in_order == limit_in_order(limit),
{
    match limit {
        Some(size) => 1 <= size && size <= MAX_LIMIT,
        None => true,
    }
}

/// The page size of a request.
pub fn page_limit(limit: Option<usize>) -> (size: usize)
    ensures
        size == limit_or_default(limit),
{
    match limit {
        Some(size) => size,
        None => DEFAULT_LIMIT,
    }
}

/// The query of a response.
pub fn response_query(query: &Option<String>) -> (text: String)
    ensures
        text@ == query_or_wildcard(text_view(*query)),
{
    match query {
        Some(text) => text.clone(),
        None => "*".to_owned(),
    }
}

} // verus!
