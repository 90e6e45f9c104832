//! What the bank queries compute around the database: the pattern that a
//! search matches with, and the response it assembles.

use vstd::prelude::*;

use crate::models::{Bank, SearchResponse};
use crate::text::push_char;

verus! {

/// The `LIKE` pattern of a search: the query with `%` on both sides, so
/// that it matches anywhere in a code or a name.
pub fn like_pattern(query: &str) -> (res: String)
    ensures
        res@ == seq!['%'] + query@ + seq!['%'],
{
    let mut res = String::new();
    push_char(&mut res, '%');
    res.append(query);
    push_char(&mut res, '%');
    res
}

impl SearchResponse {
    /// The response of a search from the page of matching banks and the
    /// number of all matches that the database counted.
    pub fn from_query(results: Vec<Bank>, count: i64) -> (res: SearchResponse)
        ensures
            res.results@ == results@,
            res.total == count as usize,
    {
        SearchResponse { results, total: count as usize }
    }

    /// The response with no matches.
    pub fn empty() -> (res: SearchResponse)
        ensures
            res.results@ == Seq::<Bank>::empty(),
            res.total == 0,
    {
        SearchResponse { results: Vec::new(), total: 0 }
    }
}

} // verus!
