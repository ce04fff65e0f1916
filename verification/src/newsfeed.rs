use vstd::prelude::*;
use crate::command::{Command, Param};

verus! {

/// Set the followed SQL queries.
pub fn feed_follow(query: String) -> (c: Command)
    ensures
        c.name@ == "feedFollow"@,
        c.params@.len() == 1,
        c.params@[0].is_text(query@),
{
    let mut params: Vec<Param> = Vec::new();
    params.push(Param::Text(query));
    Command::with_params("feedFollow", params)
}

/// Ask for the currently followed feeds.
pub fn feed_list_follow() -> (c: Command)
    ensures
        c.name@ == "feedListFollow"@,
        c.params@.len() == 0,
{
    Command::plain("feedListFollow")
}

/// Execute the followed queries for the user's notification feed.
pub fn feed_query(limit: usize, day_limit: usize) -> (c: Command)
    ensures
        c.name@ == "feedQuery"@,
        c.params@.len() == 2,
        c.params@[0].is_uint(limit as u64),
        c.params@[1].is_uint(day_limit as u64),
{
    let mut params: Vec<Param> = Vec::new();
    params.push(Param::Uint(limit as u64));
    params.push(Param::Uint(day_limit as u64));
    Command::with_params("feedQuery", params)
}

} // verus!
