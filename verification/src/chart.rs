use vstd::prelude::*;
use crate::command::{Command, Param};

verus! {

/// Run a chart database query; the named parameters travel as a JSON object.
pub fn db_query(query: String, params: Vec<(String, String)>) -> (c: Command)
    ensures
        c.name@ == "chartDbQuery"@,
        c.params@.len() == 2,
        c.params@[0].is_text(query@),
        c.params@[1].is_text_map(params@.map_values(|p: (String, String)| (p.0@, p.1@))),
{
    let mut ps: Vec<Param> = Vec::new();
    ps.push(Param::Text(query));
    ps.push(Param::TextMap(params));
    Command::with_params("chartDbQuery", ps)
}

/// Ask for the locations of the site's peers.
pub fn get_peer_locations() -> (c: Command)
    ensures
        c.name@ == "chartGetPeerLocations"@,
        c.params@.len() == 0,
{
    Command::plain("chartGetPeerLocations")
}

} // verus!
