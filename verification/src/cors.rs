use vstd::prelude::*;
use crate::command::{Command, Param};

verus! {

/// Ask for cross-site permission to another site's data.
pub fn cors_permission(address: String) -> (c: Command)
    ensures
        c.name@ == "corsPermission"@,
        c.params@.len() == 1,
        c.params@[0].is_text(address@),
{
    let mut params: Vec<Param> = Vec::new();
    params.push(Param::Text(address));
    Command::with_params("corsPermission", params)
}

} // verus!
