use vstd::prelude::*;
use crate::command::{Command, Param};

verus! {

/// Start downloading new merger sites.
pub fn merger_site_add(addresses: Vec<String>) -> (c: Command)
    ensures
        c.name@ == "mergerSiteAdd"@,
        c.params@.len() == 1,
        c.params@[0].is_text_list(addresses@.map_values(|s: String| s@)),
{
    let mut params: Vec<Param> = Vec::new();
    params.push(Param::TextList(addresses));
    Command::with_params("mergerSiteAdd", params)
}

/// Stop seeding and delete a merged site.
pub fn merger_site_delete(address: String) -> (c: Command)
    ensures
        c.name@ == "mergerSiteDelete"@,
        c.params@.len() == 1,
        c.params@[0].is_text(address@),
{
    let mut params: Vec<Param> = Vec::new();
    params.push(Param::Text(address));
    Command::with_params("mergerSiteDelete", params)
}

/// List merged sites by address.
pub fn merger_site_list() -> (c: Command)
    ensures
        c.name@ == "mergerSiteList"@,
        c.params@.len() == 1,
        c.params@[0].is_flag(false),
{
    let mut params: Vec<Param> = Vec::new();
    params.push(Param::Flag(false));
    Command::with_params("mergerSiteList", params)
}

/// List merged sites with their full site information.
pub fn merger_site_info_list() -> (c: Command)
    ensures
        c.name@ == "mergerSiteList"@,
        c.params@.len() == 1,
        c.params@[0].is_flag(true),
{
    let mut params: Vec<Param> = Vec::new();
    params.push(Param::Flag(true));
    Command::with_params("mergerSiteList", params)
}

} // verus!
