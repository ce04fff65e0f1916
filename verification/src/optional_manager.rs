use vstd::prelude::*;
use crate::command::{Command, Param};

verus! {

/// List optional files; a missing address or ordering travels as the host's
/// current-site and download-time sentinels.
pub fn optional_file_list(address: Option<String>, orderby: Option<String>, limit: usize) -> (c:
    Command)
    ensures
        c.name@ == "optionalFileList"@,
        c.params@.len() == 3,
        match address {
            Some(a) => c.params@[0].is_text(a@),
            None => c.params@[0].is_text("current site"@),
        },
        match orderby {
            Some(o) => c.params@[1].is_text(o@),
            None => c.params@[1].is_text("time_downloaded DESC"@),
        },
        c.params@[2].is_uint(limit as u64),
{
    let a: String = match address {
        Some(a) => a,
        None => "current site".to_owned(),
    };
    let o: String = match orderby {
        Some(o) => o,
        None => "time_downloaded DESC".to_owned(),
    };
    let mut params: Vec<Param> = Vec::new();
    params.push(Param::Text(a));
    params.push(Param::Text(o));
    params.push(Param::Uint(limit as u64));
    Command::with_params("optionalFileList", params)
}

/// Ask for information about an optional file.
pub fn optional_file_info(inner_path: String) -> (c: Command)
    ensures
        c.name@ == "optionalFileInfo"@,
        c.params@.len() == 1,
        c.params@[0].is_text(inner_path@),
{
    let mut params: Vec<Param> = Vec::new();
    params.push(Param::Text(inner_path));
    Command::with_params("optionalFileInfo", params)
}

/// Pin an optional file; the address is sent only when given.
pub fn optional_file_pin(inner_path: String, address: Option<String>) -> (c: Command)
    ensures
        c.name@ == "optionalFilePin"@,
        c.params@[0].is_text(inner_path@),
        match address {
            Some(a) => c.params@.len() == 2 && c.params@[1].is_text(a@),
            None => c.params@.len() == 1,
        },
{
    let mut params: Vec<Param> = Vec::new();
    params.push(Param::Text(inner_path));
    match address {
        Some(a) => params.push(Param::Text(a)),
        None => (),
    }
    Command::with_params("optionalFilePin", params)
}

/// Unpin an optional file; the address is sent only when given.
pub fn optional_file_unpin(inner_path: String, address: Option<String>) -> (c: Command)
    ensures
        c.name@ == "optionalFileUnpin"@,
        c.params@[0].is_text(inner_path@),
        match address {
            Some(a) => c.params@.len() == 2 && c.params@[1].is_text(a@),
            None => c.params@.len() == 1,
        },
{
    let mut params: Vec<Param> = Vec::new();
    params.push(Param::Text(inner_path));
    match address {
        Some(a) => params.push(Param::Text(a)),
        None => (),
    }
    Command::with_params("optionalFileUnpin", params)
}

/// Ask for the optional-file limit statistics.
pub fn optional_file_delete() -> (c: Command)
    ensures
        c.name@ == "optionalLimitStats"@,
        c.params@.len() == 0,
{
    Command::plain("optionalLimitStats")
}

/// List the help entries for a site.
pub fn optional_help_list(address: String) -> (c: Command)
    ensures
        c.name@ == "optionalHelpList"@,
        c.params@.len() == 1,
        c.params@[0].is_text(address@),
{
    let mut params: Vec<Param> = Vec::new();
    params.push(Param::Text(address));
    Command::with_params("optionalHelpList", params)
}

/// Help seed a directory of optional files; the address is sent only when
/// given.
pub fn optional_help(directory: String, title: String, address: Option<String>) -> (c: Command)
    ensures
        c.name@ == "optionalHelp"@,
        c.params@[0].is_text(directory@),
        c.params@[1].is_text(title@),
        match address {
            Some(a) => c.params@.len() == 3 && c.params@[2].is_text(a@),
            None => c.params@.len() == 2,
        },
{
    let mut params: Vec<Param> = Vec::new();
    params.push(Param::Text(directory));
    params.push(Param::Text(title));
    match address {
        Some(a) => params.push(Param::Text(a)),
        None => (),
    }
    Command::with_params("optionalHelp", params)
}

/// Stop helping to seed a directory; the address is sent only when given.
pub fn optional_help_remove(directory: String, address: Option<String>) -> (c: Command)
    ensures
        c.name@ == "optionalHelpRemove"@,
        c.params@[0].is_text(directory@),
        match address {
            Some(a) => c.params@.len() == 2 && c.params@[1].is_text(a@),
            None => c.params@.len() == 1,
        },
{
    let mut params: Vec<Param> = Vec::new();
    params.push(Param::Text(directory));
    match address {
        Some(a) => params.push(Param::Text(a)),
        None => (),
    }
    Command::with_params("optionalHelpRemove", params)
}

/// Toggle helping to seed every optional file; the address is sent only when
/// given.
pub fn optional_help_all(value: bool, address: Option<String>) -> (c: Command)
    ensures
        c.name@ == "optionalHelpAll"@,
        c.params@[0].is_flag(value),
        match address {
            Some(a) => c.params@.len() == 2 && c.params@[1].is_text(a@),
            None => c.params@.len() == 1,
        },
{
    let mut params: Vec<Param> = Vec::new();
    params.push(Param::Flag(value));
    match address {
        Some(a) => params.push(Param::Text(a)),
        None => (),
    }
    Command::with_params("optionalHelpAll", params)
}

} // verus!
