use vstd::prelude::*;
use crate::command::{Command, Param};

verus! {

/// Mute a user, with the reason shown to the operator.
pub fn mute_add(auth_address: String, cert_user_id: String, reason: String) -> (c: Command)
    ensures
        c.name@ == "muteAdd"@,
        c.params@.len() == 3,
        c.params@[0].is_text(auth_address@),
        c.params@[1].is_text(cert_user_id@),
        c.params@[2].is_text(reason@),
{
    let mut params: Vec<Param> = Vec::new();
    params.push(Param::Text(auth_address));
    params.push(Param::Text(cert_user_id));
    params.push(Param::Text(reason));
    Command::with_params("muteAdd", params)
}

/// Unmute a user.
pub fn mute_remove(auth_address: String) -> (c: Command)
    ensures
        c.name@ == "muteRemove"@,
        c.params@.len() == 1,
        c.params@[0].is_text(auth_address@),
{
    let mut params: Vec<Param> = Vec::new();
    params.push(Param::Text(auth_address));
    Command::with_params("muteRemove", params)
}

/// List the muted users.
pub fn mute_list() -> (c: Command)
    ensures
        c.name@ == "muteList"@,
        c.params@.len() == 0,
{
    Command::plain("muteList")
}

} // verus!
