use vstd::prelude::*;
use crate::command::Command;

verus! {

/// Request to login with a private key.
pub fn user_login_form() -> (c: Command)
    ensures
        c.name@ == "userLoginForm"@,
        c.params@.len() == 0,
{
    Command::plain("userLoginForm")
}

/// Request to show the user's private key.
pub fn user_show_master_seed() -> (c: Command)
    ensures
        c.name@ == "userShowMasterSeed"@,
        c.params@.len() == 0,
{
    Command::plain("userShowMasterSeed")
}

} // verus!
