use vstd::prelude::*;
use crate::command::{Command, Param};

verus! {

/// Initialize a big-file upload.
pub fn bigfile_upload_init(inner_path: String, size: usize) -> (c: Command)
    ensures
        c.name@ == "bigfileUploadInit"@,
        c.params@.len() == 2,
        c.params@[0].is_text(inner_path@),
        c.params@[1].is_uint(size as u64),
{
    let mut params: Vec<Param> = Vec::new();
    params.push(Param::Text(inner_path));
    params.push(Param::Uint(size as u64));
    Command::with_params("bigfileUploadInit", params)
}

} // verus!
