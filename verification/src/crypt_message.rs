use vstd::prelude::*;
use crate::command::{Command, Param};

verus! {

/// Ask for a user public key; with no index, the host's default.
pub fn user_publickey(index: Option<usize>) -> (c: Command)
    ensures
        c.name@ == "userPublickey"@,
        match index {
            Some(i) => c.params@.len() == 1 && c.params@[0].is_uint(i as u64),
            None => c.params@.len() == 0,
        },
{
    let mut params: Vec<Param> = Vec::new();
    match index {
        Some(i) => params.push(Param::Uint(i as u64)),
        None => (),
    }
    Command::with_params("userPublickey", params)
}

/// Encrypt a text to the given public key.
pub fn ecies_encrypt(text: String, publickey_index: usize, return_aes_key: bool) -> (c: Command)
    ensures
        c.name@ == "eciesEncrypt"@,
        c.params@.len() == 3,
        c.params@[0].is_text(text@),
        c.params@[1].is_uint(publickey_index as u64),
        c.params@[2].is_flag(return_aes_key),
{
    let mut params: Vec<Param> = Vec::new();
    params.push(Param::Text(text));
    params.push(Param::Uint(publickey_index as u64));
    params.push(Param::Flag(return_aes_key));
    Command::with_params("eciesEncrypt", params)
}

/// Decrypt a message with the given private key.
pub fn ecies_decrypt(params: String, privatekey_index: usize) -> (c: Command)
    ensures
        c.name@ == "eciesDecrypt"@,
        c.params@.len() == 2,
        c.params@[0].is_text(params@),
        c.params@[1].is_uint(privatekey_index as u64),
{
    let mut ps: Vec<Param> = Vec::new();
    ps.push(Param::Text(params));
    ps.push(Param::Uint(privatekey_index as u64));
    Command::with_params("eciesDecrypt", ps)
}

/// Encrypt a text symmetrically; a missing key or iv travels as the host's
/// generate-new sentinel.
pub fn aes_encrypt(text: String, key: Option<String>, iv: Option<String>) -> (c: Command)
    ensures
        c.name@ == "aesEncrypt"@,
        c.params@.len() == 3,
        c.params@[0].is_text(text@),
        match key {
            Some(k) => c.params@[1].is_text(k@),
            None => c.params@[1].is_text("generate new"@),
        },
        match iv {
            Some(v) => c.params@[2].is_text(v@),
            None => c.params@[2].is_text("generate new"@),
        },
{
    let k: String = match key {
        Some(k) => k,
        None => "generate new".to_owned(),
    };
    let v: String = match iv {
        Some(v) => v,
        None => "generate new".to_owned(),
    };
    let mut params: Vec<Param> = Vec::new();
    params.push(Param::Text(text));
    params.push(Param::Text(k));
    params.push(Param::Text(v));
    Command::with_params("aesEncrypt", params)
}

/// Decrypt a symmetrically encrypted text; the third slot travels as an
/// explicit null.
pub fn aes_decrypt(iv: String, encrypted_text: String, key: String) -> (c: Command)
    ensures
        c.name@ == "aesDecrypt"@,
        c.params@.len() == 4,
        c.params@[0].is_text(iv@),
        c.params@[1].is_text(encrypted_text@),
        c.params@[2] matches Param::Null,
        c.params@[3].is_text(key@),
{
    let mut params: Vec<Param> = Vec::new();
    params.push(Param::Text(iv));
    params.push(Param::Text(encrypted_text));
    params.push(Param::Null);
    params.push(Param::Text(key));
    Command::with_params("aesDecrypt", params)
}

} // verus!
