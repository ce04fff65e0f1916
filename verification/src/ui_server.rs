use vstd::prelude::*;
use crate::command::{Command, Param};
use crate::error::{ErrorModel, ZeroFrameError};
use crate::responses::{RawReply, ReplyValue};

verus! {

/// The base64 text that encodes the bytes `b`.
pub uninterp spec fn base64_of(b: Seq<u8>) -> Seq<char>;

/// The bytes that the base64 text `s` encodes, if `s` is well-formed base64.
pub uninterp spec fn base64_decode_of(s: Seq<char>) -> Option<Seq<u8>>;

/// The UTF-8 bytes of the characters `s`.
pub uninterp spec fn utf8_of(s: Seq<char>) -> Seq<u8>;

/// Relies on base64::encode: the standard-alphabet, padded base64 rendering
/// of the input bytes, a function of the bytes alone.
#[verifier::external_body]
fn encode_base64(b: &Vec<u8>) -> (r: String)
    ensures
        r@ == base64_of(b@),
{
    base64::encode(b)
}

/// Relies on base64::decode: recovers the bytes a base64 text encodes, and
/// rejects ill-formed text; a function of the text alone.
#[verifier::external_body]
fn decode_base64(s: &str) -> (r: Option<Vec<u8>>)
    ensures
        match r {
            Some(b) => base64_decode_of(s@) == Some(b@),
            None => base64_decode_of(s@) is None,
        },
{
    base64::decode(s).ok()
}

/// Relies on str::as_bytes: the UTF-8 encoding of a string depends on its
/// characters alone.
#[verifier::external_body]
fn string_bytes(s: &str) -> (r: Vec<u8>)
    ensures
        r@ == utf8_of(s@),
{
    s.as_bytes().to_vec()
}

/// Ask the host for announcer statistics.
pub fn announcer_info() -> (c: Command)
    ensures
        c.name@ == "announcerInfo"@,
        c.params@.len() == 0,
{
    Command::plain("announcerInfo")
}

/// Request to add a new certificate to the current user.
pub fn cert_add(domain: String, auth_type: String, auth_user_name: String, cert: String) -> (c:
    Command)
    ensures
        c.name@ == "certAdd"@,
        c.params@.len() == 4,
        c.params@[0].is_text(domain@),
        c.params@[1].is_text(auth_type@),
        c.params@[2].is_text(auth_user_name@),
        c.params@[3].is_text(cert@),
{
    let mut params: Vec<Param> = Vec::new();
    params.push(Param::Text(domain));
    params.push(Param::Text(auth_type));
    params.push(Param::Text(auth_user_name));
    params.push(Param::Text(cert));
    Command::with_params("certAdd", params)
}

/// Ask the user to select a certificate.
pub fn cert_select(accepted_domains: Vec<String>, accept_any: bool, accepted_pattern: String) -> (c:
    Command)
    ensures
        c.name@ == "certSelect"@,
        c.params@.len() == 3,
        c.params@[0].is_text_list(accepted_domains@.map_values(|s: String| s@)),
        c.params@[1].is_flag(accept_any),
        c.params@[2].is_text(accepted_pattern@),
{
    let mut params: Vec<Param> = Vec::new();
    params.push(Param::TextList(accepted_domains));
    params.push(Param::Flag(accept_any));
    params.push(Param::Text(accepted_pattern));
    Command::with_params("certSelect", params)
}

/// Join a host notification channel.
pub fn channel_join(channel: String) -> (c: Command)
    ensures
        c.name@ == "channelJoin"@,
        c.params@.len() == 1,
        c.params@[0].is_text(channel@),
{
    let mut params: Vec<Param> = Vec::new();
    params.push(Param::Text(channel));
    Command::with_params("channelJoin", params)
}

/// Run a database query; the named parameters travel as a JSON object.
pub fn db_query(query: String, params: Vec<(String, String)>) -> (c: Command)
    ensures
        c.name@ == "dbQuery"@,
        c.params@.len() == 2,
        c.params@[0].is_text(query@),
        c.params@[1].is_text_map(params@.map_values(|p: (String, String)| (p.0@, p.1@))),
{
    let mut ps: Vec<Param> = Vec::new();
    ps.push(Param::Text(query));
    ps.push(Param::TextMap(params));
    Command::with_params("dbQuery", ps)
}

/// List entries of a directory.
pub fn dir_list(inner_path: String) -> (c: Command)
    ensures
        c.name@ == "dirList"@,
        c.params@.len() == 1,
        c.params@[0].is_text(inner_path@),
{
    let mut params: Vec<Param> = Vec::new();
    params.push(Param::Text(inner_path));
    Command::with_params("dirList", params)
}

/// Delete a file.
pub fn file_delete(inner_path: String) -> (c: Command)
    ensures
        c.name@ == "fileDelete"@,
        c.params@.len() == 1,
        c.params@[0].is_text(inner_path@),
{
    let mut params: Vec<Param> = Vec::new();
    params.push(Param::Text(inner_path));
    Command::with_params("fileDelete", params)
}

/// Fetch a file in the given format; a missing timeout travels as zero.
pub fn file_get(inner_path: String, required: bool, format: &str, timeout: Option<usize>) -> (c:
    Command)
    ensures
        c.name@ == "fileGet"@,
        c.params@.len() == 4,
        c.params@[0].is_text(inner_path@),
        c.params@[1].is_flag(required),
        c.params@[2].is_text(format@),
        match timeout {
            Some(t) => c.params@[3].is_uint(t as u64),
            None => c.params@[3].is_uint(0),
        },
{
    let t: usize = match timeout {
        Some(t) => t,
        None => 0,
    };
    let mut params: Vec<Param> = Vec::new();
    params.push(Param::Text(inner_path));
    params.push(Param::Flag(required));
    params.push(Param::Text(format.to_owned()));
    params.push(Param::Uint(t as u64));
    Command::with_params("fileGet", params)
}

/// The text carried by a fetched file's reply, when the reply is a string.
pub fn file_text_from_reply(reply: RawReply) -> (r: Option<String>)
    ensures
        match reply.value {
            ReplyValue::Text(s) => r == Some(s),
            _ => r is None,
        },
{
    match reply.value {
        ReplyValue::Text(s) => Some(s),
        _ => None,
    }
}

/// The bytes carried by a fetched file's reply: the reply must be a string
/// holding well-formed base64.
pub fn file_bytes_from_reply(reply: RawReply) -> (r: Option<Vec<u8>>)
    ensures
        match reply.value {
            ReplyValue::Text(s) => match r {
                Some(b) => base64_decode_of(s@) == Some(b@),
                None => base64_decode_of(s@) is None,
            },
            _ => r is None,
        },
{
    match reply.value {
        ReplyValue::Text(s) => decode_base64(s.as_str()),
        _ => None,
    }
}

/// Recursively list files of a directory.
pub fn file_list(inner_path: String) -> (c: Command)
    ensures
        c.name@ == "fileList"@,
        c.params@.len() == 1,
        c.params@[0].is_text(inner_path@),
{
    let mut params: Vec<Param> = Vec::new();
    params.push(Param::Text(inner_path));
    Command::with_params("fileList", params)
}

/// Initialize the download of an (optional) file. A zero timeout is rejected
/// up front, before anything is sent.
pub fn file_need(inner_path: String, timeout: usize) -> (r: Result<Command, ZeroFrameError>)
    ensures
        timeout == 0 <==> r is Err,
        r matches Err(e) ==> e@ == ErrorModel::Remote("Timeout should not be 0"@),
        r matches Ok(c) ==> c.name@ == "fileNeed"@ && c.params@.len() == 2 && c.params@[0].is_text(
            inner_path@,
        ) && c.params@[1].is_uint(timeout as u64),
{
    if timeout == 0 {
        return Err(ZeroFrameError::RemoteError("Timeout should not be 0".to_owned()));
    }
    let mut params: Vec<Param> = Vec::new();
    params.push(Param::Text(inner_path));
    params.push(Param::Uint(timeout as u64));
    Ok(Command::with_params("fileNeed", params))
}

/// Simple JSON file query; the query itself is optional.
pub fn file_query(dir_inner_path: String, query: Option<String>) -> (c: Command)
    ensures
        c.name@ == "fileQuery"@,
        c.params@[0].is_text(dir_inner_path@),
        match query {
            Some(q) => c.params@.len() == 2 && c.params@[1].is_text(q@),
            None => c.params@.len() == 1,
        },
{
    let mut params: Vec<Param> = Vec::new();
    params.push(Param::Text(dir_inner_path));
    match query {
        Some(q) => params.push(Param::Text(q)),
        None => (),
    }
    Command::with_params("fileQuery", params)
}

/// Ask for the permission rules that apply to a file.
pub fn file_rules(inner_path: String) -> (c: Command)
    ensures
        c.name@ == "fileRules"@,
        c.params@.len() == 1,
        c.params@[0].is_text(inner_path@),
{
    let mut params: Vec<Param> = Vec::new();
    params.push(Param::Text(inner_path));
    Command::with_params("fileRules", params)
}

/// Write raw bytes to a file; the content travels base64-encoded.
pub fn file_write_bytes(inner_path: String, content: Vec<u8>) -> (c: Command)
    ensures
        c.name@ == "fileWrite"@,
        c.params@.len() == 2,
        c.params@[0].is_text(inner_path@),
        c.params@[1].is_text(base64_of(content@)),
{
    let encoded = encode_base64(&content);
    let mut params: Vec<Param> = Vec::new();
    params.push(Param::Text(inner_path));
    params.push(Param::Text(encoded));
    Command::with_params("fileWrite", params)
}

/// Write a string to a file; its UTF-8 bytes travel base64-encoded.
pub fn file_write_string(inner_path: String, content: String) -> (c: Command)
    ensures
        c.name@ == "fileWrite"@,
        c.params@.len() == 2,
        c.params@[0].is_text(inner_path@),
        c.params@[1].is_text(base64_of(utf8_of(content@))),
{
    let bytes = string_bytes(content.as_str());
    file_write_bytes(inner_path, bytes)
}

/// Ask the host whether it is alive.
pub fn ping() -> (c: Command)
    ensures
        c.name@ == "ping"@,
        c.params@.len() == 0,
{
    Command::plain("ping")
}

/// A ping reply is success exactly when the host answered "pong".
pub fn ping_reply(reply: RawReply) -> (r: Result<(), ZeroFrameError>)
    ensures
        match reply.value {
            ReplyValue::Text(s) => if s@ == "pong"@ {
                r is Ok
            } else {
                r matches Err(e) && e@ == ErrorModel::Invalid
            },
            _ => r matches Err(e) && e@ == ErrorModel::Invalid,
        },
{
    match reply.value {
        ReplyValue::Text(s) => {
            let pong: String = "pong".to_owned();
            if s.eq(&pong) {
                Ok(())
            } else {
                Err(ZeroFrameError::InvalidResponse)
            }
        },
        _ => Err(ZeroFrameError::InvalidResponse),
    }
}

/// Ask for information about the server.
pub fn server_info() -> (c: Command)
    ensures
        c.name@ == "serverInfo"@,
        c.params@.len() == 0,
{
    Command::plain("serverInfo")
}

/// Ask for information about the site.
pub fn site_info() -> (c: Command)
    ensures
        c.name@ == "siteInfo"@,
        c.params@.len() == 0,
{
    Command::plain("siteInfo")
}

/// Publish the site; missing arguments travel as the host's stored-key and
/// default-manifest sentinels.
pub fn site_publish(privatekey: Option<String>, inner_path: Option<String>, sign: bool) -> (c:
    Command)
    ensures
        c.name@ == "sitePublish"@,
        c.params@.len() == 3,
        match privatekey {
            Some(k) => c.params@[0].is_text(k@),
            None => c.params@[0].is_text("stored"@),
        },
        match inner_path {
            Some(p) => c.params@[1].is_text(p@),
            None => c.params@[1].is_text("content.json"@),
        },
        c.params@[2].is_flag(sign),
{
    let key: String = match privatekey {
        Some(k) => k,
        None => "stored".to_owned(),
    };
    let path: String = match inner_path {
        Some(p) => p,
        None => "content.json".to_owned(),
    };
    let mut params: Vec<Param> = Vec::new();
    params.push(Param::Text(key));
    params.push(Param::Text(path));
    params.push(Param::Flag(sign));
    Command::with_params("sitePublish", params)
}

/// Reload the site's content.
pub fn site_reload() -> (c: Command)
    ensures
        c.name@ == "siteReload"@,
        c.params@.len() == 0,
{
    Command::plain("siteReload")
}

/// Sign the site; missing arguments travel as the host's stored-key and
/// default-manifest sentinels.
pub fn site_sign(
    privatekey: Option<String>,
    inner_path: Option<String>,
    remove_missing_optional: bool,
) -> (c: Command)
    ensures
        c.name@ == "siteSign"@,
        c.params@.len() == 3,
        match privatekey {
            Some(k) => c.params@[0].is_text(k@),
            None => c.params@[0].is_text("stored"@),
        },
        match inner_path {
            Some(p) => c.params@[1].is_text(p@),
            None => c.params@[1].is_text("content.json"@),
        },
        c.params@[2].is_flag(remove_missing_optional),
{
    let key: String = match privatekey {
        Some(k) => k,
        None => "stored".to_owned(),
    };
    let path: String = match inner_path {
        Some(p) => p,
        None => "content.json".to_owned(),
    };
    let mut params: Vec<Param> = Vec::new();
    params.push(Param::Text(key));
    params.push(Param::Text(path));
    params.push(Param::Flag(remove_missing_optional));
    Command::with_params("siteSign", params)
}

/// Ask the host to update a site; with no address, the current site.
pub fn site_update(address: Option<String>) -> (c: Command)
    ensures
        c.name@ == "siteUpdate"@,
        match address {
            Some(a) => c.params@.len() == 1 && c.params@[0].is_text(a@),
            None => c.params@.len() == 0,
        },
{
    let mut params: Vec<Param> = Vec::new();
    match address {
        Some(a) => params.push(Param::Text(a)),
        None => (),
    }
    Command::with_params("siteUpdate", params)
}

/// Ask for the user's settings for this site.
pub fn user_get_settings() -> (c: Command)
    ensures
        c.name@ == "userGetSettings"@,
        c.params@.len() == 0,
{
    Command::plain("userGetSettings")
}

/// Store the user's settings for this site; the settings travel as the JSON
/// text that encodes them.
pub fn user_set_settings(settings_json: String) -> (c: Command)
    ensures
        c.name@ == "userSetSettings"@,
        c.params@.len() == 1,
        c.params@[0].is_json(settings_json@),
{
    let mut params: Vec<Param> = Vec::new();
    params.push(Param::Json(settings_json));
    Command::with_params("userSetSettings", params)
}

} // verus!
