use vstd::prelude::*;
use crate::error::{envelope_of, ErrorModel, ZeroFrameError};
use std::collections::HashMap;

verus! {

/// A reply value from the transport bridge: a closed tagged union over the
/// shapes the bridge can deliver. Payloads are carried as plain values: a
/// numeric reply as its decimal text, a structured reply as the JSON text
/// that encodes it.
pub enum ReplyValue {
    /// A plain string reply.
    Text(String),
    /// A numeric reply, carried as its decimal text.
    Number(String),
    /// A boolean reply.
    Flag(bool),
    /// A structured reply, carried as the JSON text that encodes it.
    Structured(String),
    /// An explicit null reply.
    Null,
}

/// An untyped reply, together with the bridge's own truthiness verdict on it.
/// The verdict is supplied by the bridge rather than recomputed here; only an
/// empty string is treated as falsy unconditionally.
pub struct RawReply {
    pub value: ReplyValue,
    pub falsy: bool,
}

/// Lift a classified outcome to its spec-level image.
pub open spec fn result_view<T>(r: Result<T, ZeroFrameError>) -> Result<T, ErrorModel> {
    match r {
        Ok(t) => Ok(t),
        Err(e) => Err(e@),
    }
}

/// Whether the reply counts as falsy for the no-payload interpretation: an
/// empty string always does, and otherwise the bridge's verdict decides.
pub open spec fn spec_is_falsy(reply: RawReply, s: Seq<char>) -> bool {
    s.len() == 0 || reply.falsy
}

/// The outcome of the no-payload interpretation of a reply: success on "ok",
/// then the falsy check, then the error envelope, and anything else is
/// invalid. A reply with no string form is always invalid.
pub open spec fn spec_result(reply: RawReply) -> Result<(), ErrorModel> {
    match reply.value {
        ReplyValue::Text(s) => if s@ == "ok"@ {
            Ok(())
        } else if spec_is_falsy(reply, s@) {
            Err(ErrorModel::Falsy)
        } else {
            match envelope_of(s@) {
                Some(m) => Err(ErrorModel::Remote(m)),
                None => Err(ErrorModel::Invalid),
            }
        },
        _ => Err(ErrorModel::Invalid),
    }
}

/// The outcome of the changed-flag interpretation of a reply: "ok" means a
/// change was applied, "Not changed" means an idempotent no-op, any other
/// string is an error envelope or invalid, and a reply with no string form is
/// invalid. Falsy semantics play no part here.
pub open spec fn spec_result_changed(reply: RawReply) -> Result<bool, ErrorModel> {
    match reply.value {
        ReplyValue::Text(s) => if s@ == "ok"@ {
            Ok(true)
        } else if s@ == "Not changed"@ {
            Ok(false)
        } else {
            match envelope_of(s@) {
                Some(m) => Err(ErrorModel::Remote(m)),
                None => Err(ErrorModel::Invalid),
            }
        },
        _ => Err(ErrorModel::Invalid),
    }
}

/// The failure chosen for a string reply that decoded neither directly nor as
/// a JSON document: the error envelope takes priority, and otherwise the
/// decoder's message `cause` is reported as a serialization failure.
pub open spec fn spec_text_failure(text: Seq<char>, cause: Seq<char>) -> ErrorModel {
    match envelope_of(text) {
        Some(m) => ErrorModel::Remote(m),
        None => ErrorModel::Serialization(cause),
    }
}

/// Relies on serde_json::from_str: attempts to parse `s` as a JSON document
/// encoding a `T`; on failure hands back the parser's message. Nothing is
/// assumed of the outcome, since it depends on `T`'s decoder.
#[verifier::external_body]
fn decode_json_text<T: serde::de::DeserializeOwned>(s: &str) -> (r: Result<T, String>) {
    serde_json::from_str::<T>(s).map_err(|e| format!("{}", e))
}

/// Relies on serde_json::from_value on a JSON string value: attempts to
/// decode a `T` from the string value `s` itself (not from `s` parsed as a
/// document). Nothing is assumed of the outcome, since it depends on `T`'s
/// decoder.
#[verifier::external_body]
fn decode_json_string_value<T: serde::de::DeserializeOwned>(s: &str) -> (r: Option<T>) {
    serde_json::from_value::<T>(serde_json::Value::String(s.to_owned())).ok()
}

/// Decide the failure for a string reply `text` that decoded neither directly
/// nor as a JSON document: the error envelope takes priority over reporting
/// the decode failure `cause`.
pub fn classify_text_failure(text: String, cause: String) -> (e: ZeroFrameError)
    ensures
        e@ == spec_text_failure(text@, cause@),
{
    match ZeroFrameError::from_response(text) {
        Some(e) => e,
        None => ZeroFrameError::SerializationError(cause),
    }
}

impl RawReply {
    /// Interpret the reply as success with no payload: "ok" is success, a
    /// falsy string reply is `FalsyResponse`, an error envelope is
    /// `RemoteError`, and anything else — including every reply without a
    /// string form — is `InvalidResponse`.
    pub fn result(self) -> (r: Result<(), ZeroFrameError>)
        ensures
            result_view(r) == spec_result(self),
    {
        let falsy = self.falsy;
        match self.value {
            ReplyValue::Text(s) => {
                let ok: String = "ok".to_owned();
                if s.eq(&ok) {
                    Ok(())
                } else if s.as_str().is_empty() || falsy {
                    Err(ZeroFrameError::FalsyResponse)
                } else {
                    match ZeroFrameError::from_response(s) {
                        Some(e) => Err(e),
                        None => Err(ZeroFrameError::InvalidResponse),
                    }
                }
            },
            _ => Err(ZeroFrameError::InvalidResponse),
        }
    }

    /// Interpret the reply as a changed flag: "ok" means a change was
    /// applied, "Not changed" means an idempotent no-op, any other string is
    /// classified as an error envelope or invalid, and a reply without a
    /// string form is invalid.
    pub fn result_changed(self) -> (r: Result<bool, ZeroFrameError>)
        ensures
            result_view(r) == spec_result_changed(self),
    {
        match self.value {
            ReplyValue::Text(s) => {
                let ok: String = "ok".to_owned();
                if s.eq(&ok) {
                    Ok(true)
                } else {
                    let not_changed: String = "Not changed".to_owned();
                    if s.eq(&not_changed) {
                        Ok(false)
                    } else {
                        match ZeroFrameError::from_response(s) {
                            Some(e) => Err(e),
                            None => Err(ZeroFrameError::InvalidResponse),
                        }
                    }
                }
            },
            _ => Err(ZeroFrameError::InvalidResponse),
        }
    }

    /// Interpret the reply as a typed payload: first a direct structural
    /// decode of the delivered value, then — for a string reply — a decode of
    /// the string parsed as a JSON document, then the error envelope, and
    /// finally `SerializationError` when a string form existed or
    /// `InvalidResponse` when none did. The decodes are serde_json's, so the
    /// contract pins the failures: a falsy classification never occurs, a
    /// remote error carries exactly the envelope message of a string reply, a
    /// serialization failure only arises from a string reply that is no
    /// envelope, and an invalid reply is one with no string form.
    pub fn response<T: serde::de::DeserializeOwned>(self) -> (r: Result<T, ZeroFrameError>)
        ensures
            r matches Err(e) ==> match e@ {
                ErrorModel::Falsy => false,
                ErrorModel::Remote(m) => self.value matches ReplyValue::Text(s) && envelope_of(
                    s@,
                ) == Some(m),
                ErrorModel::Invalid => !(self.value matches ReplyValue::Text(_)),
                ErrorModel::Serialization(_) => self.value matches ReplyValue::Text(s)
                    && envelope_of(s@) is None,
            },
    {
        let direct: Option<T> = match &self.value {
            ReplyValue::Text(s) => decode_json_string_value::<T>(s.as_str()),
            ReplyValue::Number(n) => decode_json_text::<T>(n.as_str()).ok(),
            ReplyValue::Flag(b) => if *b {
                decode_json_text::<T>("true").ok()
            } else {
                decode_json_text::<T>("false").ok()
            },
            ReplyValue::Structured(j) => decode_json_text::<T>(j.as_str()).ok(),
            ReplyValue::Null => decode_json_text::<T>("null").ok(),
        };
        match direct {
            Some(t) => Ok(t),
            None => match self.value {
                ReplyValue::Text(s) => match decode_json_text::<T>(s.as_str()) {
                    Ok(t) => Ok(t),
                    Err(cause) => Err(classify_text_failure(s, cause)),
                },
                _ => Err(ZeroFrameError::InvalidResponse),
            },
        }
    }
}

/// The no-payload interpretation is total and closed: every reply maps to
/// success or to exactly one of the falsy, remote and invalid failures, and
/// never to a serialization failure.
pub proof fn lemma_result_total(reply: RawReply)
    ensures
        spec_result(reply) == Ok::<(), ErrorModel>(()) || spec_result(reply) == Err::<
            (),
            ErrorModel,
        >(ErrorModel::Falsy) || (spec_result(reply) matches Err(e) && e matches ErrorModel::Remote(
            _,
        )) || spec_result(reply) == Err::<(), ErrorModel>(ErrorModel::Invalid),
{
}

/// For the no-payload interpretation, a string reply that is both falsy and
/// parseable as an error envelope classifies as falsy: the falsy check
/// precedes envelope parsing.
pub proof fn lemma_falsy_precedes_envelope(reply: RawReply, s: String, m: Seq<char>)
    requires
        reply.value == ReplyValue::Text(s),
        s@ != "ok"@,
        spec_is_falsy(reply, s@),
        envelope_of(s@) == Some(m),
    ensures
        spec_result(reply) == Err::<(), ErrorModel>(ErrorModel::Falsy),
{
}

/// For the typed interpretation, a string reply that is a well-formed error
/// envelope is classified as the remote failure it carries, never as a
/// serialization failure, whatever the decoder reported.
pub proof fn lemma_envelope_precedes_serialization(text: Seq<char>, cause: Seq<char>, m: Seq<char>)
    requires
        envelope_of(text) == Some(m),
    ensures
        spec_text_failure(text, cause) == ErrorModel::Remote(m),
{
}

/// Permission rules that apply to a file, as the host reports them.
pub struct FileRules {
    pub current_size: usize,
    pub cert_signers: HashMap<String, Vec<String>>,
    pub files_allowed: String,
    pub signers: Vec<String>,
    pub user_address: String,
    pub max_size: usize,
}

/// The wire shape of a remote failure: a JSON object with a string field
/// named `error`.
pub struct ErrorResponse {
    pub error: String,
}

/// Information about the host server.
pub struct ServerInfo {
    pub debug: bool,
    pub fileserver_ip: String,
    pub fileserver_port: u16,
    pub ip_external: bool,
    pub platform: String,
    pub ui_ip: String,
    pub ui_port: u16,
    pub version: String,
}

/// Summary of a site's content manifest.
pub struct SiteContentSummary {
    pub address: String,
    pub address_index: u64,
    pub background_color: String,
    pub clone_root: String,
    pub cloneable: bool,
    pub cloned_from: String,
    pub description: String,
    pub files: u64,
    pub files_optional: u64,
    pub ignore: String,
    pub includes: u64,
    pub inner_path: String,
    pub merged_type: String,
    pub modified: u64,
    pub optional: String,
    pub postmessage_nonce_security: bool,
    pub signs_required: u64,
    pub title: String,
    pub translate: Vec<String>,
    pub zeronet_version: String,
}

/// Per-site settings; the host's free-form cache object is carried as the
/// JSON text that encodes it.
pub struct SiteSettings {
    pub added: u64,
    pub ajax_key: String,
    pub bytes_recv: u64,
    pub bytes_sent: u64,
    pub cache: String,
    pub downloaded: Option<u64>,
    pub modified: u64,
    pub optional_downloaded: u64,
    pub own: bool,
    pub peers: u64,
    pub permissions: Vec<String>,
    pub serving: bool,
    pub size: u64,
    pub size_files_optional: u64,
    pub size_optional: u64,
}

/// Information about a site.
pub struct SiteInfo {
    pub address: String,
    pub address_hash: String,
    pub address_short: String,
    pub tasks: u64,
    pub size_limit: u64,
    pub next_size_limit: u64,
    pub auth_address: Option<String>,
    pub auth_key_sha512: String,
    pub peers: u64,
    pub auth_key: String,
    pub settings: SiteSettings,
    pub bad_files: u64,
    pub workers: u64,
    pub content: SiteContentSummary,
    pub cert_user_id: Option<String>,
    pub started_task_num: u64,
}

} // verus!
