use vstd::prelude::*;

verus! {

/// The string carried by the field named `key` of the JSON object that `s`
/// encodes, if `s` parses as an object holding a string there; `None`
/// otherwise. What exactly parses is decided by serde_json, so the outcome is
/// named rather than written out.
pub uninterp spec fn json_string_field_of(s: Seq<char>, key: Seq<char>) -> Option<Seq<char>>;

/// The message carried by the error envelope `{"error": message}` that `s`
/// encodes, if `s` parses as such an envelope; `None` otherwise.
pub open spec fn envelope_of(s: Seq<char>) -> Option<Seq<char>> {
    json_string_field_of(s, "error"@)
}

/// Spec-level image of a classified failure: each variant of
/// `ZeroFrameError`, with its message as a sequence of characters.
pub enum ErrorModel {
    Falsy,
    Remote(Seq<char>),
    Invalid,
    Serialization(Seq<char>),
}

/// The closed set of classified failure causes a remote reply can map to.
#[derive(Debug, Clone)]
pub enum ZeroFrameError {
    /// The reply was a recognized falsy sentinel with no further structure.
    FalsyResponse,
    /// The reply decoded as an error envelope carrying a host-supplied message.
    RemoteError(String),
    /// The reply did not match any expected shape for the requested
    /// interpretation.
    InvalidResponse,
    /// A typed payload was expected but structural decoding failed for a
    /// reason other than an error envelope; carries the decoder's message.
    SerializationError(String),
}

impl View for ZeroFrameError {
    type V = ErrorModel;

    open spec fn view(&self) -> ErrorModel {
        match self {
            ZeroFrameError::FalsyResponse => ErrorModel::Falsy,
            ZeroFrameError::RemoteError(m) => ErrorModel::Remote(m@),
            ZeroFrameError::InvalidResponse => ErrorModel::Invalid,
            ZeroFrameError::SerializationError(m) => ErrorModel::Serialization(m@),
        }
    }
}

/// Relies on serde_json::from_str::<serde_json::Value>: whether a string
/// parses as a JSON object holding a string under `key` depends on the two
/// strings alone, so the outcome is the named `json_string_field_of`; the
/// body only reads the field off the parsed value.
#[verifier::external_body]
fn parse_string_field(s: &str, key: &str) -> (r: Option<String>)
    ensures
        match r {
            Some(m) => json_string_field_of(s@, key@) == Some(m@),
            None => json_string_field_of(s@, key@) is None,
        },
{
    match serde_json::from_str::<serde_json::Value>(s) {
        Ok(serde_json::Value::Object(map)) => match map.get(key) {
            Some(serde_json::Value::String(m)) => Some(m.clone()),
            _ => None,
        },
        _ => None,
    }
}

impl ZeroFrameError {
    /// Decode `response` as the remote error envelope `{"error": message}`;
    /// a reply string of that shape is a remote failure carrying the message.
    pub fn from_response(response: String) -> (r: Option<ZeroFrameError>)
        ensures
            match r {
                Some(e) => envelope_of(response@) matches Some(m) && e@ == ErrorModel::Remote(m),
                None => envelope_of(response@) is None,
            },
    {
        match parse_string_field(response.as_str(), "error") {
            Some(m) => Some(ZeroFrameError::RemoteError(m)),
            None => None,
        }
    }

    /// A short description of the failure, one per variant.
    pub fn message(&self) -> (r: String)
        ensures
            match self {
                ZeroFrameError::FalsyResponse => r@ == "API call returned falsy response"@,
                ZeroFrameError::RemoteError(m) => r@ == m@,
                ZeroFrameError::InvalidResponse => r@ == "could not parse response"@,
                ZeroFrameError::SerializationError(m) => r@ == m@,
            },
    {
        match self {
            ZeroFrameError::FalsyResponse => "API call returned falsy response".to_owned(),
            ZeroFrameError::RemoteError(m) => m.clone(),
            ZeroFrameError::InvalidResponse => "could not parse response".to_owned(),
            ZeroFrameError::SerializationError(m) => m.clone(),
        }
    }
}

} // verus!
