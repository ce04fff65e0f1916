use vstd::prelude::*;

verus! {

/// One positional parameter of an outbound command, as a plain value. The
/// bridge turns each into its dynamically-typed counterpart before dispatch.
pub enum Param {
    /// A string parameter.
    Text(String),
    /// A numeric parameter.
    Uint(u64),
    /// A boolean parameter.
    Flag(bool),
    /// An explicit null parameter.
    Null,
    /// A list of strings, sent as a JSON array.
    TextList(Vec<String>),
    /// String-to-string pairs, sent as a JSON object.
    TextMap(Vec<(String, String)>),
    /// A structured parameter, carried as the JSON text that encodes it.
    Json(String),
}

impl Param {
    /// The parameter is the string `s`.
    pub open spec fn is_text(self, s: Seq<char>) -> bool {
        self matches Param::Text(t) && t@ == s
    }

    /// The parameter is the number `n`.
    pub open spec fn is_uint(self, n: u64) -> bool {
        self matches Param::Uint(m) && m == n
    }

    /// The parameter is the boolean `b`.
    pub open spec fn is_flag(self, b: bool) -> bool {
        self matches Param::Flag(f) && f == b
    }

    /// The parameter is the list of strings `l`.
    pub open spec fn is_text_list(self, l: Seq<Seq<char>>) -> bool {
        self matches Param::TextList(v) && v@.map_values(|s: String| s@) == l
    }

    /// The parameter is the string-to-string pairs `m`, in order.
    pub open spec fn is_text_map(self, m: Seq<(Seq<char>, Seq<char>)>) -> bool {
        self matches Param::TextMap(v) && v@.map_values(|p: (String, String)| (p.0@, p.1@)) == m
    }

    /// The parameter is a structured value whose JSON text is `j`.
    pub open spec fn is_json(self, j: Seq<char>) -> bool {
        self matches Param::Json(t) && t@ == j
    }
}

/// An outbound message for the bridge: a fixed command name with its ordered
/// parameter list. Command names are static configuration, never computed.
pub struct Command {
    pub name: String,
    pub params: Vec<Param>,
}

impl Command {
    /// A command with no parameters.
    pub fn plain(name: &str) -> (c: Command)
        ensures
            c.name@ == name@,
            c.params@.len() == 0,
    {
        Command { name: name.to_owned(), params: Vec::new() }
    }

    /// A command with the given parameters.
    pub fn with_params(name: &str, params: Vec<Param>) -> (c: Command)
        ensures
            c.name@ == name@,
            c.params == params,
    {
        Command { name: name.to_owned(), params }
    }
}

} // verus!
