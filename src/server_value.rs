use vstd::prelude::*;

use crate::config::{object_get, ConfigValue};
use crate::entries::last_map;
use crate::error::WhoIsError;
use crate::host::{addr_string, WhoIsHost, WhoIsHostView};
use crate::text::{chars_of, string_from_chars, substitute, substitute_chars};

verus! {

/// The port of the WHOIS protocol.
pub const DEFAULT_WHOIS_HOST_PORT: u16 = 43;

/// Whether a server's query text is converted to ASCII where no template
/// says otherwise.
pub const DEFAULT_PUNYCODE: bool = true;

/// The query template used where a server has none: the query text and a
/// line end.
pub open spec fn default_template() -> Seq<char> {
    seq!['$', 'a', 'd', 'd', 'r', '\r', '\n']
}

/// A WHOIS server: where it is, the template of the query it expects (with
/// `$addr` standing for the query text), and whether the query text is to be
/// converted to ASCII.
#[derive(Debug)]
pub struct WhoIsServerValue {
    pub host: WhoIsHost,
    pub query: Option<String>,
    pub punycode: bool,
}

/// The mathematical value of a `WhoIsServerValue`.
pub struct ServerView {
    pub host: WhoIsHostView,
    pub query: Option<Seq<char>>,
    pub punycode: bool,
}

impl View for WhoIsServerValue {
    type V = ServerView;

    open spec fn view(&self) -> ServerView {
        ServerView {
            host: self.host@,
            query: match self.query {
                Some(q) => Some(q@),
                None => None,
            },
            punycode: self.punycode,
        }
    }
}

/// The server at a bare host, with the default template and punycode policy.
pub open spec fn server_at(h: WhoIsHostView) -> ServerView {
    ServerView { host: h, query: None, punycode: DEFAULT_PUNYCODE }
}

/// The optional query template of a server object: absent, or a string.
pub open spec fn query_of(m: Map<Seq<char>, ConfigValue>) -> Option<Option<Seq<char>>> {
    if !m.contains_key("query"@) {
        Some(None)
    } else {
        match m["query"@] {
            ConfigValue::Str { text, host: _ } => Some(Some(text@)),
            _ => None,
        }
    }
}

/// The optional punycode flag of a server object: absent, or a boolean.
pub open spec fn punycode_of(m: Map<Seq<char>, ConfigValue>) -> Option<bool> {
    if !m.contains_key("punycode"@) {
        Some(DEFAULT_PUNYCODE)
    } else {
        match m["punycode"@] {
            ConfigValue::Bool(b) => Some(b),
            _ => None,
        }
    }
}

/// The server that a directory value describes, if it is well-formed: a
/// host string, or an object with a host string, an optional query string
/// and an optional punycode boolean.
pub open spec fn server_of(v: ConfigValue) -> Option<ServerView> {
    match v {
        ConfigValue::Str { text: _, host: Some(h) } => Some(server_at(h@)),
        ConfigValue::Object(e) => {
            let m = last_map(e@);
            if !m.contains_key("host"@) {
                None
            } else {
                match m["host"@] {
                    ConfigValue::Str { text: _, host: Some(h) } => {
                        if query_of(m) is Some && punycode_of(m) is Some {
                            Some(
                                ServerView {
                                    host: h@,
                                    query: query_of(m)->0,
                                    punycode: punycode_of(m)->0,
                                },
                            )
                        } else {
                            None
                        }
                    },
                    _ => None,
                }
            }
        },
        _ => None,
    }
}

/// The message of the error for a directory value that describes no server.
pub open spec fn value_error(v: ConfigValue) -> Seq<char> {
    match v {
        ConfigValue::Object(e) => {
            let m = last_map(e@);
            if !m.contains_key("host"@) {
                "The server value is an object, but it has not a host string."@
            } else {
                match m["host"@] {
                    ConfigValue::Str { text: _, host: Some(_) } => if query_of(m) is None {
                        "The server value is an object, but it has an incorrect query string."@
                    } else {
                        "The server value is an object, but it has an incorrect punycode boolean value."@
                    },
                    ConfigValue::Str { text: _, host: None } => {
                        "The server value is an object, but it has not a correct host string."@
                    },
                    _ => "The server value is an object, but it has not a host string."@,
                }
            }
        },
        ConfigValue::Str { text: _, host: None } => {
            "The server value is not a correct host string."@
        },
        _ => "The server value is not an object or a host string."@,
    }
}

/// The text sent to a server for the query text `text`.
pub open spec fn request_of(s: ServerView, text: Seq<char>) -> Seq<char> {
    match s.query {
        Some(t) => substitute(t, text),
        None => substitute(default_template(), text),
    }
}

impl Clone for WhoIsServerValue {
    fn clone(&self) -> (r: Self)
        ensures
            r@ == self@,
    {
        let query = match &self.query {
            Some(q) => Some(q.clone()),
            None => None,
        };
        WhoIsServerValue { host: self.host.clone(), query, punycode: self.punycode }
    }
}

impl WhoIsServerValue {
    /// The server at `host`, with the default query template and punycode
    /// policy.
    pub fn from_host(host: WhoIsHost) -> (r: WhoIsServerValue)
        ensures
            r@ == server_at(host@),
    {
        WhoIsServerValue { host, query: None, punycode: DEFAULT_PUNYCODE }
    }

    /// The server that a directory value describes. A value that is neither
    /// a host string nor an object with a host string, an optional query
    /// string and an optional punycode boolean is an error.
    pub fn from_value(value: &ConfigValue) -> (r: Result<WhoIsServerValue, WhoIsError>)
        ensures
            r is Ok == server_of(*value) is Some,
            r matches Ok(s) ==> s@ == server_of(*value)->0,
            r matches Err(e) ==> (e matches WhoIsError::MapError(m) && m@ == value_error(*value)),
    {
        match value {
            ConfigValue::Object(map) => match object_get(map, "host") {
                Some(ConfigValue::Str { text: _, host: Some(host) }) => {
                    let query = match object_get(map, "query") {
                        Some(ConfigValue::Str { text, host: _ }) => Some(text.clone()),
                        Some(_) => {
                            return Err(
                                WhoIsError::MapError(
                                    "The server value is an object, but it has an incorrect query string.",
                                ),
                            );
                        },
                        None => None,
                    };
                    let punycode = match object_get(map, "punycode") {
                        Some(ConfigValue::Bool(b)) => *b,
                        Some(_) => {
                            return Err(
                                WhoIsError::MapError(
                                    "The server value is an object, but it has an incorrect punycode boolean value.",
                                ),
                            );
                        },
                        None => DEFAULT_PUNYCODE,
                    };
                    Ok(WhoIsServerValue { host: host.clone(), query, punycode })
                },
                Some(ConfigValue::Str { text: _, host: None }) => Err(
                    WhoIsError::MapError(
                        "The server value is an object, but it has not a correct host string.",
                    ),
                ),
                _ => Err(
                    WhoIsError::MapError(
                        "The server value is an object, but it has not a host string.",
                    ),
                ),
            },
            ConfigValue::Str { text: _, host: Some(host) } => Ok(
                WhoIsServerValue::from_host(host.clone()),
            ),
            ConfigValue::Str { text: _, host: None } => Err(
                WhoIsError::MapError("The server value is not a correct host string."),
            ),
            _ => Err(WhoIsError::MapError("The server value is not an object or a host string.")),
        }
    }

    /// The address to connect to: the host with its port, or the WHOIS port.
    pub fn addr_string(&self) -> (r: String)
        ensures
            r@ == addr_string(self.host@, DEFAULT_WHOIS_HOST_PORT),
    {
        self.host.to_addr_string(DEFAULT_WHOIS_HOST_PORT)
    }

    /// The text to send for the query text `text`: the server's template, or
    /// the default one, with each `$addr` replaced by `text`.
    pub fn request(&self, text: &str) -> (r: String)
        ensures
            r@ == request_of(self@, text@),
    {
        let template: Vec<char> = match &self.query {
            Some(q) => chars_of(q.as_str()),
            None => vec!['$', 'a', 'd', 'd', 'r', '\r', '\n'],
        };
        assert(template@ == match self@.query {
            Some(t) => t,
            None => default_template(),
        });
        let t = chars_of(text);
        let out = substitute_chars(&template, &t);
        string_from_chars(&out)
    }
}

} // verus!
