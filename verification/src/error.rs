//! The library's error type.

use vstd::prelude::*;

use crate::text::{owned, push_str, str_eq};

verus! {

/// Type name of transport failures.
pub const ERR_TYPE_HTTP: &'static str = "HTTP Error";
/// Type name of local I/O failures.
pub const ERR_TYPE_IO: &'static str = "IO Error";
/// Type name of unknown HTTP methods.
pub const ERR_TYPE_INVALID_METHOD: &'static str = "Invalid Method";
/// Type name of error statuses returned by the API.
pub const ERR_TYPE_API: &'static str = "API Error";
/// Type name of JSON encoding and decoding failures.
pub const ERR_TYPE_JSON: &'static str = "JSON Error";
/// Type name of authentication failures.
pub const ERR_TYPE_AUTH: &'static str = "Auth Error";
/// Type name of token-store failures.
pub const ERR_TYPE_TOKEN_STORE: &'static str = "Token Store Error";

/// Type name of inputs rejected before any request.
pub const ERR_TYPE_VALIDATION: &'static str = "Validation Error";
/// Type name of raw URLs with a refused scheme.
pub const ERR_TYPE_INVALID_URL: &'static str = "Invalid URL";
/// Type name of path parameters that would change the URL's shape.
pub const ERR_TYPE_INVALID_PATH_PARAM: &'static str = "Invalid Path Parameter";
/// Type name of programmer errors inside the library.
pub const ERR_TYPE_INTERNAL: &'static str = "Internal Error";
/// Type name of auth schemes an endpoint does not accept.
pub const ERR_TYPE_AUTH_MISMATCH: &'static str = "Auth Method Mismatch";

/// Message of the auth error raised when no credential of any scheme exists.
pub const NO_AUTH_METHOD: &'static str = "NoAuthMethod: no authentication method available";
/// Message of the auth error raised when no OAuth2 token is stored.
pub const NO_OAUTH2_TOKEN: &'static str = "TokenNotFound: oauth2 token not found";

/// Everything that can go wrong while building, authorising or sending a request.
#[derive(Debug, Clone)]
pub enum Error {
    /// The HTTP transport failed.
    Http(String),
    /// A local file or stream failed.
    Io(String),
    /// The method is not a valid HTTP method.
    InvalidMethod(String),
    /// The API answered with an error status; `body` is the response body.
    Api { status: u16, body: String },
    /// JSON could not be encoded or decoded.
    Json(String),
    /// Authentication failed; the message starts with the failure kind.
    Auth(String),
    /// The token store refused an operation.
    TokenStore(String),
    /// The input was rejected before any request went out.
    Validation(String),
    /// A raw URL uses a scheme other than `http` or `https`.
    InvalidUrl(String),
    /// A path parameter holds a character that would change the URL's shape.
    InvalidPathParam { name: String, value: String },
    /// A programmer error inside the library.
    Internal(String),
    /// The requested (or every available) auth scheme is not accepted by the endpoint.
    AuthMethodMismatch {
        endpoint: String,
        rendered_url: Option<String>,
        method: String,
        requested: Option<String>,
        supported: Vec<String>,
        available_in_app: Option<Vec<String>>,
        app: Option<String>,
        other_apps_with_creds: Option<Vec<String>>,
    },
}

/// Shorthand for results carrying the library's error.
pub type Result<T> = core::result::Result<T, Error>;

/// The model of a list of strings.
pub open spec fn texts(v: Seq<String>) -> Seq<Seq<char>> {
    Seq::new(v.len(), |i: int| v[i]@)
}

/// `pre` before each item, `sep` between items.
pub open spec fn join_with(items: Seq<Seq<char>>, pre: Seq<char>, sep: Seq<char>) -> Seq<char>
    decreases items.len(),
{
    if items.len() == 0 {
        Seq::empty()
    } else if items.len() == 1 {
        pre + items[0]
    } else {
        join_with(items.drop_last(), pre, sep) + sep + pre + items.last()
    }
}

/// A wire scheme as users know it: `Bearer (app)`, `OAuth1 (oauth1)`,
/// `OAuth2 (oauth2)`; anything else as it is.
pub open spec fn pretty_scheme(w: Seq<char>) -> Seq<char> {
    if w == "app"@ {
        "Bearer (app)"@
    } else if w == "oauth1"@ {
        "OAuth1 (oauth1)"@
    } else if w == "oauth2"@ {
        "OAuth2 (oauth2)"@
    } else {
        w
    }
}

/// The type name an error reports.
pub open spec fn kind_name(e: Error) -> Seq<char> {
    match e {
        Error::Http(_) => ERR_TYPE_HTTP@,
        Error::Io(_) => ERR_TYPE_IO@,
        Error::InvalidMethod(_) => ERR_TYPE_INVALID_METHOD@,
        Error::Api { .. } => ERR_TYPE_API@,
        Error::Json(_) => ERR_TYPE_JSON@,
        Error::Auth(_) => ERR_TYPE_AUTH@,
        Error::TokenStore(_) => ERR_TYPE_TOKEN_STORE@,
        Error::Validation(_) => ERR_TYPE_VALIDATION@,
        Error::InvalidUrl(_) => ERR_TYPE_INVALID_URL@,
        Error::InvalidPathParam { .. } => ERR_TYPE_INVALID_PATH_PARAM@,
        Error::Internal(_) => ERR_TYPE_INTERNAL@,
        Error::AuthMethodMismatch { .. } => ERR_TYPE_AUTH_MISMATCH@,
    }
}

/// The text of an auth-method mismatch.
pub open spec fn mismatch_text(
    endpoint: Seq<char>,
    method: Seq<char>,
    requested: Option<Seq<char>>,
    supported: Seq<Seq<char>>,
    others: Seq<Seq<char>>,
) -> Seq<char> {
    let head = method + " "@ + endpoint;
    match requested {
        Some(q) => head + " does not accept "@ + pretty_scheme(q) + "; use "@ + join_with(
            supported,
            "--auth "@,
            " or "@,
        ),
        None => head + " accepts "@ + join_with(supported, "--auth "@, " or "@)
            + ", and no matching credential is available"@ + if others.len() > 0 {
            "; apps with credentials: "@ + join_with(others, Seq::empty(), ", "@)
        } else {
            Seq::empty()
        },
    }
}

/// The text an error displays.
pub open spec fn message_of(e: Error) -> Seq<char> {
    match e {
        Error::Http(m) => ERR_TYPE_HTTP@ + ": "@ + m@,
        Error::Io(m) => ERR_TYPE_IO@ + ": "@ + m@,
        Error::InvalidMethod(m) => ERR_TYPE_INVALID_METHOD@ + ": Invalid HTTP method: "@ + m@,
        Error::Api { body, .. } => ERR_TYPE_API@ + ": "@ + body@,
        Error::Json(m) => ERR_TYPE_JSON@ + ": "@ + m@,
        Error::Auth(m) => ERR_TYPE_AUTH@ + ": "@ + m@,
        Error::TokenStore(m) => ERR_TYPE_TOKEN_STORE@ + ": "@ + m@,
        Error::Validation(m) => ERR_TYPE_VALIDATION@ + ": "@ + m@,
        Error::InvalidUrl(m) => ERR_TYPE_INVALID_URL@ + ": "@ + m@,
        Error::InvalidPathParam { name, value } => ERR_TYPE_INVALID_PATH_PARAM@ + ": "@ + name@ + " = "@
            + value@,
        Error::Internal(m) => ERR_TYPE_INTERNAL@ + ": "@ + m@,
        Error::AuthMethodMismatch { endpoint, method, requested, supported, other_apps_with_creds, .. } => {
            ERR_TYPE_AUTH_MISMATCH@ + ": "@ + mismatch_text(
                endpoint@,
                method@,
                match requested {
                    Some(q) => Some(q@),
                    None => None,
                },
                texts(supported@),
                match other_apps_with_creds {
                    Some(o) => texts(o@),
                    None => Seq::empty(),
                },
            )
        },
    }
}

/// Joins `items`, putting `pre` before each and `sep` between them.
pub fn join_strings(items: &Vec<String>, pre: &str, sep: &str) -> (r: String)
    ensures
        r@ == join_with(texts(items@), pre@, sep@),
{
    let mut r = String::new();
    let mut i: usize = 0;
    proof {
        assert(texts(items@).subrange(0, 0) =~= Seq::<Seq<char>>::empty());
    }
    while i < items.len()
        invariant
            i <= items.len(),
            r@ == join_with(texts(items@).subrange(0, i as int), pre@, sep@),
        decreases items.len() - i,
    {
        if i > 0 {
            push_str(&mut r, sep);
        }
        push_str(&mut r, pre);
        push_str(&mut r, items[i].as_str());
        proof {
            let t = texts(items@);
            assert(t.subrange(0, i + 1).drop_last() =~= t.subrange(0, i as int));
            if i == 0 {
                assert(r@ =~= pre@ + t.subrange(0, 1)[0]);
            }
        }
        i = i + 1;
    }
    proof {
        assert(texts(items@).subrange(0, i as int) =~= texts(items@));
    }
    r
}

/// Builds `pretty_scheme` of a wire string.
fn pretty(w: &str) -> (r: String)
    ensures
        r@ == pretty_scheme(w@),
{
    if str_eq(w, "app") {
        owned("Bearer (app)")
    } else if str_eq(w, "oauth1") {
        owned("OAuth1 (oauth1)")
    } else if str_eq(w, "oauth2") {
        owned("OAuth2 (oauth2)")
    } else {
        owned(w)
    }
}

/// A message with its type name in front.
fn typed(t: &str, m: &str) -> (r: String)
    ensures
        r@ == t@ + ": "@ + m@,
{
    let mut r = owned(t);
    push_str(&mut r, ": ");
    push_str(&mut r, m);
    r
}

impl Error {
    /// The type name this error reports.
    pub fn error_type(&self) -> (r: &'static str)
        ensures
            r@ == kind_name(*self),
    {
        match self {
            Error::Http(_) => ERR_TYPE_HTTP,
            Error::Io(_) => ERR_TYPE_IO,
            Error::InvalidMethod(_) => ERR_TYPE_INVALID_METHOD,
            Error::Api { .. } => ERR_TYPE_API,
            Error::Json(_) => ERR_TYPE_JSON,
            Error::Auth(_) => ERR_TYPE_AUTH,
            Error::TokenStore(_) => ERR_TYPE_TOKEN_STORE,
            Error::Validation(_) => ERR_TYPE_VALIDATION,
            Error::InvalidUrl(_) => ERR_TYPE_INVALID_URL,
            Error::InvalidPathParam { .. } => ERR_TYPE_INVALID_PATH_PARAM,
            Error::Internal(_) => ERR_TYPE_INTERNAL,
            Error::AuthMethodMismatch { .. } => ERR_TYPE_AUTH_MISMATCH,
        }
    }

    /// The text this error displays.
    pub fn message(&self) -> (r: String)
        ensures
            r@ == message_of(*self),
    {
        match self {
            Error::Http(m) => typed(ERR_TYPE_HTTP, m.as_str()),
            Error::Io(m) => typed(ERR_TYPE_IO, m.as_str()),
            Error::InvalidMethod(m) => {
                let mut r = owned(ERR_TYPE_INVALID_METHOD);
                push_str(&mut r, ": Invalid HTTP method: ");
                push_str(&mut r, m.as_str());
                r
            },
            Error::Api { body, .. } => typed(ERR_TYPE_API, body.as_str()),
            Error::Json(m) => typed(ERR_TYPE_JSON, m.as_str()),
            Error::Auth(m) => typed(ERR_TYPE_AUTH, m.as_str()),
            Error::TokenStore(m) => typed(ERR_TYPE_TOKEN_STORE, m.as_str()),
            Error::Validation(m) => typed(ERR_TYPE_VALIDATION, m.as_str()),
            Error::InvalidUrl(m) => typed(ERR_TYPE_INVALID_URL, m.as_str()),
            Error::InvalidPathParam { name, value } => {
                let mut r = typed(ERR_TYPE_INVALID_PATH_PARAM, name.as_str());
                push_str(&mut r, " = ");
                push_str(&mut r, value.as_str());
                r
            },
            Error::Internal(m) => typed(ERR_TYPE_INTERNAL, m.as_str()),
            Error::AuthMethodMismatch { endpoint, method, requested, supported, other_apps_with_creds, .. } => {
                let mut r = typed(ERR_TYPE_AUTH_MISMATCH, method.as_str());
                push_str(&mut r, " ");
                push_str(&mut r, endpoint.as_str());
                match requested {
                    Some(q) => {
                        push_str(&mut r, " does not accept ");
                        let p = pretty(q.as_str());
                        push_str(&mut r, p.as_str());
                        push_str(&mut r, "; use ");
                        let alts = join_strings(supported, "--auth ", " or ");
                        push_str(&mut r, alts.as_str());
                    },
                    None => {
                        push_str(&mut r, " accepts ");
                        let alts = join_strings(supported, "--auth ", " or ");
                        push_str(&mut r, alts.as_str());
                        push_str(&mut r, ", and no matching credential is available");
                        match other_apps_with_creds {
                            Some(o) => {
                                if o.len() > 0 {
                                    push_str(&mut r, "; apps with credentials: ");
                                    let l = join_strings(o, "", ", ");
                                    push_str(&mut r, l.as_str());
                                }
                            },
                            None => {},
                        }
                    },
                }
                proof {
                    reveal_strlit("");
                    assert(""@ =~= Seq::<char>::empty());
                }
                r
            },
        }
    }
}

/// An error of the given type and message: known type names give their
/// variant, anything else an internal error carrying the message.
pub fn new_error(error_type: &str, message: &str) -> (e: Error)
    ensures
        kind_name(e) == (if error_type@ == ERR_TYPE_HTTP@ || error_type@ == ERR_TYPE_IO@ || error_type@
            == ERR_TYPE_JSON@ || error_type@ == ERR_TYPE_AUTH@ || error_type@ == ERR_TYPE_TOKEN_STORE@
            || error_type@ == ERR_TYPE_VALIDATION@ {
            error_type@
        } else {
            ERR_TYPE_INTERNAL@
        }),
        message_of(e) == kind_name(e) + ": "@ + message@,
{
    let m = owned(message);
    if str_eq(error_type, ERR_TYPE_HTTP) {
        Error::Http(m)
    } else if str_eq(error_type, ERR_TYPE_IO) {
        Error::Io(m)
    } else if str_eq(error_type, ERR_TYPE_JSON) {
        Error::Json(m)
    } else if str_eq(error_type, ERR_TYPE_AUTH) {
        Error::Auth(m)
    } else if str_eq(error_type, ERR_TYPE_TOKEN_STORE) {
        Error::TokenStore(m)
    } else if str_eq(error_type, ERR_TYPE_VALIDATION) {
        Error::Validation(m)
    } else {
        Error::Internal(m)
    }
}

/// A transport failure with the cause's text.
pub fn new_http_error(cause: &str) -> (e: Error)
    ensures
        e == Error::Http(e->Http_0) && e->Http_0@ == cause@,
{
    Error::Http(owned(cause))
}

/// A local I/O failure with the cause's text.
pub fn new_io_error(cause: &str) -> (e: Error)
    ensures
        e == Error::Io(e->Io_0) && e->Io_0@ == cause@,
{
    Error::Io(owned(cause))
}

/// An unknown HTTP method.
pub fn new_invalid_method_error(method: &str) -> (e: Error)
    ensures
        e == Error::InvalidMethod(e->InvalidMethod_0) && e->InvalidMethod_0@ == method@,
{
    Error::InvalidMethod(owned(method))
}

/// A JSON failure with the cause's text.
pub fn new_json_error(cause: &str) -> (e: Error)
    ensures
        e == Error::Json(e->Json_0) && e->Json_0@ == cause@,
{
    Error::Json(owned(cause))
}

/// An authentication failure.
pub fn new_auth_error(message: &str) -> (e: Error)
    ensures
        e == Error::Auth(e->Auth_0) && e->Auth_0@ == message@,
{
    Error::Auth(owned(message))
}

/// A token-store failure.
pub fn new_token_store_error(message: &str) -> (e: Error)
    ensures
        e == Error::TokenStore(e->TokenStore_0) && e->TokenStore_0@ == message@,
{
    Error::TokenStore(owned(message))
}

/// `err` reports the type name `error_type`.
pub fn is_error_type(err: &Error, error_type: &str) -> (r: bool)
    ensures
        r == (kind_name(*err) == error_type@),
{
    str_eq(err.error_type(), error_type)
}

/// `err` is a transport failure.
pub fn is_http_error(err: &Error) -> (r: bool)
    ensures
        r == (err is Http),
{
    matches!(err, Error::Http { .. })
}

/// `err` is a local I/O failure.
pub fn is_io_error(err: &Error) -> (r: bool)
    ensures
        r == (err is Io),
{
    matches!(err, Error::Io { .. })
}

/// `err` is an error status from the API.
pub fn is_api_error(err: &Error) -> (r: bool)
    ensures
        r == (err is Api),
{
    matches!(err, Error::Api { .. })
}

/// `err` is a JSON failure.
pub fn is_json_error(err: &Error) -> (r: bool)
    ensures
        r == (err is Json),
{
    matches!(err, Error::Json { .. })
}

/// `err` is an authentication failure.
pub fn is_auth_error(err: &Error) -> (r: bool)
    ensures
        r == (err is Auth),
{
    matches!(err, Error::Auth { .. })
}

impl Error {
    /// This error and `target` report the same type name.
    pub fn is(&self, target: &Error) -> (r: bool)
        ensures
            r == (kind_name(*self) == kind_name(*target)),
    {
        str_eq(self.error_type(), target.error_type())
    }
}

} // verus!
