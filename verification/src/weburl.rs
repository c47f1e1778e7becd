//! URL parsing through the `url` crate: a parsed URL as plain values.

use vstd::prelude::*;

use crate::request::pairs_view;

verus! {

/// The parts of a parsed URL the library reads.
#[derive(Debug, Clone)]
pub struct ParsedUrl {
    /// The scheme, lower-cased by the parser.
    pub scheme: String,
    /// The host as text, if the URL has one (an IPv6 address between brackets).
    pub host: Option<String>,
    /// The explicit port, or the scheme's known default.
    pub port: Option<u16>,
    /// The path (`/` for a path-less URL with an authority).
    pub path: String,
    /// The query's name/value pairs, percent-decoded, in order.
    pub pairs: Vec<(String, String)>,
}

/// The model of a [`ParsedUrl`].
pub struct UrlV {
    pub scheme: Seq<char>,
    pub host: Option<Seq<char>>,
    pub port: Option<u16>,
    pub path: Seq<char>,
    pub pairs: Seq<(Seq<char>, Seq<char>)>,
}

impl View for ParsedUrl {
    type V = UrlV;

    open spec fn view(&self) -> UrlV {
        UrlV {
            scheme: self.scheme@,
            host: match self.host {
                Some(h) => Some(h@),
                None => None,
            },
            port: self.port,
            path: self.path@,
            pairs: pairs_view(self.pairs@),
        }
    }
}

/// What the `url` crate parses `s` to, or its parse error's text.
pub uninterp spec fn url_parse(s: Seq<char>) -> Result<UrlV, Seq<char>>;

/// `base` parsed and the pairs appended to its query with
/// `query_pairs_mut().append_pair`, serialised; or the parse error's text.
pub uninterp spec fn url_append_pairs(base: Seq<char>, pairs: Seq<(Seq<char>, Seq<char>)>) -> Result<
    Seq<char>,
    Seq<char>,
>;

/// The model of a parse result.
pub open spec fn parse_view(r: Result<ParsedUrl, String>) -> Result<UrlV, Seq<char>> {
    match r {
        Ok(u) => Ok(u@),
        Err(e) => Err(e@),
    }
}

/// The model of a text result.
pub open spec fn text_view(r: Result<String, String>) -> Result<Seq<char>, Seq<char>> {
    match r {
        Ok(u) => Ok(u@),
        Err(e) => Err(e@),
    }
}

/// `url::Url::parse`, read back through `scheme`, `host_str`,
/// `port_or_known_default`, `path` and `query_pairs`; an error gives the
/// parse error's `Display` text. The contract names the outcome.
#[verifier::external_body]
pub(crate) fn parse_url(s: &str) -> (r: Result<ParsedUrl, String>)
    ensures
        parse_view(r) == url_parse(s@),
{
    match url::Url::parse(s) {
        Ok(u) => Ok(ParsedUrl {
            scheme: u.scheme().to_string(),
            host: u.host_str().map(|h| h.to_string()),
            port: u.port_or_known_default(),
            path: u.path().to_string(),
            pairs: u.query_pairs().map(|(k, v)| (k.into_owned(), v.into_owned())).collect(),
        }),
        Err(e) => Err(e.to_string()),
    }
}

/// `url::Url::parse` of `base`, then `query_pairs_mut().extend_pairs`
/// (each pair appended in order, as `append_pair` does), then `to_string`.
/// It fails exactly when parsing `base` fails, with the same text.
#[verifier::external_body]
pub(crate) fn append_query_pairs(base: &str, pairs: &Vec<(String, String)>) -> (r: Result<String, String>)
    ensures
        text_view(r) == url_append_pairs(base@, pairs_view(pairs@)),
        r is Err <==> url_parse(base@) is Err,
{
    match url::Url::parse(base) {
        Ok(mut u) => {
            u.query_pairs_mut().extend_pairs(pairs.iter());
            Ok(u.to_string())
        },
        Err(e) => Err(e.to_string()),
    }
}

} // verus!
