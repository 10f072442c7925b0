//! The parts of a parsed URL that the shell reads, as plain values.
//!
//! Parsing itself is done by the `url` crate (reached as `reqwest::Url`); this
//! module holds its result in a type of the library.

use vstd::prelude::*;

verus! {

/// The components of a URL that `Url::parse` accepted.
pub struct ParsedUrl {
    /// `Url::as_str`: the serialization of the URL.
    pub serialized: String,
    /// `Url::scheme`.
    pub scheme: String,
    /// `Url::username` (empty when there is none).
    pub username: String,
    /// `Url::password`.
    pub password: Option<String>,
    /// `Url::host_str`.
    pub host: Option<String>,
    /// `Url::port_or_known_default`.
    pub port: Option<u16>,
    /// The last item of `Url::path_segments`, when the URL has segments.
    pub last_segment: Option<String>,
}

/// `ParsedUrl` with its strings taken as character sequences.
pub struct ParsedUrlView {
    pub serialized: Seq<char>,
    pub scheme: Seq<char>,
    pub username: Seq<char>,
    pub password: Option<Seq<char>>,
    pub host: Option<Seq<char>>,
    pub port: Option<u16>,
    pub last_segment: Option<Seq<char>>,
}

pub open spec fn opt_string_view(o: Option<String>) -> Option<Seq<char>> {
    match o {
        Some(s) => Some(s@),
        None => None,
    }
}

impl View for ParsedUrl {
    type V = ParsedUrlView;

    open spec fn view(&self) -> ParsedUrlView {
        ParsedUrlView {
            serialized: self.serialized@,
            scheme: self.scheme@,
            username: self.username@,
            password: opt_string_view(self.password),
            host: opt_string_view(self.host),
            port: self.port,
            last_segment: opt_string_view(self.last_segment),
        }
    }
}

pub open spec fn opt_parsed_view(o: Option<ParsedUrl>) -> Option<ParsedUrlView> {
    match o {
        Some(u) => Some(u@),
        None => None,
    }
}

/// What `Url::parse` makes of a string: `None` where it fails, else the parts
/// of the URL. The WHATWG URL rules that decide it are the `url` crate's.
pub uninterp spec fn url_parse(input: Seq<char>) -> Option<ParsedUrlView>;

/// `url::Url::parse` (as `reqwest::Url::parse`), with the parts that the shell
/// reads copied out of the parsed URL. The contract claims only that the result
/// is a function of the input, named `url_parse`.
#[verifier::external_body]
pub(crate) fn parse_url(input: &str) -> (r: Option<ParsedUrl>)
    ensures
        opt_parsed_view(r) == url_parse(input@),
{
    match reqwest::Url::parse(input) {
        Ok(u) => Some(ParsedUrl {
            serialized: u.as_str().to_string(),
            scheme: u.scheme().to_string(),
            username: u.username().to_string(),
            password: u.password().map(|p| p.to_string()),
            host: u.host_str().map(|h| h.to_string()),
            port: u.port_or_known_default(),
            last_segment: u.path_segments().and_then(|mut p| p.next_back()).map(|p| p.to_string()),
        }),
        Err(_) => None,
    }
}

/// What `percent_decode_str(s).decode_utf8_lossy()` gives: `%XX` escapes turned
/// into bytes, and the bytes read as UTF-8 with invalid sequences replaced.
pub uninterp spec fn percent_decoded_lossy(s: Seq<char>) -> Seq<char>;

/// `percent_encoding::percent_decode_str` followed by `decode_utf8_lossy`. The
/// contract claims only that the result is a function of the input, named
/// `percent_decoded_lossy`.
#[verifier::external_body]
pub(crate) fn percent_decode_lossy(s: &str) -> (r: String)
    ensures
        r@ == percent_decoded_lossy(s@),
{
    percent_encoding::percent_decode_str(s).decode_utf8_lossy().into_owned()
}

} // verus!
