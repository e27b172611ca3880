//! URLs, parsed by `url` (as `reqwest` exports it).

use vstd::prelude::*;
use vstd::string::*;

verus! {

/// The parts of a URL that decide whether it may be fetched.
#[derive(Debug)]
pub struct UrlParts {
    pub scheme: String,
    /// Empty when there is none.
    pub username: String,
    pub password: Option<String>,
    pub host: Option<String>,
    /// The port, or the scheme's default.
    pub port: Option<u16>,
}

/// The content of a [`UrlParts`].
pub ghost struct UrlPartsView {
    pub scheme: Seq<char>,
    pub username: Seq<char>,
    pub password: Option<Seq<char>>,
    pub host: Option<Seq<char>>,
    pub port: Option<u16>,
}

/// The content of an optional string.
pub open spec fn text_of(s: Option<String>) -> Option<Seq<char>> {
    match s {
        Some(t) => Some(t@),
        None => None,
    }
}

impl View for UrlParts {
    type V = UrlPartsView;

    open spec fn view(&self) -> UrlPartsView {
        UrlPartsView {
            scheme: self.scheme@,
            username: self.username@,
            password: text_of(self.password),
            host: text_of(self.host),
            port: self.port,
        }
    }
}

/// What `reqwest::Url::parse` makes of a text: the parts of the URL, or the
/// text of its error.
pub uninterp spec fn url_parts(url: Seq<char>) -> Result<UrlPartsView, Seq<char>>;

/// Calls `reqwest::Url::parse`, and hands out the parsed URL's `scheme`,
/// `username`, `password`, `host_str` and `port_or_known_default`.
///
/// What they are, and how the error reads, depends on the text alone.
#[verifier::external_body]
pub(crate) fn parse_url(url: &str) -> (r: Result<UrlParts, String>)
    ensures
        match r {
            Ok(parts) => url_parts(url@) == Ok::<UrlPartsView, Seq<char>>(parts@),
            Err(e) => url_parts(url@) == Err::<UrlPartsView, Seq<char>>(e@),
        },
{
    let parsed = reqwest::Url::parse(url).map_err(|e| e.to_string())?;
    Ok(
        UrlParts {
            scheme: parsed.scheme().to_owned(),
            username: parsed.username().to_owned(),
            password: parsed.password().map(|p| p.to_owned()),
            host: parsed.host_str().map(|h| h.to_owned()),
            port: parsed.port_or_known_default(),
        },
    )
}

} // verus!
