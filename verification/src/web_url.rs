//! Absolute URLs.
//!
//! Parsing is the `url` crate's work. A [`WebUrl`] keeps what the rest of the
//! library reads of a parsed URL: its normalised text and its scheme.

use crate::error::{Error, ErrorView};
use crate::text::same_text;
use vstd::prelude::*;

verus! {

/// What `url::Url::parse` makes of a text: nothing where it reports an
/// error, otherwise the parsed URL's serialization and its scheme.
pub uninterp spec fn parsed_url(input: Seq<char>) -> Option<(Seq<char>, Seq<char>)>;

/// Calls `url::Url::parse`, then `Url::as_str` and `Url::scheme` on what it
/// returns. The contract only names the outcome: the parser returned an
/// error exactly when the result is `None`, and otherwise the two strings
/// are the serialization and the scheme of the URL it returned.
#[verifier::external_body]
fn parse_parts(input: &str) -> (r: Option<(String, String)>)
    ensures
        match r {
            Some(p) => parsed_url(input@) == Some((p.0@, p.1@)),
            None => parsed_url(input@) is None,
        },
{
    match url::Url::parse(input) {
        Ok(u) => Some((u.as_str().to_owned(), u.scheme().to_owned())),
        Err(_) => None,
    }
}

/// An absolute URL that the parser accepted.
#[derive(Debug)]
pub struct WebUrl {
    href: String,
    scheme: String,
}

/// A [`WebUrl`] as contracts see it.
pub struct WebUrlView {
    /// The URL's normalised text.
    pub href: Seq<char>,
    /// The URL's scheme, without the `:` that follows it.
    pub scheme: Seq<char>,
}

impl View for WebUrl {
    type V = WebUrlView;

    closed spec fn view(&self) -> WebUrlView {
        WebUrlView { href: self.href@, scheme: self.scheme@ }
    }
}

/// Whether some text parses to exactly this serialization and scheme.
pub open spec fn came_from_parser(u: WebUrlView) -> bool {
    exists|input: Seq<char>| #[trigger] parsed_url(input) == Some((u.href, u.scheme))
}

/// What parsing a text returns.
pub open spec fn parse_outcome(input: Seq<char>) -> Result<WebUrlView, ErrorView> {
    match parsed_url(input) {
        Some((href, scheme)) => Ok(WebUrlView { href, scheme }),
        None => Err(ErrorView::UrlParseError(input)),
    }
}

/// A result of this module as contracts see it.
pub open spec fn outcome(r: Result<WebUrl, Error>) -> Result<WebUrlView, ErrorView> {
    match r {
        Ok(u) => Ok(u@),
        Err(e) => Err(e@),
    }
}

/// The characters of an optional URL.
pub open spec fn opt_url(o: Option<WebUrl>) -> Option<WebUrlView> {
    match o {
        Some(u) => Some(u@),
        None => None,
    }
}

impl WebUrl {
    #[verifier::type_invariant]
    spec fn parsed(&self) -> bool {
        came_from_parser(self@)
    }

    /// Parses an absolute URL. A text the parser rejects gives
    /// [`Error::UrlParseError`] with that text.
    pub fn parse(input: &str) -> (r: Result<WebUrl, Error>)
        ensures
            outcome(r) == parse_outcome(input@),
    {
        match parse_parts(input) {
            Some(parts) => {
                let u = WebUrl { href: parts.0, scheme: parts.1 };
                Ok(u)
            },
            None => Err(Error::UrlParseError(input.to_owned())),
        }
    }

    /// The URL's normalised text.
    pub fn as_str(&self) -> (r: &str)
        ensures
            r@ == self@.href,
    {
        self.href.as_str()
    }

    /// The URL's scheme. Every URL of this type is one the parser returned.
    pub fn scheme(&self) -> (r: &str)
        ensures
            r@ == self@.scheme,
            came_from_parser(self@),
    {
        proof {
            use_type_invariant(self);
        }
        self.scheme.as_str()
    }

    /// Whether the scheme is exactly `expected`.
    pub fn has_scheme(&self, expected: &str) -> (r: bool)
        ensures
            r == (self@.scheme == expected@),
    {
        same_text(self.scheme.as_str(), expected)
    }
}

impl Clone for WebUrl {
    fn clone(&self) -> (r: Self)
        ensures
            r@ == self@,
    {
        proof {
            use_type_invariant(self);
        }
        WebUrl { href: self.href.clone(), scheme: self.scheme.clone() }
    }
}

/// A copy of an optional URL.
pub fn copy_opt_url(o: &Option<WebUrl>) -> (r: Option<WebUrl>)
    ensures
        opt_url(r) == opt_url(*o),
{
    match o {
        Some(u) => Some(u.clone()),
        None => None,
    }
}

} // verus!
