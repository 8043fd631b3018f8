//! The failures this library reports.
//!
//! Every check in the library returns one of these variants; each carries
//! the value that explains it. [`Error::message`] gives the text to show.

use vstd::prelude::*;
use vstd::string::StringExecFns;

verus! {

#[verifier::external_type_specification]
#[verifier::external_body]
pub struct ExIoError(std::io::Error);

/// What can go wrong while building or checking metadata.
#[derive(Debug)]
pub enum Error {
    /// A failure described only by its message.
    Generic(String),
    /// An I/O error handed through unchanged.
    IO(std::io::Error),
    /// The text is not an absolute URL; carries that text.
    UrlParseError(String),
    /// The URL's scheme is neither `http` nor `https`; carries the scheme.
    InvalidHttpUrlScheme(String),
    /// A secure URL whose scheme is not `https`; carries the scheme.
    InvalidHttpsUrlScheme(String),
    /// A media file whose extension is not an allowed one; carries the extension.
    InvalidImageExtension(String),
    /// Only one of width and height is set; carries the name of the absent one.
    IncompleteImageDimensions(&'static str),
    /// A required property is absent; carries its name.
    MissingRequiredProperty(String),
    /// A locale that is invalid for a reason none of the other variants names.
    InvalidLocale(String),
    /// A locale of the right length that is not shaped `xx_YY`; carries the locale.
    InvalidLocaleFormat(String),
    /// A locale that is not five characters long; carries its length in decimal.
    InvalidLocaleLength(String),
    /// A locale whose language is not an ISO 639-1 code; carries the language part.
    InvalidLocaleLanguageCode(String),
    /// A locale whose territory is not an ISO 3166 code; carries the territory part.
    InvalidLocaleCountryCode(String),
    /// The locale is the empty string.
    EmptyLocale,
}

/// An [`Error`] as contracts see it: the variant, with the characters it carries.
pub enum ErrorView {
    Generic(Seq<char>),
    IO,
    UrlParseError(Seq<char>),
    InvalidHttpUrlScheme(Seq<char>),
    InvalidHttpsUrlScheme(Seq<char>),
    InvalidImageExtension(Seq<char>),
    IncompleteImageDimensions(Seq<char>),
    MissingRequiredProperty(Seq<char>),
    InvalidLocale(Seq<char>),
    InvalidLocaleFormat(Seq<char>),
    InvalidLocaleLength(Seq<char>),
    InvalidLocaleLanguageCode(Seq<char>),
    InvalidLocaleCountryCode(Seq<char>),
    EmptyLocale,
}

impl View for Error {
    type V = ErrorView;

    open spec fn view(&self) -> ErrorView {
        match *self {
            Error::Generic(s) => ErrorView::Generic(s@),
            Error::IO(_) => ErrorView::IO,
            Error::UrlParseError(s) => ErrorView::UrlParseError(s@),
            Error::InvalidHttpUrlScheme(s) => ErrorView::InvalidHttpUrlScheme(s@),
            Error::InvalidHttpsUrlScheme(s) => ErrorView::InvalidHttpsUrlScheme(s@),
            Error::InvalidImageExtension(s) => ErrorView::InvalidImageExtension(s@),
            Error::IncompleteImageDimensions(s) => ErrorView::IncompleteImageDimensions(s@),
            Error::MissingRequiredProperty(s) => ErrorView::MissingRequiredProperty(s@),
            Error::InvalidLocale(s) => ErrorView::InvalidLocale(s@),
            Error::InvalidLocaleFormat(s) => ErrorView::InvalidLocaleFormat(s@),
            Error::InvalidLocaleLength(s) => ErrorView::InvalidLocaleLength(s@),
            Error::InvalidLocaleLanguageCode(s) => ErrorView::InvalidLocaleLanguageCode(s@),
            Error::InvalidLocaleCountryCode(s) => ErrorView::InvalidLocaleCountryCode(s@),
            Error::EmptyLocale => ErrorView::EmptyLocale,
        }
    }
}

/// The failure a result reports, if it reports one.
pub open spec fn fault<T>(r: Result<T, Error>) -> Option<ErrorView> {
    match r {
        Ok(_) => None,
        Err(e) => Some(e@),
    }
}

/// The hint that ends every locale message.
pub open spec fn locale_hint() -> Seq<char> {
    "Must be in format `language_TERRITORY` (e.g. 'en_US')"@
}

impl ErrorView {
    /// The text shown for an error. For [`ErrorView::IO`] the text is that of
    /// the wrapped error, which this function does not describe.
    pub open spec fn message(self) -> Seq<char> {
        match self {
            ErrorView::Generic(s) => "Generic "@ + s,
            ErrorView::IO => Seq::empty(),
            ErrorView::UrlParseError(s) => "Failed to parse URL: "@ + s,
            ErrorView::InvalidHttpUrlScheme(s) => "Invalid URL scheme '"@ + s
                + "'. Must be one of 'http'|'https'"@,
            ErrorView::InvalidHttpsUrlScheme(s) => "Invalid URL scheme '"@ + s
                + "'. URL must start with 'https://'"@,
            ErrorView::InvalidImageExtension(s) => "Invalid image extension '"@ + s
                + "'. Only png|jpg|jpeg|gif|webp images are allowed."@,
            ErrorView::IncompleteImageDimensions(s) =>
                "Incomplete visual object dimensions. Only found value for '"@ + s
                + "', but values for both 'width' and 'height' are required"@,
            ErrorView::MissingRequiredProperty(s) => "Missing required property '"@ + s + "'"@,
            ErrorView::InvalidLocale(s) => "Locale '"@ + s + "' is invalid. "@ + locale_hint(),
            ErrorView::InvalidLocaleFormat(s) => "Invalid Locale format '"@ + s + "'. "@
                + locale_hint(),
            ErrorView::InvalidLocaleLength(s) =>
                "Expected Locale value with length of 5 but actual length is '"@ + s + "'. "@
                + locale_hint(),
            ErrorView::InvalidLocaleLanguageCode(s) => "Locale '"@ + s
                + "' contains an invalid language code. "@
                + "Language codes must be in ISO 639-1 format."@,
            ErrorView::InvalidLocaleCountryCode(s) => "Locale '"@ + s
                + "' contains an invalid country code. "@
                + "Country codes must be in ISO 3166 format."@,
            ErrorView::EmptyLocale => "Locale is empty. "@ + locale_hint(),
        }
    }
}

/// Calls `ToString::to_string` on a `std::io::Error`. The text is whatever
/// the wrapped error prints; nothing is claimed of it.
#[verifier::external_body]
fn io_error_text(e: &std::io::Error) -> (r: String) {
    e.to_string()
}

/// `head`, then `body`, then `tail`.
fn framed(head: &str, body: &str, tail: &str) -> (r: String)
    ensures
        r@ == head@ + body@ + tail@,
{
    let mut s = head.to_owned();
    s.append(body);
    s.append(tail);
    s
}

/// `head`, then `body`.
fn prefixed(head: &str, body: &str) -> (r: String)
    ensures
        r@ == head@ + body@,
{
    let mut s = head.to_owned();
    s.append(body);
    s
}

fn locale_hint_text() -> (r: &'static str)
    ensures
        r@ == locale_hint(),
{
    "Must be in format `language_TERRITORY` (e.g. 'en_US')"
}

impl Error {
    /// The text to show for this error.
    pub fn message(&self) -> (r: String)
        ensures
            !(self@ is IO) ==> r@ == self@.message(),
    {
        match self {
            Error::Generic(s) => prefixed("Generic ", s.as_str()),
            Error::IO(e) => io_error_text(e),
            Error::UrlParseError(s) => prefixed("Failed to parse URL: ", s.as_str()),
            Error::InvalidHttpUrlScheme(s) => framed(
                "Invalid URL scheme '",
                s.as_str(),
                "'. Must be one of 'http'|'https'",
            ),
            Error::InvalidHttpsUrlScheme(s) => framed(
                "Invalid URL scheme '",
                s.as_str(),
                "'. URL must start with 'https://'",
            ),
            Error::InvalidImageExtension(s) => framed(
                "Invalid image extension '",
                s.as_str(),
                "'. Only png|jpg|jpeg|gif|webp images are allowed.",
            ),
            Error::IncompleteImageDimensions(s) => framed(
                "Incomplete visual object dimensions. Only found value for '",
                s,
                "', but values for both 'width' and 'height' are required",
            ),
            Error::MissingRequiredProperty(s) => framed(
                "Missing required property '",
                s.as_str(),
                "'",
            ),
            Error::InvalidLocale(s) => {
                let mut m = framed("Locale '", s.as_str(), "' is invalid. ");
                m.append(locale_hint_text());
                m
            },
            Error::InvalidLocaleFormat(s) => {
                let mut m = framed("Invalid Locale format '", s.as_str(), "'. ");
                m.append(locale_hint_text());
                m
            },
            Error::InvalidLocaleLength(s) => {
                let mut m = framed(
                    "Expected Locale value with length of 5 but actual length is '",
                    s.as_str(),
                    "'. ",
                );
                m.append(locale_hint_text());
                m
            },
            Error::InvalidLocaleLanguageCode(s) => {
                let mut m = framed("Locale '", s.as_str(), "' contains an invalid language code. ");
                m.append("Language codes must be in ISO 639-1 format.");
                m
            },
            Error::InvalidLocaleCountryCode(s) => {
                let mut m = framed("Locale '", s.as_str(), "' contains an invalid country code. ");
                m.append("Country codes must be in ISO 3166 format.");
                m
            },
            Error::EmptyLocale => prefixed("Locale is empty. ", locale_hint_text()),
        }
    }
}

} // verus!
