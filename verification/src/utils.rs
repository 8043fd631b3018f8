//! Checks on plain strings: media file extensions, locales, and HTTP URLs.
//!
//! The tables and the pattern matcher are outside crates' work. Each check
//! here decides what to report from their answers, in a fixed order.

use crate::error::{fault, Error, ErrorView};
use crate::text::{decimal, decimal_text, same_text};
use crate::web_url::{outcome, parsed_url, WebUrl, WebUrlView};
use vstd::prelude::*;

verus! {

/// The image file extensions that are accepted.
pub const ALLOWED_MEDIA_FILE_EXT: [&'static str; 5] = ["png", "jpg", "jpeg", "gif", "webp"];

/// What `str::to_lowercase` returns for a text.
pub uninterp spec fn unicode_lowercase(s: Seq<char>) -> Seq<char>;

/// What the `regex` crate answers for a pattern and a text: nothing where
/// `Regex::new` rejects the pattern, otherwise what `Regex::is_match` returns.
pub uninterp spec fn pattern_match(pattern: Seq<char>, text: Seq<char>) -> Option<bool>;

/// Whether `isolang::Language::from_639_1` finds a language for a code.
pub uninterp spec fn language_code_known(code: Seq<char>) -> bool;

/// Whether `isocountry::CountryCode::for_alpha2` finds a country for a code.
pub uninterp spec fn country_code_known(code: Seq<char>) -> bool;

/// Calls `str::to_lowercase`. The contract only names the result.
#[verifier::external_body]
fn lowercase(s: &str) -> (r: String)
    ensures
        r@ == unicode_lowercase(s@),
{
    s.to_lowercase()
}

/// Calls `regex::Regex::new` on the pattern and, where that succeeds,
/// `Regex::is_match` on the text. The contract only names the outcome.
#[verifier::external_body]
fn regex_is_match(pattern: &str, text: &str) -> (r: Option<bool>)
    ensures
        r == pattern_match(pattern@, text@),
{
    match regex::Regex::new(pattern) {
        Ok(re) => Some(re.is_match(text)),
        Err(_) => None,
    }
}

/// Calls `isolang::Language::from_639_1` and reports whether it found a
/// language. The contract only names the answer.
#[verifier::external_body]
fn is_language_code(code: &str) -> (r: bool)
    ensures
        r == language_code_known(code@),
{
    isolang::Language::from_639_1(code).is_some()
}

/// Calls `isocountry::CountryCode::for_alpha2` and reports whether it found
/// a country. The contract only names the answer.
#[verifier::external_body]
fn is_country_code(code: &str) -> (r: bool)
    ensures
        r == country_code_known(code@),
{
    isocountry::CountryCode::for_alpha2(code).is_ok()
}

/// Where a file name's extension starts: just after its last `.`, or at
/// the start of the name when it has none.
pub open spec fn extension_start(name: Seq<char>) -> nat
    decreases name.len(),
{
    if name.len() == 0 {
        0
    } else if name.last() == '.' {
        name.len()
    } else {
        extension_start(name.drop_last())
    }
}

/// A file name's extension: what follows its last `.`, or the whole name
/// when it has none.
pub open spec fn extension(name: Seq<char>) -> Seq<char> {
    name.subrange(extension_start(name) as int, name.len() as int)
}

/// Whether an extension, as written, is one of the accepted ones.
pub open spec fn allowed_extension(ext: Seq<char>) -> bool {
    exists|i: int| 0 <= i < 5 && #[trigger] ALLOWED_MEDIA_FILE_EXT[i]@ == ext
}

/// The extension of a file name.
pub fn file_extension(filename: &str) -> (r: &str)
    ensures
        r@ == extension(filename@),
{
    let n = filename.unicode_len();
    let mut start: usize = 0;
    let mut i: usize = 0;
    for c in it: filename.chars()
        invariant
            n == filename@.len(),
            it.seq() == filename@,
            i == it.index(),
            i <= n,
            start <= i,
            start == extension_start(filename@.take(i as int)),
    {
        proof {
            let head = filename@.take(i + 1);
            assert(head.drop_last() =~= filename@.take(i as int));
            assert(head.last() == c);
        }
        i = i + 1;
        if c == '.' {
            start = i;
        }
    }
    assert(filename@.take(n as int) =~= filename@);
    filename.substring_char(start, n)
}

/// Whether an extension, as written, is one of the accepted ones.
pub fn is_allowed_media_ext(ext: &str) -> (r: bool)
    ensures
        r == allowed_extension(ext@),
{
    let mut i: usize = 0;
    while i < 5
        invariant
            i <= 5,
            forall|j: int| 0 <= j < i ==> #[trigger] ALLOWED_MEDIA_FILE_EXT[j]@ != ext@,
        decreases 5 - i,
    {
        if same_text(ALLOWED_MEDIA_FILE_EXT[i], ext) {
            return true;
        }
        i = i + 1;
    }
    false
}

/// Whether a file name ends in an accepted image extension, in any case.
pub fn is_valid_image_ext(filename: &str) -> (r: bool)
    ensures
        r == allowed_extension(unicode_lowercase(extension(filename@))),
{
    let ext = lowercase(file_extension(filename));
    is_allowed_media_ext(ext.as_str())
}

/// The pattern a locale must match.
pub open spec fn locale_pattern() -> Seq<char> {
    "^[a-zA-Z]{2}_[a-zA-Z]{2}$"@
}

/// Whether the pattern matcher accepts a text as a locale. A matcher that
/// gives no answer accepts nothing.
pub open spec fn locale_shape(locale: Seq<char>) -> bool {
    pattern_match(locale_pattern(), locale) == Some(true)
}

/// The language part of a five-character locale.
pub open spec fn language_part(locale: Seq<char>) -> Seq<char> {
    locale.subrange(0, 2)
}

/// The territory part of a five-character locale.
pub open spec fn territory_part(locale: Seq<char>) -> Seq<char> {
    locale.subrange(3, 5)
}

/// What is wrong with a locale, given the answers of the three outside
/// checks. The layers are tried in order and the first that fails decides:
/// empty, length, shape, language, territory.
pub open spec fn locale_fault_given(
    locale: Seq<char>,
    shape_ok: bool,
    language_ok: bool,
    country_ok: bool,
) -> Option<ErrorView> {
    if locale.len() == 0 {
        Some(ErrorView::EmptyLocale)
    } else if locale.len() != 5 {
        Some(ErrorView::InvalidLocaleLength(decimal(locale.len())))
    } else if !shape_ok {
        Some(ErrorView::InvalidLocaleFormat(locale))
    } else if !language_ok {
        Some(ErrorView::InvalidLocaleLanguageCode(language_part(locale)))
    } else if !country_ok {
        Some(ErrorView::InvalidLocaleCountryCode(territory_part(locale)))
    } else {
        None
    }
}

/// What is wrong with a locale, if anything.
pub open spec fn locale_fault(locale: Seq<char>) -> Option<ErrorView> {
    if locale.len() == 5 {
        locale_fault_given(
            locale,
            locale_shape(locale),
            language_code_known(language_part(locale)),
            country_code_known(territory_part(locale)),
        )
    } else {
        locale_fault_given(locale, false, false, false)
    }
}

/// A locale is valid exactly when it has five characters, the shape
/// `xx_YY`, a known language and a known territory.
pub proof fn lemma_valid_locale(locale: Seq<char>)
    ensures
        locale_fault(locale) is None <==> {
            &&& locale.len() == 5
            &&& locale_shape(locale)
            &&& language_code_known(language_part(locale))
            &&& country_code_known(territory_part(locale))
        },
{
}

/// Every way in which a locale can be wrong has an error of its own: the
/// empty text, a wrong length, a wrong shape, an unknown language and an
/// unknown territory, in this order. No locale is reported with an error
/// that does not say which of these it is.
pub proof fn lemma_locale_fault_kinds(locale: Seq<char>)
    ensures
        locale.len() == 0 ==> locale_fault(locale) == Some(ErrorView::EmptyLocale),
        locale.len() != 0 && locale.len() != 5 ==> locale_fault(locale) == Some(
            ErrorView::InvalidLocaleLength(decimal(locale.len())),
        ),
        locale.len() == 5 && !locale_shape(locale) ==> locale_fault(locale) == Some(
            ErrorView::InvalidLocaleFormat(locale),
        ),
        locale.len() == 5 && locale_shape(locale) && !language_code_known(language_part(locale))
            ==> locale_fault(locale) == Some(
            ErrorView::InvalidLocaleLanguageCode(language_part(locale)),
        ),
        locale.len() == 5 && locale_shape(locale) && language_code_known(language_part(locale))
            && !country_code_known(territory_part(locale)) ==> locale_fault(locale) == Some(
            ErrorView::InvalidLocaleCountryCode(territory_part(locale)),
        ),
        locale_fault(locale) matches Some(e) ==> e is EmptyLocale || e is InvalidLocaleLength
            || e is InvalidLocaleFormat || e is InvalidLocaleLanguageCode
            || e is InvalidLocaleCountryCode,
{
}

/// Whether a text has the shape of a locale, `xx_YY`.
pub fn is_valid_locale_format(locale: &str) -> (r: bool)
    ensures
        r == locale_shape(locale@),
{
    match regex_is_match("^[a-zA-Z]{2}_[a-zA-Z]{2}$", locale) {
        Some(found) => found,
        None => false,
    }
}

/// Decides what to report for a locale from the answers of the three
/// outside checks.
pub fn judge_locale(locale: &str, shape_ok: bool, language_ok: bool, country_ok: bool) -> (r:
    Result<(), Error>)
    ensures
        fault(r) == locale_fault_given(locale@, shape_ok, language_ok, country_ok),
{
    let n = locale.unicode_len();
    if n == 0 {
        Err(Error::EmptyLocale)
    } else if n != 5 {
        Err(Error::InvalidLocaleLength(decimal_text(n as u64)))
    } else if !shape_ok {
        Err(Error::InvalidLocaleFormat(locale.to_owned()))
    } else if !language_ok {
        Err(Error::InvalidLocaleLanguageCode(locale.substring_char(0, 2).to_owned()))
    } else if !country_ok {
        Err(Error::InvalidLocaleCountryCode(locale.substring_char(3, 5).to_owned()))
    } else {
        Ok(())
    }
}

/// Checks that a text is a locale in the form `language_TERRITORY`, such as
/// `en_US`: five characters, shaped `xx_YY`, with a known ISO 639-1
/// language and a known ISO 3166 territory.
pub fn validate_locale(locale: &str) -> (r: Result<(), Error>)
    ensures
        fault(r) == locale_fault(locale@),
{
    if locale.unicode_len() == 5 {
        let shape_ok = is_valid_locale_format(locale);
        let language_ok = is_language_code(locale.substring_char(0, 2));
        let country_ok = is_country_code(locale.substring_char(3, 5));
        judge_locale(locale, shape_ok, language_ok, country_ok)
    } else {
        judge_locale(locale, false, false, false)
    }
}

/// What to report for a URL's scheme where only `http` and `https` are
/// accepted.
pub open spec fn http_scheme_fault(scheme: Seq<char>) -> Option<ErrorView> {
    if scheme == "http"@ || scheme == "https"@ {
        None
    } else {
        Some(ErrorView::InvalidHttpUrlScheme(scheme))
    }
}

/// What validating a text as an HTTP URL returns, given what the parser
/// makes of it.
pub open spec fn http_url_outcome(
    input: Seq<char>,
    parsed: Option<(Seq<char>, Seq<char>)>,
) -> Result<WebUrlView, ErrorView> {
    match parsed {
        None => Err(ErrorView::UrlParseError(input)),
        Some((href, scheme)) => match http_scheme_fault(scheme) {
            None => Ok(WebUrlView { href, scheme }),
            Some(e) => Err(e),
        },
    }
}

/// Accepts the schemes `http` and `https`, and reports any other.
pub fn check_http_scheme(scheme: &str) -> (r: Result<(), Error>)
    ensures
        fault(r) == http_scheme_fault(scheme@),
{
    if same_text(scheme, "http") || same_text(scheme, "https") {
        Ok(())
    } else {
        Err(Error::InvalidHttpUrlScheme(scheme.to_owned()))
    }
}

/// Parses an absolute URL and accepts it only with the scheme `http` or
/// `https`.
pub fn validate_http_url(url: &str) -> (r: Result<WebUrl, Error>)
    ensures
        outcome(r) == http_url_outcome(url@, parsed_url(url@)),
{
    match WebUrl::parse(url) {
        Err(e) => Err(e),
        Ok(u) => match check_http_scheme(u.scheme()) {
            Err(e) => Err(e),
            Ok(_) => Ok(u),
        },
    }
}

} // verus!
