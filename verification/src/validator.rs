//! Independent checks that a value can offer: a general one, one on a pair
//! of dimensions, and one on a secure URL. Each reports the first thing
//! that is wrong and nothing more.

use crate::error::{fault, Error, ErrorView};
use crate::text::same_text;
use crate::web_url::{opt_url, WebUrl, WebUrlView};
use vstd::prelude::*;

verus! {

/// A value that can check itself.
pub trait Validatable {
    /// What is wrong with this value, if anything.
    spec fn defect(&self) -> Option<ErrorView>;

    /// Checks this value and reports what is wrong with it.
    fn validate(&self) -> (r: Result<(), Error>)
        ensures
            fault(r) == self.defect(),
    ;
}

/// What is wrong with a pair of dimensions: where exactly one of the two is
/// present, the name of the one that is absent.
pub open spec fn dimensions_fault(width: Option<u32>, height: Option<u32>) -> Option<ErrorView> {
    if height is Some && width is None {
        Some(ErrorView::IncompleteImageDimensions("width"@))
    } else if width is Some && height is None {
        Some(ErrorView::IncompleteImageDimensions("height"@))
    } else {
        None
    }
}

/// Width and height pass the check exactly when both are present or both
/// are absent. Where only one is present, the error names the other.
pub proof fn lemma_dimensions_come_together(width: Option<u32>, height: Option<u32>)
    ensures
        dimensions_fault(width, height) is None <==> (width is Some <==> height is Some),
        width is Some && height is None ==> dimensions_fault(width, height) == Some(
            ErrorView::IncompleteImageDimensions("height"@),
        ),
        width is None && height is Some ==> dimensions_fault(width, height) == Some(
            ErrorView::IncompleteImageDimensions("width"@),
        ),
{
}

/// Accepts a pair of dimensions that are both present or both absent, and
/// names the absent one otherwise.
pub fn check_dimensions(width: Option<u32>, height: Option<u32>) -> (r: Result<(), Error>)
    ensures
        fault(r) == dimensions_fault(width, height),
{
    if height.is_some() && width.is_none() {
        Err(Error::IncompleteImageDimensions("width"))
    } else if width.is_some() && height.is_none() {
        Err(Error::IncompleteImageDimensions("height"))
    } else {
        Ok(())
    }
}

/// A value with a width and a height, which must come together.
pub trait DimensionsValidator {
    /// The width this value holds.
    spec fn width_spec(&self) -> Option<u32>;

    /// The height this value holds.
    spec fn height_spec(&self) -> Option<u32>;

    /// The width, in pixels.
    fn width(&self) -> (r: Option<u32>)
        ensures
            r == self.width_spec(),
    ;

    /// The height, in pixels.
    fn height(&self) -> (r: Option<u32>)
        ensures
            r == self.height_spec(),
    ;

    /// Checks that width and height are both present or both absent.
    fn validate_dimensions(&self) -> (r: Result<(), Error>)
        ensures
            fault(r) == dimensions_fault(self.width_spec(), self.height_spec()),
    {
        check_dimensions(self.width(), self.height())
    }
}

/// What is wrong with the scheme of a secure URL: anything but `https` is
/// reported by name.
pub open spec fn https_scheme_fault(scheme: Seq<char>) -> Option<ErrorView> {
    if scheme == "https"@ {
        None
    } else {
        Some(ErrorView::InvalidHttpsUrlScheme(scheme))
    }
}

/// What is wrong with an optional secure URL. An absent one is fine.
pub open spec fn secure_url_fault(url: Option<WebUrlView>) -> Option<ErrorView> {
    match url {
        None => None,
        Some(u) => https_scheme_fault(u.scheme),
    }
}

/// An absent secure URL passes the check. A present one passes exactly
/// when its scheme is `https`; with any other scheme the error names that
/// scheme.
pub proof fn lemma_secure_url_is_https(url: Option<WebUrlView>)
    ensures
        url is None ==> secure_url_fault(url) is None,
        url matches Some(u) ==> (secure_url_fault(url) is None <==> u.scheme == "https"@),
        url matches Some(u) ==> (u.scheme != "https"@ ==> secure_url_fault(url) == Some(
            ErrorView::InvalidHttpsUrlScheme(u.scheme),
        )),
{
}

/// Accepts the scheme `https` and reports any other.
pub fn check_https_scheme(scheme: &str) -> (r: Result<(), Error>)
    ensures
        fault(r) == https_scheme_fault(scheme@),
{
    if same_text(scheme, "https") {
        Ok(())
    } else {
        Err(Error::InvalidHttpsUrlScheme(scheme.to_owned()))
    }
}

/// A value that may hold a secure URL.
pub trait SecureURLValidator {
    /// The secure URL this value holds.
    spec fn secure_url_spec(&self) -> Option<WebUrlView>;

    /// The secure URL, if there is one.
    fn secure_url(&self) -> (r: Option<WebUrl>)
        ensures
            opt_url(r) == self.secure_url_spec(),
    ;

    /// Checks that the secure URL, if present, has the scheme `https`.
    fn validate_secure_url(&self) -> (r: Result<(), Error>)
        ensures
            fault(r) == secure_url_fault(self.secure_url_spec()),
    {
        match self.secure_url() {
            None => Ok(()),
            Some(url) => check_https_scheme(url.scheme()),
        }
    }
}

} // verus!
