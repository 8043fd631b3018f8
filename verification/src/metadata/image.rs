//! The image that goes with a page.

use crate::convert::{
    fields_of, lemma_trees_of_push, opt_number_tree, opt_text_tree, opt_text_value,
    opt_u32_value, opt_url_tree, opt_url_value, put, record, trees_of, Tree, Value,
};
use crate::error::{Error, ErrorView};
use crate::text::{copy_opt_text, opt_text};
use crate::utils::{http_url_outcome, validate_http_url};
use crate::validator::{dimensions_fault, DimensionsValidator, SecureURLValidator, Validatable};
use crate::web_url::{copy_opt_url, opt_url, parsed_url, WebUrl, WebUrlView};
use vstd::prelude::*;

verus! {

/// An image and what is known of it.
#[derive(Debug)]
pub struct Image {
    /// Where the image is.
    pub url: Option<WebUrl>,
    /// Where the image is for pages that need HTTPS.
    pub secure_url: Option<WebUrl>,
    /// The image's MIME type.
    pub mimetype: Option<String>,
    /// What the image shows, in words (not a caption).
    pub alt: Option<String>,
    /// The width in pixels.
    pub width: Option<u32>,
    /// The height in pixels.
    pub height: Option<u32>,
}

/// An [`Image`] as contracts see it.
pub struct ImageView {
    pub url: Option<WebUrlView>,
    pub secure_url: Option<WebUrlView>,
    pub mimetype: Option<Seq<char>>,
    pub alt: Option<Seq<char>>,
    pub width: Option<u32>,
    pub height: Option<u32>,
}

impl View for Image {
    type V = ImageView;

    open spec fn view(&self) -> ImageView {
        ImageView {
            url: opt_url(self.url),
            secure_url: opt_url(self.secure_url),
            mimetype: opt_text(self.mimetype),
            alt: opt_text(self.alt),
            width: self.width,
            height: self.height,
        }
    }
}

/// A dimension as a document holds it.
pub open spec fn dimension_tree(d: Option<u32>) -> Tree {
    opt_number_tree(
        match d {
            Some(n) => Some(n as int),
            None => None,
        },
    )
}

impl ImageView {
    /// The image of which nothing is known.
    pub open spec fn empty() -> ImageView {
        ImageView {
            url: None,
            secure_url: None,
            mimetype: None,
            alt: None,
            width: None,
            height: None,
        }
    }

    /// The image of which only the URL is known.
    pub open spec fn of_url(url: WebUrlView) -> ImageView {
        ImageView { url: Some(url), ..ImageView::empty() }
    }

    /// The entries of this image's document, in order.
    pub open spec fn fields(self) -> Seq<(Seq<char>, Tree)> {
        seq![
            ("url"@, opt_url_tree(self.url)),
            ("secure_url"@, opt_url_tree(self.secure_url)),
            ("mimetype"@, opt_text_tree(self.mimetype)),
            ("alt"@, opt_text_tree(self.alt)),
            ("width"@, dimension_tree(self.width)),
            ("height"@, dimension_tree(self.height)),
        ]
    }

    /// This image as a document.
    pub open spec fn document(self) -> Tree {
        Tree::Record(self.fields())
    }
}

/// The views of a list of images, in order.
pub open spec fn image_views(items: Seq<Image>) -> Seq<ImageView> {
    items.map_values(|i: Image| i@)
}

/// The documents of a list of images, in order, as one list.
pub open spec fn images_tree(items: Seq<ImageView>) -> Tree {
    Tree::List(items.map_values(|i: ImageView| i.document()))
}

/// The failure of reading an image from a URL.
#[derive(Debug, PartialEq, Eq, Structural)]
pub struct ParseImageUrlError;

impl Default for Image {
    fn default() -> (r: Self)
        ensures
            r@ == ImageView::empty(),
    {
        Image { url: None, secure_url: None, mimetype: None, alt: None, width: None, height: None }
    }
}

impl Clone for Image {
    fn clone(&self) -> (r: Self)
        ensures
            r@ == self@,
    {
        Image {
            url: copy_opt_url(&self.url),
            secure_url: copy_opt_url(&self.secure_url),
            mimetype: copy_opt_text(&self.mimetype),
            alt: copy_opt_text(&self.alt),
            width: self.width,
            height: self.height,
        }
    }
}

impl Image {
    /// The image at a URL, with nothing else known of it.
    pub fn from_url(url: WebUrl) -> (r: Image)
        ensures
            r@ == ImageView::of_url(url@),
    {
        Image {
            url: Some(url),
            secure_url: None,
            mimetype: None,
            alt: None,
            width: None,
            height: None,
        }
    }

    /// The image at the URL that a text holds. The text must be an absolute
    /// URL with the scheme `http` or `https`.
    pub fn from_str(s: &str) -> (r: Result<Image, ParseImageUrlError>)
        ensures
            match http_url_outcome(s@, parsed_url(s@)) {
                Ok(url) => r matches Ok(image) && image@ == ImageView::of_url(url),
                Err(_) => r is Err,
            },
    {
        match validate_http_url(s) {
            Ok(url) => Ok(Image::from_url(url)),
            Err(_) => Err(ParseImageUrlError),
        }
    }

    /// Lays this image out as a document.
    pub fn to_document(&self) -> (r: Value)
        ensures
            r@ == self@.document(),
    {
        let mut entries: Vec<(String, Value)> = Vec::new();
        assert(fields_of(entries@) =~= Seq::<(Seq<char>, Tree)>::empty());
        put(&mut entries, "url", opt_url_value(&self.url));
        put(&mut entries, "secure_url", opt_url_value(&self.secure_url));
        put(&mut entries, "mimetype", opt_text_value(&self.mimetype));
        put(&mut entries, "alt", opt_text_value(&self.alt));
        put(&mut entries, "width", opt_u32_value(self.width));
        put(&mut entries, "height", opt_u32_value(self.height));
        assert(fields_of(entries@) =~= self@.fields());
        record(entries)
    }
}

impl std::str::FromStr for Image {
    type Err = ParseImageUrlError;

    /// Reads an image as [`Image::from_str`] does.
    fn from_str(s: &str) -> (r: Result<Self, Self::Err>)
        ensures
            match http_url_outcome(s@, parsed_url(s@)) {
                Ok(url) => r matches Ok(image) && image@ == ImageView::of_url(url),
                Err(_) => r is Err,
            },
    {
        Image::from_str(s)
    }
}

/// A copy of a list of images, in the same order.
pub fn copy_images(items: &Vec<Image>) -> (r: Vec<Image>)
    ensures
        image_views(r@) == image_views(items@),
{
    let mut out: Vec<Image> = Vec::new();
    let mut i: usize = 0;
    while i < items.len()
        invariant
            i <= items.len(),
            out@.len() == i,
            forall|j: int| 0 <= j < i ==> out@[j]@ == items@[j]@,
        decreases items.len() - i,
    {
        out.push(items[i].clone());
        i = i + 1;
    }
    assert(image_views(out@) =~= image_views(items@));
    out
}

/// Lays a list of images out as one list of documents.
pub fn images_value(items: &Vec<Image>) -> (r: Value)
    ensures
        r@ == images_tree(image_views(items@)),
{
    let mut out: Vec<Value> = Vec::new();
    let mut i: usize = 0;
    assert(trees_of(out@) =~= Seq::<Tree>::empty());
    while i < items.len()
        invariant
            i <= items.len(),
            out@.len() == i,
            trees_of(out@).len() == i,
            forall|j: int| 0 <= j < i ==> (#[trigger] trees_of(out@)[j]) == items@[j]@.document(),
        decreases items.len() - i,
    {
        let doc = items[i].to_document();
        proof {
            lemma_trees_of_push(out@, doc);
        }
        out.push(doc);
        i = i + 1;
    }
    assert(trees_of(out@) =~= image_views(items@).map_values(|i: ImageView| i.document()));
    Value::Array(out)
}

impl Validatable for Image {
    open spec fn defect(&self) -> Option<ErrorView> {
        dimensions_fault(self.width, self.height)
    }

    /// Checks that width and height come together.
    fn validate(&self) -> (r: Result<(), Error>) {
        self.validate_dimensions()
    }
}

impl DimensionsValidator for Image {
    open spec fn width_spec(&self) -> Option<u32> {
        self.width
    }

    open spec fn height_spec(&self) -> Option<u32> {
        self.height
    }

    fn width(&self) -> (r: Option<u32>) {
        self.width
    }

    fn height(&self) -> (r: Option<u32>) {
        self.height
    }
}

impl SecureURLValidator for Image {
    open spec fn secure_url_spec(&self) -> Option<WebUrlView> {
        opt_url(self.secure_url)
    }

    fn secure_url(&self) -> (r: Option<WebUrl>) {
        copy_opt_url(&self.secure_url)
    }
}

} // verus!
