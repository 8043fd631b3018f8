//! The video that goes with a page.

use crate::convert::{
    fields_of, lemma_trees_of_push, opt_text_tree, opt_text_value, opt_u32_value, opt_url_tree,
    opt_url_value, put, record, trees_of, Tree, Value,
};
use crate::error::{Error, ErrorView};
use crate::metadata::image::dimension_tree;
use crate::text::{copy_opt_text, opt_text};
use crate::utils::{http_url_outcome, validate_http_url};
use crate::validator::{dimensions_fault, DimensionsValidator, SecureURLValidator, Validatable};
use crate::web_url::{copy_opt_url, opt_url, parsed_url, WebUrl, WebUrlView};
use vstd::prelude::*;

verus! {

/// A video and what is known of it.
#[derive(Debug)]
pub struct Video {
    /// Where the video is.
    pub url: Option<WebUrl>,
    /// Where the video is for pages that need HTTPS.
    pub secure_url: Option<WebUrl>,
    /// The video's MIME type.
    pub mimetype: Option<String>,
    /// What the video shows, in words (not a caption).
    pub alt: Option<String>,
    /// The width in pixels.
    pub width: Option<u32>,
    /// The height in pixels.
    pub height: Option<u32>,
}

/// A [`Video`] as contracts see it.
pub struct VideoView {
    pub url: Option<WebUrlView>,
    pub secure_url: Option<WebUrlView>,
    pub mimetype: Option<Seq<char>>,
    pub alt: Option<Seq<char>>,
    pub width: Option<u32>,
    pub height: Option<u32>,
}

impl View for Video {
    type V = VideoView;

    open spec fn view(&self) -> VideoView {
        VideoView {
            url: opt_url(self.url),
            secure_url: opt_url(self.secure_url),
            mimetype: opt_text(self.mimetype),
            alt: opt_text(self.alt),
            width: self.width,
            height: self.height,
        }
    }
}

impl VideoView {
    /// The video of which nothing is known.
    pub open spec fn empty() -> VideoView {
        VideoView {
            url: None,
            secure_url: None,
            mimetype: None,
            alt: None,
            width: None,
            height: None,
        }
    }

    /// The video of which only the URL is known.
    pub open spec fn of_url(url: WebUrlView) -> VideoView {
        VideoView { url: Some(url), ..VideoView::empty() }
    }

    /// The entries of this video's document, in order.
    pub open spec fn fields(self) -> Seq<(Seq<char>, Tree)> {
        seq![
            ("url"@, opt_url_tree(self.url)),
            ("secure_url"@, opt_url_tree(self.secure_url)),
            ("mimetype"@, opt_text_tree(self.mimetype)),
            ("alt"@, opt_text_tree(self.alt)),
            ("width"@, dimension_tree(self.width)),
            ("height"@, dimension_tree(self.height)),
        ]
    }

    /// This video as a document.
    pub open spec fn document(self) -> Tree {
        Tree::Record(self.fields())
    }
}

/// The views of a list of videos, in order.
pub open spec fn video_views(items: Seq<Video>) -> Seq<VideoView> {
    items.map_values(|i: Video| i@)
}

/// The documents of a list of videos, in order, as one list.
pub open spec fn videos_tree(items: Seq<VideoView>) -> Tree {
    Tree::List(items.map_values(|i: VideoView| i.document()))
}

/// The failure of reading a video from a URL.
#[derive(Debug, PartialEq, Eq, Structural)]
pub struct ParseVideoUrlError;

impl Default for Video {
    fn default() -> (r: Self)
        ensures
            r@ == VideoView::empty(),
    {
        Video { url: None, secure_url: None, mimetype: None, alt: None, width: None, height: None }
    }
}

impl Clone for Video {
    fn clone(&self) -> (r: Self)
        ensures
            r@ == self@,
    {
        Video {
            url: copy_opt_url(&self.url),
            secure_url: copy_opt_url(&self.secure_url),
            mimetype: copy_opt_text(&self.mimetype),
            alt: copy_opt_text(&self.alt),
            width: self.width,
            height: self.height,
        }
    }
}

impl Video {
    /// The video at a URL, with nothing else known of it.
    pub fn from_url(url: WebUrl) -> (r: Video)
        ensures
            r@ == VideoView::of_url(url@),
    {
        Video {
            url: Some(url),
            secure_url: None,
            mimetype: None,
            alt: None,
            width: None,
            height: None,
        }
    }

    /// The video at the URL that a text holds. The text must be an absolute
    /// URL with the scheme `http` or `https`; any other text is reported as
    /// [`Error::UrlParseError`] with that text.
    pub fn from_str(s: &str) -> (r: Result<Video, Error>)
        ensures
            match http_url_outcome(s@, parsed_url(s@)) {
                Ok(url) => r matches Ok(video) && video@ == VideoView::of_url(url),
                Err(_) => r matches Err(e) && e@ == ErrorView::UrlParseError(s@),
            },
    {
        match validate_http_url(s) {
            Ok(url) => Ok(Video::from_url(url)),
            Err(_) => Err(Error::UrlParseError(s.to_owned())),
        }
    }

    /// Lays this video out as a document.
    pub fn to_document(&self) -> (r: Value)
        ensures
            r@ == self@.document(),
    {
        let mut entries: Vec<(String, Value)> = Vec::new();
        assert(fields_of(entries@) =~= Seq::<(Seq<char>, Tree)>::empty());
        put(&mut entries, "url", opt_url_value(&self.url));
        put(&mut entries, "secure_url", opt_url_value(&self.secure_url));
        put(&mut entries, "mimetype", opt_text_value(&self.mimetype));
        put(&mut entries, "alt", opt_text_value(&self.alt));
        put(&mut entries, "width", opt_u32_value(self.width));
        put(&mut entries, "height", opt_u32_value(self.height));
        assert(fields_of(entries@) =~= self@.fields());
        record(entries)
    }
}

impl std::str::FromStr for Video {
    type Err = Error;

    /// Reads a video as [`Video::from_str`] does.
    fn from_str(s: &str) -> (r: Result<Self, Self::Err>)
        ensures
            match http_url_outcome(s@, parsed_url(s@)) {
                Ok(url) => r matches Ok(video) && video@ == VideoView::of_url(url),
                Err(_) => r matches Err(e) && e@ == ErrorView::UrlParseError(s@),
            },
    {
        Video::from_str(s)
    }
}

/// A copy of a list of videos, in the same order.
pub fn copy_videos(items: &Vec<Video>) -> (r: Vec<Video>)
    ensures
        video_views(r@) == video_views(items@),
{
    let mut out: Vec<Video> = Vec::new();
    let mut i: usize = 0;
    while i < items.len()
        invariant
            i <= items.len(),
            out@.len() == i,
            forall|j: int| 0 <= j < i ==> out@[j]@ == items@[j]@,
        decreases items.len() - i,
    {
        out.push(items[i].clone());
        i = i + 1;
    }
    assert(video_views(out@) =~= video_views(items@));
    out
}

/// Lays a list of videos out as one list of documents.
pub fn videos_value(items: &Vec<Video>) -> (r: Value)
    ensures
        r@ == videos_tree(video_views(items@)),
{
    let mut out: Vec<Value> = Vec::new();
    let mut i: usize = 0;
    assert(trees_of(out@) =~= Seq::<Tree>::empty());
    while i < items.len()
        invariant
            i <= items.len(),
            out@.len() == i,
            trees_of(out@).len() == i,
            forall|j: int| 0 <= j < i ==> (#[trigger] trees_of(out@)[j]) == items@[j]@.document(),
        decreases items.len() - i,
    {
        let doc = items[i].to_document();
        proof {
            lemma_trees_of_push(out@, doc);
        }
        out.push(doc);
        i = i + 1;
    }
    assert(trees_of(out@) =~= video_views(items@).map_values(|i: VideoView| i.document()));
    Value::Array(out)
}

impl Validatable for Video {
    open spec fn defect(&self) -> Option<ErrorView> {
        dimensions_fault(self.width, self.height)
    }

    /// Checks that width and height come together.
    fn validate(&self) -> (r: Result<(), Error>) {
        self.validate_dimensions()
    }
}

impl DimensionsValidator for Video {
    open spec fn width_spec(&self) -> Option<u32> {
        self.width
    }

    open spec fn height_spec(&self) -> Option<u32> {
        self.height
    }

    fn width(&self) -> (r: Option<u32>) {
        self.width
    }

    fn height(&self) -> (r: Option<u32>) {
        self.height
    }
}

impl SecureURLValidator for Video {
    open spec fn secure_url_spec(&self) -> Option<WebUrlView> {
        opt_url(self.secure_url)
    }

    fn secure_url(&self) -> (r: Option<WebUrl>) {
        copy_opt_url(&self.secure_url)
    }
}

} // verus!
