//! The audio that goes with a page.

use crate::convert::{
    fields_of, lemma_trees_of_push, opt_text_tree, opt_text_value, opt_url_tree, opt_url_value,
    put, record, trees_of, Tree, Value,
};
use crate::error::{Error, ErrorView};
use crate::text::{copy_opt_text, opt_text};
use crate::utils::{http_url_outcome, validate_http_url};
use crate::validator::{SecureURLValidator, Validatable};
use crate::web_url::{copy_opt_url, opt_url, parsed_url, WebUrl, WebUrlView};
use vstd::prelude::*;

verus! {

/// An audio file and what is known of it.
#[derive(Debug)]
pub struct Audio {
    /// Where the audio is.
    pub url: Option<WebUrl>,
    /// Where the audio is for pages that need HTTPS.
    pub secure_url: Option<WebUrl>,
    /// The audio's MIME type.
    pub mimetype: Option<String>,
}

/// An [`Audio`] as contracts see it.
pub struct AudioView {
    pub url: Option<WebUrlView>,
    pub secure_url: Option<WebUrlView>,
    pub mimetype: Option<Seq<char>>,
}

impl View for Audio {
    type V = AudioView;

    open spec fn view(&self) -> AudioView {
        AudioView {
            url: opt_url(self.url),
            secure_url: opt_url(self.secure_url),
            mimetype: opt_text(self.mimetype),
        }
    }
}

impl AudioView {
    /// The audio of which nothing is known.
    pub open spec fn empty() -> AudioView {
        AudioView { url: None, secure_url: None, mimetype: None }
    }

    /// The audio of which only the URL is known.
    pub open spec fn of_url(url: WebUrlView) -> AudioView {
        AudioView { url: Some(url), ..AudioView::empty() }
    }

    /// The entries of this audio's document, in order.
    pub open spec fn fields(self) -> Seq<(Seq<char>, Tree)> {
        seq![
            ("url"@, opt_url_tree(self.url)),
            ("secure_url"@, opt_url_tree(self.secure_url)),
            ("mimetype"@, opt_text_tree(self.mimetype)),
        ]
    }

    /// This audio as a document.
    pub open spec fn document(self) -> Tree {
        Tree::Record(self.fields())
    }
}

/// The views of a list of audios, in order.
pub open spec fn audio_views(items: Seq<Audio>) -> Seq<AudioView> {
    items.map_values(|i: Audio| i@)
}

/// The documents of a list of audios, in order, as one list.
pub open spec fn audios_tree(items: Seq<AudioView>) -> Tree {
    Tree::List(items.map_values(|i: AudioView| i.document()))
}

impl Default for Audio {
    fn default() -> (r: Self)
        ensures
            r@ == AudioView::empty(),
    {
        Audio { url: None, secure_url: None, mimetype: None }
    }
}

impl Clone for Audio {
    fn clone(&self) -> (r: Self)
        ensures
            r@ == self@,
    {
        Audio {
            url: copy_opt_url(&self.url),
            secure_url: copy_opt_url(&self.secure_url),
            mimetype: copy_opt_text(&self.mimetype),
        }
    }
}

impl Audio {
    /// The audio at a URL, with nothing else known of it.
    pub fn from_url(url: WebUrl) -> (r: Audio)
        ensures
            r@ == AudioView::of_url(url@),
    {
        Audio { url: Some(url), secure_url: None, mimetype: None }
    }

    /// The audio at the URL that a text holds. The text must be an absolute
    /// URL with the scheme `http` or `https`; any other text is reported as
    /// [`Error::UrlParseError`] with that text.
    pub fn from_str(s: &str) -> (r: Result<Audio, Error>)
        ensures
            match http_url_outcome(s@, parsed_url(s@)) {
                Ok(url) => r matches Ok(audio) && audio@ == AudioView::of_url(url),
                Err(_) => r matches Err(e) && e@ == ErrorView::UrlParseError(s@),
            },
    {
        match validate_http_url(s) {
            Ok(url) => Ok(Audio::from_url(url)),
            Err(_) => Err(Error::UrlParseError(s.to_owned())),
        }
    }

    /// Lays this audio out as a document.
    pub fn to_document(&self) -> (r: Value)
        ensures
            r@ == self@.document(),
    {
        let mut entries: Vec<(String, Value)> = Vec::new();
        assert(fields_of(entries@) =~= Seq::<(Seq<char>, Tree)>::empty());
        put(&mut entries, "url", opt_url_value(&self.url));
        put(&mut entries, "secure_url", opt_url_value(&self.secure_url));
        put(&mut entries, "mimetype", opt_text_value(&self.mimetype));
        assert(fields_of(entries@) =~= self@.fields());
        record(entries)
    }
}

impl std::str::FromStr for Audio {
    type Err = Error;

    /// Reads an audio as [`Audio::from_str`] does.
    fn from_str(s: &str) -> (r: Result<Self, Self::Err>)
        ensures
            match http_url_outcome(s@, parsed_url(s@)) {
                Ok(url) => r matches Ok(audio) && audio@ == AudioView::of_url(url),
                Err(_) => r matches Err(e) && e@ == ErrorView::UrlParseError(s@),
            },
    {
        Audio::from_str(s)
    }
}

/// A copy of a list of audios, in the same order.
pub fn copy_audios(items: &Vec<Audio>) -> (r: Vec<Audio>)
    ensures
        audio_views(r@) == audio_views(items@),
{
    let mut out: Vec<Audio> = Vec::new();
    let mut i: usize = 0;
    while i < items.len()
        invariant
            i <= items.len(),
            out@.len() == i,
            forall|j: int| 0 <= j < i ==> out@[j]@ == items@[j]@,
        decreases items.len() - i,
    {
        out.push(items[i].clone());
        i = i + 1;
    }
    assert(audio_views(out@) =~= audio_views(items@));
    out
}

/// Lays a list of audios out as one list of documents.
pub fn audios_value(items: &Vec<Audio>) -> (r: Value)
    ensures
        r@ == audios_tree(audio_views(items@)),
{
    let mut out: Vec<Value> = Vec::new();
    let mut i: usize = 0;
    assert(trees_of(out@) =~= Seq::<Tree>::empty());
    while i < items.len()
        invariant
            i <= items.len(),
            out@.len() == i,
            trees_of(out@).len() == i,
            forall|j: int| 0 <= j < i ==> (#[trigger] trees_of(out@)[j]) == items@[j]@.document(),
        decreases items.len() - i,
    {
        let doc = items[i].to_document();
        proof {
            lemma_trees_of_push(out@, doc);
        }
        out.push(doc);
        i = i + 1;
    }
    assert(trees_of(out@) =~= audio_views(items@).map_values(|i: AudioView| i.document()));
    Value::Array(out)
}

impl Validatable for Audio {
    /// An audio has nothing that could be wrong.
    open spec fn defect(&self) -> Option<ErrorView> {
        None
    }

    fn validate(&self) -> (r: Result<(), Error>) {
        Ok(())
    }
}

impl SecureURLValidator for Audio {
    open spec fn secure_url_spec(&self) -> Option<WebUrlView> {
        opt_url(self.secure_url)
    }

    fn secure_url(&self) -> (r: Option<WebUrl>) {
        copy_opt_url(&self.secure_url)
    }
}

} // verus!
