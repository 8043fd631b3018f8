//! A page's metadata and the builder that fills it.
//!
//! Setters that take any text store it. Setters that take a URL or a
//! locale check it first: a text that fails the check is reported and
//! leaves the builder as it was.

use crate::convert::{
    fields_of, opt_text_list_tree, opt_text_list_value, opt_text_tree, opt_text_value, put,
    put_all, record, text_value, ToHTML, Tree, Value,
};
use crate::error::{fault, Error, ErrorView};
use crate::metadata::audio::{audio_views, audios_tree, audios_value, copy_audios, AudioView};
use crate::metadata::image::{copy_images, image_views, images_tree, images_value, ImageView};
use crate::metadata::video::{copy_videos, video_views, videos_tree, videos_value, VideoView};
use crate::metadata::{Audio, Image, Video};
use crate::object_type::{determiner_tree, determiner_value, Determiner, ObjectType};
use crate::text::{copy_opt_text, copy_opt_texts, opt_text, opt_texts, texts};
use crate::utils::{http_url_outcome, locale_fault, validate_http_url, validate_locale};
use crate::web_url::parsed_url;
use vstd::prelude::*;

verus! {

/// What is known of a page, whatever type of object it describes.
#[derive(Debug)]
pub struct Metadata {
    /// The canonical URL of the page: the one without session variables,
    /// user parameters or counters.
    pub url: Option<String>,
    /// The title, without branding such as the site's name.
    pub title: Option<String>,
    /// A description of the page in a sentence or two.
    pub description: Option<String>,
    /// The name of the site the page belongs to.
    pub site_name: Option<String>,
    /// The word that goes before the title in a sentence.
    pub determiner: Option<Determiner>,
    /// The locale of the page, as `language_TERRITORY`.
    pub locale: Option<String>,
    /// Other locales the page is available in.
    pub locale_alternate: Option<Vec<String>>,
    /// The images that represent the page, in the order they were added.
    pub images: Vec<Image>,
    /// The videos that go with the page, in the order they were added.
    pub videos: Vec<Video>,
    /// The audio that goes with the page, in the order it was added.
    pub audios: Vec<Audio>,
}

/// A [`Metadata`] as contracts see it.
pub struct MetadataView {
    pub url: Option<Seq<char>>,
    pub title: Option<Seq<char>>,
    pub description: Option<Seq<char>>,
    pub site_name: Option<Seq<char>>,
    pub determiner: Option<Determiner>,
    pub locale: Option<Seq<char>>,
    pub locale_alternate: Option<Seq<Seq<char>>>,
    pub images: Seq<ImageView>,
    pub videos: Seq<VideoView>,
    pub audios: Seq<AudioView>,
}

impl View for Metadata {
    type V = MetadataView;

    open spec fn view(&self) -> MetadataView {
        MetadataView {
            url: opt_text(self.url),
            title: opt_text(self.title),
            description: opt_text(self.description),
            site_name: opt_text(self.site_name),
            determiner: self.determiner,
            locale: opt_text(self.locale),
            locale_alternate: opt_texts(self.locale_alternate),
            images: image_views(self.images@),
            videos: video_views(self.videos@),
            audios: audio_views(self.audios@),
        }
    }
}

impl MetadataView {
    /// The page of which nothing is known.
    pub open spec fn empty() -> MetadataView {
        MetadataView {
            url: None,
            title: None,
            description: None,
            site_name: None,
            determiner: None,
            locale: None,
            locale_alternate: None,
            images: Seq::empty(),
            videos: Seq::empty(),
            audios: Seq::empty(),
        }
    }

    /// This page with the given title.
    pub open spec fn with_title(self, title: Seq<char>) -> MetadataView {
        MetadataView { title: Some(title), ..self }
    }

    /// This page with the given description.
    pub open spec fn with_description(self, description: Seq<char>) -> MetadataView {
        MetadataView { description: Some(description), ..self }
    }

    /// This page with the given canonical URL.
    pub open spec fn with_url(self, url: Seq<char>) -> MetadataView {
        MetadataView { url: Some(url), ..self }
    }

    /// This page with the given site name.
    pub open spec fn with_site_name(self, site_name: Seq<char>) -> MetadataView {
        MetadataView { site_name: Some(site_name), ..self }
    }

    /// This page with the given determiner, or with none.
    pub open spec fn with_determiner(self, determiner: Option<Determiner>) -> MetadataView {
        MetadataView { determiner, ..self }
    }

    /// This page with the given locale.
    pub open spec fn with_locale(self, locale: Seq<char>) -> MetadataView {
        MetadataView { locale: Some(locale), ..self }
    }

    /// This page with one more alternate locale, after those it has.
    pub open spec fn with_locale_alternate(self, locale: Seq<char>) -> MetadataView {
        MetadataView {
            locale_alternate: Some(
                match self.locale_alternate {
                    Some(others) => others.push(locale),
                    None => seq![locale],
                },
            ),
            ..self
        }
    }

    /// This page with one more image, after those it has.
    pub open spec fn with_image(self, image: ImageView) -> MetadataView {
        MetadataView { images: self.images.push(image), ..self }
    }

    /// This page with one more video, after those it has.
    pub open spec fn with_video(self, video: VideoView) -> MetadataView {
        MetadataView { videos: self.videos.push(video), ..self }
    }

    /// This page with one more audio, after those it has.
    pub open spec fn with_audio(self, audio: AudioView) -> MetadataView {
        MetadataView { audios: self.audios.push(audio), ..self }
    }

    /// The first required property that is absent: the title, then the
    /// URL, then the description.
    pub open spec fn missing_property(self) -> Option<Seq<char>> {
        if self.title is None {
            Some("title"@)
        } else if self.url is None {
            Some("url"@)
        } else if self.description is None {
            Some("description"@)
        } else {
            None
        }
    }

    /// What is wrong with this page: the first required property that is absent.
    pub open spec fn defect(self) -> Option<ErrorView> {
        match self.missing_property() {
            Some(name) => Some(ErrorView::MissingRequiredProperty(name)),
            None => None,
        }
    }

    /// Nothing is wrong with a page exactly when it has a title, a URL and
    /// a description, whatever else is known of it.
    pub proof fn lemma_valid_page(self)
        ensures
            self.defect() is None <==> {
                &&& self.title is Some
                &&& self.url is Some
                &&& self.description is Some
            },
    {
    }

    /// The entries of this page's document, in order.
    pub open spec fn fields(self) -> Seq<(Seq<char>, Tree)> {
        seq![
            ("og:url"@, opt_text_tree(self.url)),
            ("og:title"@, opt_text_tree(self.title)),
            ("og:description"@, opt_text_tree(self.description)),
            ("og:site_name"@, opt_text_tree(self.site_name)),
            ("og:determiner"@, determiner_tree(self.determiner)),
            ("og:locale"@, opt_text_tree(self.locale)),
            ("og:locale:alternate"@, opt_text_list_tree(self.locale_alternate)),
            ("images"@, images_tree(self.images)),
            ("videos"@, videos_tree(self.videos)),
            ("audios"@, audios_tree(self.audios)),
        ]
    }

    /// This page as a document.
    pub open spec fn document(self) -> Tree {
        Tree::Record(self.fields())
    }
}

impl Default for Metadata {
    fn default() -> (r: Self)
        ensures
            r@ == MetadataView::empty(),
    {
        let r = Metadata {
            url: None,
            title: None,
            description: None,
            site_name: None,
            determiner: None,
            locale: None,
            locale_alternate: None,
            images: Vec::new(),
            videos: Vec::new(),
            audios: Vec::new(),
        };
        assert(r@.images =~= Seq::<ImageView>::empty());
        assert(r@.videos =~= Seq::<VideoView>::empty());
        assert(r@.audios =~= Seq::<AudioView>::empty());
        r
    }
}

impl Clone for Metadata {
    fn clone(&self) -> (r: Self)
        ensures
            r@ == self@,
    {
        Metadata {
            url: copy_opt_text(&self.url),
            title: copy_opt_text(&self.title),
            description: copy_opt_text(&self.description),
            site_name: copy_opt_text(&self.site_name),
            determiner: self.determiner,
            locale: copy_opt_text(&self.locale),
            locale_alternate: copy_opt_texts(&self.locale_alternate),
            images: copy_images(&self.images),
            videos: copy_videos(&self.videos),
            audios: copy_audios(&self.audios),
        }
    }
}

impl Metadata {
    /// The entries of this page's document, in order.
    pub fn entries(&self) -> (r: Vec<(String, Value)>)
        ensures
            fields_of(r@) == self@.fields(),
    {
        let mut entries: Vec<(String, Value)> = Vec::new();
        assert(fields_of(entries@) =~= Seq::<(Seq<char>, Tree)>::empty());
        put(&mut entries, "og:url", opt_text_value(&self.url));
        put(&mut entries, "og:title", opt_text_value(&self.title));
        put(&mut entries, "og:description", opt_text_value(&self.description));
        put(&mut entries, "og:site_name", opt_text_value(&self.site_name));
        put(&mut entries, "og:determiner", determiner_value(self.determiner));
        put(&mut entries, "og:locale", opt_text_value(&self.locale));
        put(&mut entries, "og:locale:alternate", opt_text_list_value(&self.locale_alternate));
        put(&mut entries, "images", images_value(&self.images));
        put(&mut entries, "videos", videos_value(&self.videos));
        put(&mut entries, "audios", audios_value(&self.audios));
        assert(fields_of(entries@) =~= self@.fields());
        entries
    }
}

impl Validate for Metadata {
    open spec fn defect(&self) -> Option<ErrorView> {
        self@.defect()
    }

    /// Checks that the title, the URL and the description are present, and
    /// reports the first of them that is not.
    fn validate(&self) -> (r: Result<(), Error>) {
        if self.title.is_none() {
            Err(Error::MissingRequiredProperty("title".to_owned()))
        } else if self.url.is_none() {
            Err(Error::MissingRequiredProperty("url".to_owned()))
        } else if self.description.is_none() {
            Err(Error::MissingRequiredProperty("description".to_owned()))
        } else {
            Ok(())
        }
    }
}

impl ToHTML for Metadata {
    open spec fn document(&self) -> Tree {
        self@.document()
    }

    fn to_document(&self) -> (r: Value) {
        record(self.entries())
    }
}

/// Fills a [`Metadata`] step by step, for an object of a given type.
#[derive(Debug)]
pub struct MetadataBuilder {
    /// The type of object the page describes.
    pub object_type: ObjectType,
    /// What is known of the page so far.
    pub metadata: Metadata,
}

/// A [`MetadataBuilder`] as contracts see it.
pub struct MetadataBuilderView {
    pub object_type: ObjectType,
    pub metadata: MetadataView,
}

impl View for MetadataBuilder {
    type V = MetadataBuilderView;

    open spec fn view(&self) -> MetadataBuilderView {
        MetadataBuilderView { object_type: self.object_type, metadata: self.metadata@ }
    }
}

impl MetadataBuilderView {
    /// The builder for an object of the given type, with nothing known yet.
    pub open spec fn of_type(object_type: ObjectType) -> MetadataBuilderView {
        MetadataBuilderView { object_type, metadata: MetadataView::empty() }
    }

    /// The builder of a new page: a website with nothing known yet.
    pub open spec fn empty() -> MetadataBuilderView {
        MetadataBuilderView::of_type(ObjectType::Website)
    }

    /// This builder with other metadata.
    pub open spec fn with_metadata(self, metadata: MetadataView) -> MetadataBuilderView {
        MetadataBuilderView { metadata, ..self }
    }

    /// This builder with the given title.
    pub open spec fn with_title(self, title: Seq<char>) -> MetadataBuilderView {
        self.with_metadata(self.metadata.with_title(title))
    }

    /// This builder with the given description.
    pub open spec fn with_description(self, description: Seq<char>) -> MetadataBuilderView {
        self.with_metadata(self.metadata.with_description(description))
    }

    /// This builder with the given canonical URL.
    pub open spec fn with_url(self, url: Seq<char>) -> MetadataBuilderView {
        self.with_metadata(self.metadata.with_url(url))
    }

    /// This builder with the given site name.
    pub open spec fn with_site_name(self, site_name: Seq<char>) -> MetadataBuilderView {
        self.with_metadata(self.metadata.with_site_name(site_name))
    }

    /// This builder with the given determiner, or with none.
    pub open spec fn with_determiner(self, determiner: Option<Determiner>) -> MetadataBuilderView {
        self.with_metadata(self.metadata.with_determiner(determiner))
    }

    /// This builder with the given locale.
    pub open spec fn with_locale(self, locale: Seq<char>) -> MetadataBuilderView {
        self.with_metadata(self.metadata.with_locale(locale))
    }

    /// This builder with one more alternate locale, after those it has.
    pub open spec fn with_locale_alternate(self, locale: Seq<char>) -> MetadataBuilderView {
        self.with_metadata(self.metadata.with_locale_alternate(locale))
    }

    /// This builder with one more image, after those it has.
    pub open spec fn with_image(self, image: ImageView) -> MetadataBuilderView {
        self.with_metadata(self.metadata.with_image(image))
    }

    /// This builder with one more video, after those it has.
    pub open spec fn with_video(self, video: VideoView) -> MetadataBuilderView {
        self.with_metadata(self.metadata.with_video(video))
    }

    /// This builder with one more audio, after those it has.
    pub open spec fn with_audio(self, audio: AudioView) -> MetadataBuilderView {
        self.with_metadata(self.metadata.with_audio(audio))
    }

    /// The entries of this builder's document: the type, then the page's own.
    pub open spec fn fields(self) -> Seq<(Seq<char>, Tree)> {
        seq![("og:type"@, Tree::Text(self.object_type.token()))] + self.metadata.fields()
    }

    /// This builder's page as a document.
    pub open spec fn document(self) -> Tree {
        Tree::Record(self.fields())
    }
}

impl Default for MetadataBuilder {
    fn default() -> (r: Self)
        ensures
            r@ == MetadataBuilderView::empty(),
    {
        MetadataBuilder { object_type: ObjectType::Website, metadata: Metadata::default() }
    }
}

impl Clone for MetadataBuilder {
    fn clone(&self) -> (r: Self)
        ensures
            r@ == self@,
    {
        MetadataBuilder { object_type: self.object_type, metadata: self.metadata.clone() }
    }
}

impl MetadataBuilder {
    /// The builder of a new page: a website with nothing known yet.
    pub fn new() -> (r: Self)
        ensures
            r@ == MetadataBuilderView::empty(),
    {
        MetadataBuilder::default()
    }

    /// The builder for an object of the given type, with nothing known yet.
    pub fn with_type(object_type: ObjectType) -> (r: MetadataBuilder)
        ensures
            r@ == MetadataBuilderView::of_type(object_type),
    {
        MetadataBuilder { object_type, metadata: Metadata::default() }
    }

    /// Sets the title.
    pub fn set_title(&mut self, title: &str) -> (ret: &mut Self)
        ensures
            ret@ == old(self)@.with_title(title@),
            *final(self) == *final(ret),
    {
        self.metadata.title = Some(title.to_owned());
        self
    }

    /// Sets the description.
    pub fn set_description(&mut self, description: &str) -> (ret: &mut Self)
        ensures
            ret@ == old(self)@.with_description(description@),
            *final(self) == *final(ret),
    {
        self.metadata.description = Some(description.to_owned());
        self
    }

    /// Sets the canonical URL. The text must be an absolute URL with the
    /// scheme `http` or `https`; what is stored is the URL as the parser
    /// writes it. Any other text is reported and changes nothing.
    pub fn set_url(&mut self, url: &str) -> (r: Result<&mut Self, Error>)
        ensures
            match http_url_outcome(url@, parsed_url(url@)) {
                Ok(parsed) => r matches Ok(ret) && ret@ == old(self)@.with_url(parsed.href)
                    && *final(self) == *final(ret),
                Err(e) => r matches Err(found) && found@ == e && *final(self) == *old(self),
            },
    {
        match validate_http_url(url) {
            Err(e) => Err(e),
            Ok(parsed) => {
                self.metadata.url = Some(parsed.as_str().to_owned());
                Ok(self)
            },
        }
    }

    /// Has no effect: a page's images are a list, filled by
    /// [`MetadataBuilder::add_image`] and [`MetadataBuilder::add_image_url`].
    pub fn set_image(&mut self, image: &str) -> (ret: &mut Self)
        ensures
            *ret == *old(self),
            *final(self) == *final(ret),
    {
        self
    }

    /// Has no effect: a page's videos are a list, filled by [`MetadataBuilder::add_video`].
    pub fn set_video(&mut self, video: &str) -> (ret: &mut Self)
        ensures
            *ret == *old(self),
            *final(self) == *final(ret),
    {
        self
    }

    /// Has no effect: a page's audio is a list, filled by [`MetadataBuilder::add_audio`].
    pub fn set_audio(&mut self, audio: &str) -> (ret: &mut Self)
        ensures
            *ret == *old(self),
            *final(self) == *final(ret),
    {
        self
    }

    /// Adds an image after those the page has.
    pub fn add_image(&mut self, image: Image) -> (ret: &mut Self)
        ensures
            ret@ == old(self)@.with_image(image@),
            *final(self) == *final(ret),
    {
        proof {
            let held = self.metadata.images@;
            assert(image_views(held.push(image)) =~= image_views(held).push(image@));
        }
        self.metadata.images.push(image);
        self
    }

    /// Adds the image at the URL that a text holds. The text must be an
    /// absolute URL with the scheme `http` or `https`; any other text is
    /// reported as [`Error::UrlParseError`] with that text, and changes
    /// nothing.
    pub fn add_image_url(&mut self, image_url: &str) -> (r: Result<&mut Self, Error>)
        ensures
            match http_url_outcome(image_url@, parsed_url(image_url@)) {
                Ok(parsed) => r matches Ok(ret) && ret@ == old(self)@.with_image(
                    ImageView::of_url(parsed),
                ) && *final(self) == *final(ret),
                Err(_) => r matches Err(found) && found@ == ErrorView::UrlParseError(image_url@)
                    && *final(self) == *old(self),
            },
    {
        match validate_http_url(image_url) {
            Err(_) => Err(Error::UrlParseError(image_url.to_owned())),
            Ok(parsed) => {
                let image = Image::from_url(parsed);
                proof {
                    let held = self.metadata.images@;
                    assert(image_views(held.push(image)) =~= image_views(held).push(image@));
                }
                self.metadata.images.push(image);
                Ok(self)
            },
        }
    }

    /// Adds a video after those the page has.
    pub fn add_video(&mut self, video: Video) -> (ret: &mut Self)
        ensures
            ret@ == old(self)@.with_video(video@),
            *final(self) == *final(ret),
    {
        proof {
            let held = self.metadata.videos@;
            assert(video_views(held.push(video)) =~= video_views(held).push(video@));
        }
        self.metadata.videos.push(video);
        self
    }

    /// Adds an audio after those the page has.
    pub fn add_audio(&mut self, audio: Audio) -> (ret: &mut Self)
        ensures
            ret@ == old(self)@.with_audio(audio@),
            *final(self) == *final(ret),
    {
        proof {
            let held = self.metadata.audios@;
            assert(audio_views(held.push(audio)) =~= audio_views(held).push(audio@));
        }
        self.metadata.audios.push(audio);
        self
    }

    /// Sets the name of the site.
    pub fn set_site_name(&mut self, site_name: &str) -> (ret: &mut Self)
        ensures
            ret@ == old(self)@.with_site_name(site_name@),
            *final(self) == *final(ret),
    {
        self.metadata.site_name = Some(site_name.to_owned());
        self
    }

    /// Sets the determiner, or removes it.
    pub fn set_determiner(&mut self, determiner: Option<Determiner>) -> (ret: &mut Self)
        ensures
            ret@ == old(self)@.with_determiner(determiner),
            *final(self) == *final(ret),
    {
        self.metadata.determiner = determiner;
        self
    }

    /// Sets the locale. The text must be a valid locale; any other text is
    /// reported as [`validate_locale`] reports it, and changes nothing.
    pub fn set_locale(&mut self, locale: &str) -> (r: Result<&mut Self, Error>)
        ensures
            match locale_fault(locale@) {
                None => r matches Ok(ret) && ret@ == old(self)@.with_locale(locale@)
                    && *final(self) == *final(ret),
                Some(e) => r matches Err(found) && found@ == e && *final(self) == *old(self),
            },
    {
        match validate_locale(locale) {
            Err(e) => Err(e),
            Ok(_) => {
                self.metadata.locale = Some(locale.to_owned());
                Ok(self)
            },
        }
    }

    /// Adds an alternate locale after those the page has. The text is
    /// stored as given.
    pub fn add_locale_alternate(&mut self, locale: &str) -> (ret: &mut Self)
        ensures
            ret@ == old(self)@.with_locale_alternate(locale@),
            *final(self) == *final(ret),
    {
        let mut others: Vec<String> = Vec::new();
        if let Some(found) = self.metadata.locale_alternate.take() {
            others = found;
        }
        let added = locale.to_owned();
        proof {
            assert(texts(others@.push(added)) =~= texts(others@).push(locale@));
            assert(texts(Seq::<String>::empty().push(added)) =~= seq![locale@]);
        }
        others.push(added);
        self.metadata.locale_alternate = Some(others);
        self
    }

    /// What is known of the page so far.
    pub fn get(&self) -> (r: &Metadata)
        ensures
            *r == self.metadata,
    {
        &self.metadata
    }

    /// The entries of this builder's document, in order.
    pub fn entries(&self) -> (r: Vec<(String, Value)>)
        ensures
            fields_of(r@) == self@.fields(),
    {
        let mut entries: Vec<(String, Value)> = Vec::new();
        assert(fields_of(entries@) =~= Seq::<(Seq<char>, Tree)>::empty());
        put(&mut entries, "og:type", text_value(self.object_type.as_str()));
        put_all(&mut entries, self.metadata.entries());
        assert(fields_of(entries@) =~= self@.fields());
        entries
    }
}

impl ToHTML for MetadataBuilder {
    open spec fn document(&self) -> Tree {
        self@.document()
    }

    fn to_document(&self) -> (r: Value) {
        record(self.entries())
    }
}

/// Something from which a finished value of type `T` can be made.
pub trait Build<T> {
    /// Makes the finished value, or says why it cannot be made.
    fn build(&self) -> Result<T, Error>;
}

/// A value that can check that it is complete.
pub trait Validate {
    /// What is wrong with this value, if anything.
    spec fn defect(&self) -> Option<ErrorView>;

    /// Checks this value and reports the first thing that is wrong with it.
    fn validate(&self) -> (r: Result<(), Error>)
        ensures
            fault(r) == self.defect(),
    ;
}

} // verus!
