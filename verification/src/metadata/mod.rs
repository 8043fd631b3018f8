//! The Open Graph model of a page.

pub use self::{audio::Audio, builder::OgMetadataBuilder, image::Image, video::Video};

pub mod audio;
pub mod builder;
pub mod image;
pub mod video;

use crate::convert::{
    fields_of, opt_text_list_tree, opt_text_list_value, opt_text_tree, opt_text_value, put,
    record, text_value, ToHTML, Tree, Value,
};
use crate::error::{Error, ErrorView};
use crate::metadata::audio::{audio_views, audios_tree, audios_value, copy_audios, AudioView};
use crate::metadata::image::{copy_images, image_views, images_tree, images_value, ImageView};
use crate::metadata::video::{copy_videos, video_views, videos_tree, videos_value, VideoView};
use crate::object_type::{determiner_tree, determiner_value, Determiner, ObjectType};
use crate::text::{copy_opt_text, copy_opt_texts, opt_text, opt_texts};
use crate::validator::Validatable;
use vstd::prelude::*;

verus! {

/// What is known of a page, with the type of object it describes.
#[derive(Debug)]
pub struct OgMetadata {
    /// The type of object the page describes.
    pub object_type: ObjectType,
    /// The canonical URL of the page: the one without session variables,
    /// user parameters or counters.
    pub url: Option<String>,
    /// The title, without branding such as the site's name.
    pub title: Option<String>,
    /// A description of the page in a sentence or two.
    pub description: Option<String>,
    /// The name of the site the page belongs to.
    pub site_name: Option<String>,
    /// The word that goes before the title in a sentence.
    pub determiner: Option<Determiner>,
    /// The locale of the page, as `language_TERRITORY`.
    pub locale: Option<String>,
    /// Other locales the page is available in.
    pub locale_alternate: Option<Vec<String>>,
    /// The images that represent the page, in the order they were added.
    pub images: Vec<Image>,
    /// The videos that go with the page, in the order they were added.
    pub videos: Vec<Video>,
    /// The audio that goes with the page, in the order it was added.
    pub audios: Vec<Audio>,
}

/// An [`OgMetadata`] as contracts see it.
pub struct OgMetadataView {
    pub object_type: ObjectType,
    pub url: Option<Seq<char>>,
    pub title: Option<Seq<char>>,
    pub description: Option<Seq<char>>,
    pub site_name: Option<Seq<char>>,
    pub determiner: Option<Determiner>,
    pub locale: Option<Seq<char>>,
    pub locale_alternate: Option<Seq<Seq<char>>>,
    pub images: Seq<ImageView>,
    pub videos: Seq<VideoView>,
    pub audios: Seq<AudioView>,
}

impl View for OgMetadata {
    type V = OgMetadataView;

    open spec fn view(&self) -> OgMetadataView {
        OgMetadataView {
            object_type: self.object_type,
            url: opt_text(self.url),
            title: opt_text(self.title),
            description: opt_text(self.description),
            site_name: opt_text(self.site_name),
            determiner: self.determiner,
            locale: opt_text(self.locale),
            locale_alternate: opt_texts(self.locale_alternate),
            images: image_views(self.images@),
            videos: video_views(self.videos@),
            audios: audio_views(self.audios@),
        }
    }
}

impl OgMetadataView {
    /// The page of which nothing is known but that it is a website.
    pub open spec fn empty() -> OgMetadataView {
        OgMetadataView {
            object_type: ObjectType::Website,
            url: None,
            title: None,
            description: None,
            site_name: None,
            determiner: None,
            locale: None,
            locale_alternate: None,
            images: Seq::empty(),
            videos: Seq::empty(),
            audios: Seq::empty(),
        }
    }

    /// This page, described as an object of another type.
    pub open spec fn with_type(self, object_type: ObjectType) -> OgMetadataView {
        OgMetadataView { object_type, ..self }
    }

    /// This page with the given title.
    pub open spec fn with_title(self, title: Seq<char>) -> OgMetadataView {
        OgMetadataView { title: Some(title), ..self }
    }

    /// This page with the given description.
    pub open spec fn with_description(self, description: Seq<char>) -> OgMetadataView {
        OgMetadataView { description: Some(description), ..self }
    }

    /// This page with the given canonical URL.
    pub open spec fn with_url(self, url: Seq<char>) -> OgMetadataView {
        OgMetadataView { url: Some(url), ..self }
    }

    /// This page with the given site name.
    pub open spec fn with_site_name(self, site_name: Seq<char>) -> OgMetadataView {
        OgMetadataView { site_name: Some(site_name), ..self }
    }

    /// This page with the given determiner, or with none.
    pub open spec fn with_determiner(self, determiner: Option<Determiner>) -> OgMetadataView {
        OgMetadataView { determiner, ..self }
    }

    /// This page with the given locale.
    pub open spec fn with_locale(self, locale: Seq<char>) -> OgMetadataView {
        OgMetadataView { locale: Some(locale), ..self }
    }

    /// This page with one more alternate locale, after those it has.
    pub open spec fn with_locale_alternate(self, locale: Seq<char>) -> OgMetadataView {
        OgMetadataView {
            locale_alternate: Some(
                match self.locale_alternate {
                    Some(others) => others.push(locale),
                    None => seq![locale],
                },
            ),
            ..self
        }
    }

    /// This page with one more image, after those it has.
    pub open spec fn with_image(self, image: ImageView) -> OgMetadataView {
        OgMetadataView { images: self.images.push(image), ..self }
    }

    /// This page with one more video, after those it has.
    pub open spec fn with_video(self, video: VideoView) -> OgMetadataView {
        OgMetadataView { videos: self.videos.push(video), ..self }
    }

    /// This page with one more audio, after those it has.
    pub open spec fn with_audio(self, audio: AudioView) -> OgMetadataView {
        OgMetadataView { audios: self.audios.push(audio), ..self }
    }

    /// The first required property that is absent: the title, then the
    /// URL, then the description.
    pub open spec fn missing_property(self) -> Option<Seq<char>> {
        if self.title is None {
            Some("title"@)
        } else if self.url is None {
            Some("url"@)
        } else if self.description is None {
            Some("description"@)
        } else {
            None
        }
    }

    /// What is wrong with this page: the first required property that is absent.
    pub open spec fn defect(self) -> Option<ErrorView> {
        match self.missing_property() {
            Some(name) => Some(ErrorView::MissingRequiredProperty(name)),
            None => None,
        }
    }

    /// Nothing is wrong with a page exactly when it has a title, a URL and
    /// a description, whatever else is known of it.
    pub proof fn lemma_valid_page(self)
        ensures
            self.defect() is None <==> {
                &&& self.title is Some
                &&& self.url is Some
                &&& self.description is Some
            },
    {
    }

    /// The entries of this page's document, in order.
    pub open spec fn fields(self) -> Seq<(Seq<char>, Tree)> {
        seq![
            ("og:type"@, Tree::Text(self.object_type.token())),
            ("og:url"@, opt_text_tree(self.url)),
            ("og:title"@, opt_text_tree(self.title)),
            ("og:description"@, opt_text_tree(self.description)),
            ("og:site_name"@, opt_text_tree(self.site_name)),
            ("og:determiner"@, determiner_tree(self.determiner)),
            ("og:locale"@, opt_text_tree(self.locale)),
            ("og:locale:alternate"@, opt_text_list_tree(self.locale_alternate)),
            ("og:image"@, images_tree(self.images)),
            ("og:video"@, videos_tree(self.videos)),
            ("og:audio"@, audios_tree(self.audios)),
        ]
    }

    /// This page as a document.
    pub open spec fn document(self) -> Tree {
        Tree::Record(self.fields())
    }
}

impl Default for OgMetadata {
    fn default() -> (r: Self)
        ensures
            r@ == OgMetadataView::empty(),
    {
        let r = OgMetadata {
            object_type: ObjectType::Website,
            url: None,
            title: None,
            description: None,
            site_name: None,
            determiner: None,
            locale: None,
            locale_alternate: None,
            images: Vec::new(),
            videos: Vec::new(),
            audios: Vec::new(),
        };
        assert(r@.images =~= Seq::<ImageView>::empty());
        assert(r@.videos =~= Seq::<VideoView>::empty());
        assert(r@.audios =~= Seq::<AudioView>::empty());
        r
    }
}

impl Clone for OgMetadata {
    fn clone(&self) -> (r: Self)
        ensures
            r@ == self@,
    {
        OgMetadata {
            object_type: self.object_type,
            url: copy_opt_text(&self.url),
            title: copy_opt_text(&self.title),
            description: copy_opt_text(&self.description),
            site_name: copy_opt_text(&self.site_name),
            determiner: self.determiner,
            locale: copy_opt_text(&self.locale),
            locale_alternate: copy_opt_texts(&self.locale_alternate),
            images: copy_images(&self.images),
            videos: copy_videos(&self.videos),
            audios: copy_audios(&self.audios),
        }
    }
}

impl OgMetadata {
    /// The entries of this page's document, in order.
    pub fn entries(&self) -> (r: Vec<(String, Value)>)
        ensures
            fields_of(r@) == self@.fields(),
    {
        let mut entries: Vec<(String, Value)> = Vec::new();
        assert(fields_of(entries@) =~= Seq::<(Seq<char>, Tree)>::empty());
        put(&mut entries, "og:type", text_value(self.object_type.as_str()));
        put(&mut entries, "og:url", opt_text_value(&self.url));
        put(&mut entries, "og:title", opt_text_value(&self.title));
        put(&mut entries, "og:description", opt_text_value(&self.description));
        put(&mut entries, "og:site_name", opt_text_value(&self.site_name));
        put(&mut entries, "og:determiner", determiner_value(self.determiner));
        put(&mut entries, "og:locale", opt_text_value(&self.locale));
        put(&mut entries, "og:locale:alternate", opt_text_list_value(&self.locale_alternate));
        put(&mut entries, "og:image", images_value(&self.images));
        put(&mut entries, "og:video", videos_value(&self.videos));
        put(&mut entries, "og:audio", audios_value(&self.audios));
        assert(fields_of(entries@) =~= self@.fields());
        entries
    }
}

impl Validatable for OgMetadata {
    open spec fn defect(&self) -> Option<ErrorView> {
        self@.defect()
    }

    /// Checks that the title, the URL and the description are present, and
    /// reports the first of them that is not.
    fn validate(&self) -> (r: Result<(), Error>) {
        if self.title.is_none() {
            Err(Error::MissingRequiredProperty("title".to_owned()))
        } else if self.url.is_none() {
            Err(Error::MissingRequiredProperty("url".to_owned()))
        } else if self.description.is_none() {
            Err(Error::MissingRequiredProperty("description".to_owned()))
        } else {
            Ok(())
        }
    }
}

impl ToHTML for OgMetadata {
    open spec fn document(&self) -> Tree {
        self@.document()
    }

    fn to_document(&self) -> (r: Value) {
        record(self.entries())
    }
}

} // verus!
