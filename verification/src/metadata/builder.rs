//! The builder that fills an [`OgMetadata`].
//!
//! Setters that take any text store it. Setters that take a URL or a
//! locale check it first: a text that fails the check is reported and
//! leaves the builder as it was.

use crate::convert::{fields_of, record, ToHTML, Tree, Value};
use crate::error::{Error, ErrorView};
use crate::metadata::audio::{audio_views, AudioView};
use crate::metadata::image::{image_views, ImageView};
use crate::metadata::video::{video_views, VideoView};
use crate::metadata::{Audio, Image, OgMetadata, OgMetadataView, Video};
use crate::object_type::{Determiner, ObjectType};
use crate::text::texts;
use crate::utils::{http_url_outcome, locale_fault, validate_http_url, validate_locale};
use crate::web_url::parsed_url;
use vstd::prelude::*;

verus! {

/// Fills an [`OgMetadata`] step by step.
#[derive(Debug)]
pub struct OgMetadataBuilder {
    metadata: OgMetadata,
}

impl View for OgMetadataBuilder {
    type V = OgMetadataView;

    closed spec fn view(&self) -> OgMetadataView {
        self.metadata@
    }
}

impl Default for OgMetadataBuilder {
    fn default() -> (r: Self)
        ensures
            r@ == OgMetadataView::empty(),
    {
        OgMetadataBuilder { metadata: OgMetadata::default() }
    }
}

impl Clone for OgMetadataBuilder {
    fn clone(&self) -> (r: Self)
        ensures
            r@ == self@,
    {
        OgMetadataBuilder { metadata: self.metadata.clone() }
    }
}

impl OgMetadataBuilder {
    /// The builder of a new page: a website with nothing known yet.
    pub fn new() -> (r: Self)
        ensures
            r@ == OgMetadataView::empty(),
    {
        OgMetadataBuilder::default()
    }

    /// The builder for an object of the given type, with nothing known yet.
    pub fn with_type(object_type: ObjectType) -> (r: OgMetadataBuilder)
        ensures
            r@ == OgMetadataView::empty().with_type(object_type),
    {
        let mut metadata = OgMetadata::default();
        metadata.object_type = object_type;
        OgMetadataBuilder { metadata }
    }

    /// Sets the title.
    pub fn set_title(&mut self, title: &str) -> (ret: &mut Self)
        ensures
            ret@ == old(self)@.with_title(title@),
            *final(self) == *final(ret),
    {
        self.metadata.title = Some(title.to_owned());
        self
    }

    /// Sets the description.
    pub fn set_description(&mut self, description: &str) -> (ret: &mut Self)
        ensures
            ret@ == old(self)@.with_description(description@),
            *final(self) == *final(ret),
    {
        self.metadata.description = Some(description.to_owned());
        self
    }

    /// Sets the canonical URL. The text must be an absolute URL with the
    /// scheme `http` or `https`; what is stored is the URL as the parser
    /// writes it. Any other text is reported and changes nothing.
    pub fn set_url(&mut self, url: &str) -> (r: Result<&mut Self, Error>)
        ensures
            match http_url_outcome(url@, parsed_url(url@)) {
                Ok(parsed) => r matches Ok(ret) && ret@ == old(self)@.with_url(parsed.href)
                    && *final(self) == *final(ret),
                Err(e) => r matches Err(found) && found@ == e && *final(self) == *old(self),
            },
    {
        match validate_http_url(url) {
            Err(e) => Err(e),
            Ok(parsed) => {
                self.metadata.url = Some(parsed.as_str().to_owned());
                Ok(self)
            },
        }
    }

    /// Has no effect: a page's images are a list, filled by
    /// [`OgMetadataBuilder::add_image`] and [`OgMetadataBuilder::add_image_url`].
    pub fn set_image(&mut self, image: &str) -> (ret: &mut Self)
        ensures
            *ret == *old(self),
            *final(self) == *final(ret),
    {
        self
    }

    /// Has no effect: a page's videos are a list, filled by [`OgMetadataBuilder::add_video`].
    pub fn set_video(&mut self, video: &str) -> (ret: &mut Self)
        ensures
            *ret == *old(self),
            *final(self) == *final(ret),
    {
        self
    }

    /// Has no effect: a page's audio is a list, filled by [`OgMetadataBuilder::add_audio`].
    pub fn set_audio(&mut self, audio: &str) -> (ret: &mut Self)
        ensures
            *ret == *old(self),
            *final(self) == *final(ret),
    {
        self
    }

    /// Adds an image after those the page has.
    pub fn add_image(&mut self, image: Image) -> (ret: &mut Self)
        ensures
            ret@ == old(self)@.with_image(image@),
            *final(self) == *final(ret),
    {
        proof {
            let held = self.metadata.images@;
            assert(image_views(held.push(image)) =~= image_views(held).push(image@));
        }
        self.metadata.images.push(image);
        self
    }

    /// Adds the image at the URL that a text holds. The text must be an
    /// absolute URL with the scheme `http` or `https`; any other text is
    /// reported as [`Error::UrlParseError`] with that text, and changes
    /// nothing.
    pub fn add_image_url(&mut self, image_url: &str) -> (r: Result<&mut Self, Error>)
        ensures
            match http_url_outcome(image_url@, parsed_url(image_url@)) {
                Ok(parsed) => r matches Ok(ret) && ret@ == old(self)@.with_image(
                    ImageView::of_url(parsed),
                ) && *final(self) == *final(ret),
                Err(_) => r matches Err(found) && found@ == ErrorView::UrlParseError(image_url@)
                    && *final(self) == *old(self),
            },
    {
        match validate_http_url(image_url) {
            Err(_) => Err(Error::UrlParseError(image_url.to_owned())),
            Ok(parsed) => {
                let image = Image::from_url(parsed);
                proof {
                    let held = self.metadata.images@;
                    assert(image_views(held.push(image)) =~= image_views(held).push(image@));
                }
                self.metadata.images.push(image);
                Ok(self)
            },
        }
    }

    /// Adds a video after those the page has.
    pub fn add_video(&mut self, video: Video) -> (ret: &mut Self)
        ensures
            ret@ == old(self)@.with_video(video@),
            *final(self) == *final(ret),
    {
        proof {
            let held = self.metadata.videos@;
            assert(video_views(held.push(video)) =~= video_views(held).push(video@));
        }
        self.metadata.videos.push(video);
        self
    }

    /// Adds the video at the URL that a text holds. The text must be an
    /// absolute URL with the scheme `http` or `https`; any other text is
    /// reported as [`Error::UrlParseError`] with that text, and changes
    /// nothing.
    pub fn add_video_url(&mut self, video_url: &str) -> (r: Result<&mut Self, Error>)
        ensures
            match http_url_outcome(video_url@, parsed_url(video_url@)) {
                Ok(parsed) => r matches Ok(ret) && ret@ == old(self)@.with_video(
                    VideoView::of_url(parsed),
                ) && *final(self) == *final(ret),
                Err(_) => r matches Err(found) && found@ == ErrorView::UrlParseError(video_url@)
                    && *final(self) == *old(self),
            },
    {
        match validate_http_url(video_url) {
            Err(_) => Err(Error::UrlParseError(video_url.to_owned())),
            Ok(parsed) => {
                let video = Video::from_url(parsed);
                proof {
                    let held = self.metadata.videos@;
                    assert(video_views(held.push(video)) =~= video_views(held).push(video@));
                }
                self.metadata.videos.push(video);
                Ok(self)
            },
        }
    }

    /// Adds an audio after those the page has.
    pub fn add_audio(&mut self, audio: Audio) -> (ret: &mut Self)
        ensures
            ret@ == old(self)@.with_audio(audio@),
            *final(self) == *final(ret),
    {
        proof {
            let held = self.metadata.audios@;
            assert(audio_views(held.push(audio)) =~= audio_views(held).push(audio@));
        }
        self.metadata.audios.push(audio);
        self
    }

    /// Adds the audio at the URL that a text holds. The text must be an
    /// absolute URL with the scheme `http` or `https`; any other text is
    /// reported as [`Error::UrlParseError`] with that text, and changes
    /// nothing.
    pub fn add_audio_url(&mut self, audio_url: &str) -> (r: Result<&mut Self, Error>)
        ensures
            match http_url_outcome(audio_url@, parsed_url(audio_url@)) {
                Ok(parsed) => r matches Ok(ret) && ret@ == old(self)@.with_audio(
                    AudioView::of_url(parsed),
                ) && *final(self) == *final(ret),
                Err(_) => r matches Err(found) && found@ == ErrorView::UrlParseError(audio_url@)
                    && *final(self) == *old(self),
            },
    {
        match validate_http_url(audio_url) {
            Err(_) => Err(Error::UrlParseError(audio_url.to_owned())),
            Ok(parsed) => {
                let audio = Audio::from_url(parsed);
                proof {
                    let held = self.metadata.audios@;
                    assert(audio_views(held.push(audio)) =~= audio_views(held).push(audio@));
                }
                self.metadata.audios.push(audio);
                Ok(self)
            },
        }
    }

    /// Sets the name of the site.
    pub fn set_site_name(&mut self, site_name: &str) -> (ret: &mut Self)
        ensures
            ret@ == old(self)@.with_site_name(site_name@),
            *final(self) == *final(ret),
    {
        self.metadata.site_name = Some(site_name.to_owned());
        self
    }

    /// Sets the determiner, or removes it.
    pub fn set_determiner(&mut self, determiner: Option<Determiner>) -> (ret: &mut Self)
        ensures
            ret@ == old(self)@.with_determiner(determiner),
            *final(self) == *final(ret),
    {
        self.metadata.determiner = determiner;
        self
    }

    /// Sets the locale. The text must be a valid locale; any other text is
    /// reported as [`validate_locale`] reports it, and changes nothing.
    pub fn set_locale(&mut self, locale: &str) -> (r: Result<&mut Self, Error>)
        ensures
            match locale_fault(locale@) {
                None => r matches Ok(ret) && ret@ == old(self)@.with_locale(locale@)
                    && *final(self) == *final(ret),
                Some(e) => r matches Err(found) && found@ == e && *final(self) == *old(self),
            },
    {
        match validate_locale(locale) {
            Err(e) => Err(e),
            Ok(_) => {
                self.metadata.locale = Some(locale.to_owned());
                Ok(self)
            },
        }
    }

    /// Adds an alternate locale after those the page has. The text is
    /// stored as given.
    pub fn add_locale_alternate(&mut self, locale: &str) -> (ret: &mut Self)
        ensures
            ret@ == old(self)@.with_locale_alternate(locale@),
            *final(self) == *final(ret),
    {
        let mut others: Vec<String> = Vec::new();
        if let Some(found) = self.metadata.locale_alternate.take() {
            others = found;
        }
        let added = locale.to_owned();
        proof {
            assert(texts(others@.push(added)) =~= texts(others@).push(locale@));
            assert(texts(Seq::<String>::empty().push(added)) =~= seq![locale@]);
        }
        others.push(added);
        self.metadata.locale_alternate = Some(others);
        self
    }

    /// A copy of this builder for an object of another type.
    pub fn retyped(&self, object_type: ObjectType) -> (r: OgMetadataBuilder)
        ensures
            r@ == self@.with_type(object_type),
    {
        let mut metadata = self.metadata.clone();
        metadata.object_type = object_type;
        OgMetadataBuilder { metadata }
    }

    /// A copy of what is known of the page so far.
    pub fn get_metadata(&self) -> (r: OgMetadata)
        ensures
            r@ == self@,
    {
        self.metadata.clone()
    }

    /// The entries of this builder's document, in order.
    pub fn entries(&self) -> (r: Vec<(String, Value)>)
        ensures
            fields_of(r@) == self@.fields(),
    {
        self.metadata.entries()
    }
}

impl ToHTML for OgMetadataBuilder {
    open spec fn document(&self) -> Tree {
        self@.document()
    }

    fn to_document(&self) -> (r: Value) {
        record(self.entries())
    }
}

/// Something from which a finished value of type `T` can be made.
pub trait Build<T> {
    /// Makes the finished value, or says why it cannot be made.
    fn build(&self) -> Result<T, Error>;
}

} // verus!
