//! Metadata of pages that describe video.

use crate::convert::{record, ToHTML, Tree, Value};
use crate::metadata::{OgMetadata, OgMetadataBuilder, OgMetadataView};
use crate::object_type::ObjectType;
use vstd::prelude::*;

verus! {

/// The metadata of a page that describes a movie.
#[derive(Debug)]
pub struct VideoMovie {
    metadata: OgMetadataBuilder,
}

impl View for VideoMovie {
    type V = OgMetadataView;

    closed spec fn view(&self) -> OgMetadataView {
        self.metadata@
    }
}

impl Clone for VideoMovie {
    fn clone(&self) -> (r: Self)
        ensures
            r@ == self@,
    {
        VideoMovie { metadata: self.metadata.clone() }
    }
}

impl VideoMovie {
    /// The metadata of a movie of which nothing is known yet.
    pub fn new() -> (r: Self)
        ensures
            r@ == OgMetadataView::empty().with_type(ObjectType::VideoMovie),
    {
        VideoMovie { metadata: OgMetadataBuilder::with_type(ObjectType::VideoMovie) }
    }

    /// The metadata of a movie, with what a builder knows of the page. The
    /// builder is copied; later changes to it do not show here.
    pub fn from_builder(parent: &OgMetadataBuilder) -> (r: Self)
        ensures
            r@ == parent@.with_type(ObjectType::VideoMovie),
    {
        VideoMovie { metadata: parent.retyped(ObjectType::VideoMovie) }
    }

    /// A copy of what is known of the page.
    pub fn get_metadata(&self) -> (r: OgMetadata)
        ensures
            r@ == self@,
    {
        self.metadata.get_metadata()
    }
}

impl ToHTML for VideoMovie {
    open spec fn document(&self) -> Tree {
        self@.document()
    }

    fn to_document(&self) -> (r: Value) {
        record(self.metadata.entries())
    }
}

/// The metadata of a page that describes an episode of a TV show.
#[derive(Debug)]
pub struct VideoEpisode {
    metadata: OgMetadataBuilder,
}

impl View for VideoEpisode {
    type V = OgMetadataView;

    closed spec fn view(&self) -> OgMetadataView {
        self.metadata@
    }
}

impl Clone for VideoEpisode {
    fn clone(&self) -> (r: Self)
        ensures
            r@ == self@,
    {
        VideoEpisode { metadata: self.metadata.clone() }
    }
}

impl VideoEpisode {
    /// The metadata of an episode of a TV show of which nothing is known yet.
    pub fn new() -> (r: Self)
        ensures
            r@ == OgMetadataView::empty().with_type(ObjectType::VideoEpisode),
    {
        VideoEpisode { metadata: OgMetadataBuilder::with_type(ObjectType::VideoEpisode) }
    }

    /// The metadata of an episode of a TV show, with what a builder knows of the page. The
    /// builder is copied; later changes to it do not show here.
    pub fn from_builder(parent: &OgMetadataBuilder) -> (r: Self)
        ensures
            r@ == parent@.with_type(ObjectType::VideoEpisode),
    {
        VideoEpisode { metadata: parent.retyped(ObjectType::VideoEpisode) }
    }

    /// A copy of what is known of the page.
    pub fn get_metadata(&self) -> (r: OgMetadata)
        ensures
            r@ == self@,
    {
        self.metadata.get_metadata()
    }
}

impl ToHTML for VideoEpisode {
    open spec fn document(&self) -> Tree {
        self@.document()
    }

    fn to_document(&self) -> (r: Value) {
        record(self.metadata.entries())
    }
}

/// The metadata of a page that describes a TV show.
#[derive(Debug)]
pub struct VideoTvShow {
    metadata: OgMetadataBuilder,
}

impl View for VideoTvShow {
    type V = OgMetadataView;

    closed spec fn view(&self) -> OgMetadataView {
        self.metadata@
    }
}

impl Clone for VideoTvShow {
    fn clone(&self) -> (r: Self)
        ensures
            r@ == self@,
    {
        VideoTvShow { metadata: self.metadata.clone() }
    }
}

impl VideoTvShow {
    /// The metadata of a TV show of which nothing is known yet.
    pub fn new() -> (r: Self)
        ensures
            r@ == OgMetadataView::empty().with_type(ObjectType::VideoTvShow),
    {
        VideoTvShow { metadata: OgMetadataBuilder::with_type(ObjectType::VideoTvShow) }
    }

    /// The metadata of a TV show, with what a builder knows of the page. The
    /// builder is copied; later changes to it do not show here.
    pub fn from_builder(parent: &OgMetadataBuilder) -> (r: Self)
        ensures
            r@ == parent@.with_type(ObjectType::VideoTvShow),
    {
        VideoTvShow { metadata: parent.retyped(ObjectType::VideoTvShow) }
    }

    /// A copy of what is known of the page.
    pub fn get_metadata(&self) -> (r: OgMetadata)
        ensures
            r@ == self@,
    {
        self.metadata.get_metadata()
    }
}

impl ToHTML for VideoTvShow {
    open spec fn document(&self) -> Tree {
        self@.document()
    }

    fn to_document(&self) -> (r: Value) {
        record(self.metadata.entries())
    }
}

/// The metadata of a page that describes a video of any other kind.
#[derive(Debug)]
pub struct VideoOther {
    metadata: OgMetadataBuilder,
}

impl View for VideoOther {
    type V = OgMetadataView;

    closed spec fn view(&self) -> OgMetadataView {
        self.metadata@
    }
}

impl Clone for VideoOther {
    fn clone(&self) -> (r: Self)
        ensures
            r@ == self@,
    {
        VideoOther { metadata: self.metadata.clone() }
    }
}

impl VideoOther {
    /// The metadata of a video of any other kind of which nothing is known yet.
    pub fn new() -> (r: Self)
        ensures
            r@ == OgMetadataView::empty().with_type(ObjectType::VideoOther),
    {
        VideoOther { metadata: OgMetadataBuilder::with_type(ObjectType::VideoOther) }
    }

    /// The metadata of a video of any other kind, with what a builder knows of the page. The
    /// builder is copied; later changes to it do not show here.
    pub fn from_builder(parent: &OgMetadataBuilder) -> (r: Self)
        ensures
            r@ == parent@.with_type(ObjectType::VideoOther),
    {
        VideoOther { metadata: parent.retyped(ObjectType::VideoOther) }
    }

    /// A copy of what is known of the page.
    pub fn get_metadata(&self) -> (r: OgMetadata)
        ensures
            r@ == self@,
    {
        self.metadata.get_metadata()
    }
}

impl ToHTML for VideoOther {
    open spec fn document(&self) -> Tree {
        self@.document()
    }

    fn to_document(&self) -> (r: Value) {
        record(self.metadata.entries())
    }
}

} // verus!
