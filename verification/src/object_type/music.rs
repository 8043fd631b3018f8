//! Metadata of pages that describe music.

use crate::convert::{record, ToHTML, Tree, Value};
use crate::metadata::{OgMetadata, OgMetadataBuilder, OgMetadataView};
use crate::object_type::ObjectType;
use vstd::prelude::*;

verus! {

/// The metadata of a page that describes a music album.
#[derive(Debug)]
pub struct MusicAlbum {
    metadata: OgMetadataBuilder,
}

impl View for MusicAlbum {
    type V = OgMetadataView;

    closed spec fn view(&self) -> OgMetadataView {
        self.metadata@
    }
}

impl Clone for MusicAlbum {
    fn clone(&self) -> (r: Self)
        ensures
            r@ == self@,
    {
        MusicAlbum { metadata: self.metadata.clone() }
    }
}

impl MusicAlbum {
    /// The metadata of a music album of which nothing is known yet.
    pub fn new() -> (r: Self)
        ensures
            r@ == OgMetadataView::empty().with_type(ObjectType::MusicAlbum),
    {
        MusicAlbum { metadata: OgMetadataBuilder::with_type(ObjectType::MusicAlbum) }
    }

    /// The metadata of a music album, with what a builder knows of the page. The
    /// builder is copied; later changes to it do not show here.
    pub fn from_builder(parent: &OgMetadataBuilder) -> (r: Self)
        ensures
            r@ == parent@.with_type(ObjectType::MusicAlbum),
    {
        MusicAlbum { metadata: parent.retyped(ObjectType::MusicAlbum) }
    }

    /// A copy of what is known of the page.
    pub fn get_metadata(&self) -> (r: OgMetadata)
        ensures
            r@ == self@,
    {
        self.metadata.get_metadata()
    }
}

impl ToHTML for MusicAlbum {
    open spec fn document(&self) -> Tree {
        self@.document()
    }

    fn to_document(&self) -> (r: Value) {
        record(self.metadata.entries())
    }
}

/// The metadata of a page that describes a song.
#[derive(Debug)]
pub struct MusicSong {
    metadata: OgMetadataBuilder,
}

impl View for MusicSong {
    type V = OgMetadataView;

    closed spec fn view(&self) -> OgMetadataView {
        self.metadata@
    }
}

impl Clone for MusicSong {
    fn clone(&self) -> (r: Self)
        ensures
            r@ == self@,
    {
        MusicSong { metadata: self.metadata.clone() }
    }
}

impl MusicSong {
    /// The metadata of a song of which nothing is known yet.
    pub fn new() -> (r: Self)
        ensures
            r@ == OgMetadataView::empty().with_type(ObjectType::MusicSong),
    {
        MusicSong { metadata: OgMetadataBuilder::with_type(ObjectType::MusicSong) }
    }

    /// The metadata of a song, with what a builder knows of the page. The
    /// builder is copied; later changes to it do not show here.
    pub fn from_builder(parent: &OgMetadataBuilder) -> (r: Self)
        ensures
            r@ == parent@.with_type(ObjectType::MusicSong),
    {
        MusicSong { metadata: parent.retyped(ObjectType::MusicSong) }
    }

    /// A copy of what is known of the page.
    pub fn get_metadata(&self) -> (r: OgMetadata)
        ensures
            r@ == self@,
    {
        self.metadata.get_metadata()
    }
}

impl ToHTML for MusicSong {
    open spec fn document(&self) -> Tree {
        self@.document()
    }

    fn to_document(&self) -> (r: Value) {
        record(self.metadata.entries())
    }
}

/// The metadata of a page that describes a music playlist.
#[derive(Debug)]
pub struct MusicPlaylist {
    metadata: OgMetadataBuilder,
}

impl View for MusicPlaylist {
    type V = OgMetadataView;

    closed spec fn view(&self) -> OgMetadataView {
        self.metadata@
    }
}

impl Clone for MusicPlaylist {
    fn clone(&self) -> (r: Self)
        ensures
            r@ == self@,
    {
        MusicPlaylist { metadata: self.metadata.clone() }
    }
}

impl MusicPlaylist {
    /// The metadata of a music playlist of which nothing is known yet.
    pub fn new() -> (r: Self)
        ensures
            r@ == OgMetadataView::empty().with_type(ObjectType::MusicPlaylist),
    {
        MusicPlaylist { metadata: OgMetadataBuilder::with_type(ObjectType::MusicPlaylist) }
    }

    /// The metadata of a music playlist, with what a builder knows of the page. The
    /// builder is copied; later changes to it do not show here.
    pub fn from_builder(parent: &OgMetadataBuilder) -> (r: Self)
        ensures
            r@ == parent@.with_type(ObjectType::MusicPlaylist),
    {
        MusicPlaylist { metadata: parent.retyped(ObjectType::MusicPlaylist) }
    }

    /// A copy of what is known of the page.
    pub fn get_metadata(&self) -> (r: OgMetadata)
        ensures
            r@ == self@,
    {
        self.metadata.get_metadata()
    }
}

impl ToHTML for MusicPlaylist {
    open spec fn document(&self) -> Tree {
        self@.document()
    }

    fn to_document(&self) -> (r: Value) {
        record(self.metadata.entries())
    }
}

/// The metadata of a page that describes a radio station.
#[derive(Debug)]
pub struct MusicRadioStation {
    metadata: OgMetadataBuilder,
}

impl View for MusicRadioStation {
    type V = OgMetadataView;

    closed spec fn view(&self) -> OgMetadataView {
        self.metadata@
    }
}

impl Clone for MusicRadioStation {
    fn clone(&self) -> (r: Self)
        ensures
            r@ == self@,
    {
        MusicRadioStation { metadata: self.metadata.clone() }
    }
}

impl MusicRadioStation {
    /// The metadata of a radio station of which nothing is known yet.
    pub fn new() -> (r: Self)
        ensures
            r@ == OgMetadataView::empty().with_type(ObjectType::MusicRadioStation),
    {
        MusicRadioStation { metadata: OgMetadataBuilder::with_type(ObjectType::MusicRadioStation) }
    }

    /// The metadata of a radio station, with what a builder knows of the page. The
    /// builder is copied; later changes to it do not show here.
    pub fn from_builder(parent: &OgMetadataBuilder) -> (r: Self)
        ensures
            r@ == parent@.with_type(ObjectType::MusicRadioStation),
    {
        MusicRadioStation { metadata: parent.retyped(ObjectType::MusicRadioStation) }
    }

    /// A copy of what is known of the page.
    pub fn get_metadata(&self) -> (r: OgMetadata)
        ensures
            r@ == self@,
    {
        self.metadata.get_metadata()
    }
}

impl ToHTML for MusicRadioStation {
    open spec fn document(&self) -> Tree {
        self@.document()
    }

    fn to_document(&self) -> (r: Value) {
        record(self.metadata.entries())
    }
}

} // verus!
