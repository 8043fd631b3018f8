//! Metadata of pages that describe a website.

use crate::convert::{record, ToHTML, Tree, Value};
use crate::metadata::{OgMetadata, OgMetadataBuilder, OgMetadataView};
use crate::object_type::ObjectType;
use vstd::prelude::*;

verus! {

/// The finished metadata of a page that describes a website.
#[derive(Debug)]
pub struct WebsiteMetadata {
    root: OgMetadata,
}

impl View for WebsiteMetadata {
    type V = OgMetadataView;

    closed spec fn view(&self) -> OgMetadataView {
        self.root@
    }
}

impl Clone for WebsiteMetadata {
    fn clone(&self) -> (r: Self)
        ensures
            r@ == self@,
    {
        WebsiteMetadata { root: self.root.clone() }
    }
}

impl WebsiteMetadata {
    /// A copy of what is known of the page.
    pub fn get_metadata(&self) -> (r: OgMetadata)
        ensures
            r@ == self@,
    {
        self.root.clone()
    }
}

/// A builder from which a website's metadata can be taken.
pub trait Website {
    /// The metadata of a website, with what this builder knows of the page.
    fn website(&self) -> WebsiteMetadata;
}

impl Website for OgMetadataBuilder {
    /// What this builder knows of the page, as a website. The builder is
    /// copied; later changes to it do not show in the result.
    fn website(&self) -> (r: WebsiteMetadata)
        ensures
            r@ == self@.with_type(ObjectType::Website),
    {
        let mut root = self.get_metadata();
        root.object_type = ObjectType::Website;
        WebsiteMetadata { root }
    }
}

impl ToHTML for WebsiteMetadata {
    open spec fn document(&self) -> Tree {
        self@.document()
    }

    fn to_document(&self) -> (r: Value) {
        record(self.root.entries())
    }
}

} // verus!
