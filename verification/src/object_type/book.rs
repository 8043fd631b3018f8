//! Metadata of pages that describe a book.

use crate::convert::{
    fields_of, opt_text_tree, opt_text_value, put, put_all, record, ToHTML, Tree, Value,
};
use crate::metadata::{OgMetadata, OgMetadataBuilder, OgMetadataView};
use crate::object_type::ObjectType;
use crate::text::{copy_opt_text, opt_text};
use vstd::prelude::*;

verus! {

/// The metadata of a page that describes a book.
#[derive(Debug)]
pub struct Book {
    /// Who wrote the book.
    pub author: Option<String>,
    /// The book's ISBN.
    pub isbn: Option<String>,
    /// The date the book was released.
    pub release_date: Option<String>,
    /// Tag words that go with the book.
    pub tag: Option<String>,
    /// What is known of the page itself.
    pub metadata: OgMetadataBuilder,
}

/// A [`Book`] as contracts see it.
pub struct BookView {
    pub author: Option<Seq<char>>,
    pub isbn: Option<Seq<char>>,
    pub release_date: Option<Seq<char>>,
    pub tag: Option<Seq<char>>,
    pub metadata: OgMetadataView,
}

impl View for Book {
    type V = BookView;

    open spec fn view(&self) -> BookView {
        BookView {
            author: opt_text(self.author),
            isbn: opt_text(self.isbn),
            release_date: opt_text(self.release_date),
            tag: opt_text(self.tag),
            metadata: self.metadata@,
        }
    }
}

impl BookView {
    /// The book of which only the page is known.
    pub open spec fn of_page(metadata: OgMetadataView) -> BookView {
        BookView { author: None, isbn: None, release_date: None, tag: None, metadata }
    }

    /// The entries of this book's document: its own, then the page's.
    pub open spec fn fields(self) -> Seq<(Seq<char>, Tree)> {
        seq![
            ("book:author"@, opt_text_tree(self.author)),
            ("book:isbn"@, opt_text_tree(self.isbn)),
            ("book:release_date"@, opt_text_tree(self.release_date)),
            ("book:tag"@, opt_text_tree(self.tag)),
        ] + self.metadata.fields()
    }

    /// This book as a document.
    pub open spec fn document(self) -> Tree {
        Tree::Record(self.fields())
    }
}

impl Clone for Book {
    fn clone(&self) -> (r: Self)
        ensures
            r@ == self@,
    {
        Book {
            author: copy_opt_text(&self.author),
            isbn: copy_opt_text(&self.isbn),
            release_date: copy_opt_text(&self.release_date),
            tag: copy_opt_text(&self.tag),
            metadata: self.metadata.clone(),
        }
    }
}

impl Book {
    /// The metadata of a book of which nothing is known yet.
    pub fn new() -> (r: Self)
        ensures
            r@ == BookView::of_page(OgMetadataView::empty().with_type(ObjectType::Book)),
    {
        Book {
            author: None,
            isbn: None,
            release_date: None,
            tag: None,
            metadata: OgMetadataBuilder::with_type(ObjectType::Book),
        }
    }

    /// The metadata of a book, with what a builder knows of the page. The
    /// builder is copied; later changes to it do not show here.
    pub fn from_builder(parent: &OgMetadataBuilder) -> (r: Self)
        ensures
            r@ == BookView::of_page(parent@.with_type(ObjectType::Book)),
    {
        Book {
            author: None,
            isbn: None,
            release_date: None,
            tag: None,
            metadata: parent.retyped(ObjectType::Book),
        }
    }

    /// A copy of what is known of the page itself.
    pub fn get_metadata(&self) -> (r: OgMetadata)
        ensures
            r@ == self@.metadata,
    {
        self.metadata.get_metadata()
    }
}

impl ToHTML for Book {
    open spec fn document(&self) -> Tree {
        self@.document()
    }

    fn to_document(&self) -> (r: Value) {
        let mut entries: Vec<(String, Value)> = Vec::new();
        assert(fields_of(entries@) =~= Seq::<(Seq<char>, Tree)>::empty());
        put(&mut entries, "book:author", opt_text_value(&self.author));
        put(&mut entries, "book:isbn", opt_text_value(&self.isbn));
        put(&mut entries, "book:release_date", opt_text_value(&self.release_date));
        put(&mut entries, "book:tag", opt_text_value(&self.tag));
        put_all(&mut entries, self.metadata.entries());
        assert(fields_of(entries@) =~= self@.fields());
        record(entries)
    }
}

} // verus!
