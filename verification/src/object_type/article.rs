//! Metadata of pages that describe an article.

use crate::builder::{Metadata, MetadataBuilder, MetadataBuilderView};
use crate::convert::{
    fields_of, opt_number_tree, opt_text_tree, opt_text_value, put, put_all, record,
    text_list_tree, text_list_value, ToHTML, Tree, Value,
};
use crate::error::{Error, ErrorView};
use crate::object_type::ObjectType;
use crate::text::{copy_opt_text, copy_texts, opt_text, signed_decimal_text, texts};
use crate::timestamp::Timestamp;
use vstd::prelude::*;

verus! {

/// The metadata of a page that describes an article.
#[derive(Debug)]
pub struct ArticleMetadataBuilder {
    published_time: Option<Timestamp>,
    modified_time: Option<Timestamp>,
    expiration_time: Option<Timestamp>,
    author: Option<String>,
    section: Option<String>,
    tags: Vec<String>,
    metadata: MetadataBuilder,
}

/// An [`ArticleMetadataBuilder`] as contracts see it.
pub struct ArticleView {
    /// When the article was first published.
    pub published_time: Option<Timestamp>,
    /// When the article was last changed.
    pub modified_time: Option<Timestamp>,
    /// When the article goes out of date.
    pub expiration_time: Option<Timestamp>,
    /// Who wrote the article.
    pub author: Option<Seq<char>>,
    /// The section the article belongs to, such as Technology.
    pub section: Option<Seq<char>>,
    /// The tag words of the article, in the order they were added.
    pub tags: Seq<Seq<char>>,
    /// What is known of the page itself.
    pub metadata: MetadataBuilderView,
}

impl View for ArticleMetadataBuilder {
    type V = ArticleView;

    closed spec fn view(&self) -> ArticleView {
        ArticleView {
            published_time: self.published_time,
            modified_time: self.modified_time,
            expiration_time: self.expiration_time,
            author: opt_text(self.author),
            section: opt_text(self.section),
            tags: texts(self.tags@),
            metadata: self.metadata@,
        }
    }
}

/// A time as a document holds it: its whole seconds since the Unix epoch,
/// or null.
pub open spec fn time_tree(t: Option<Timestamp>) -> Tree {
    opt_number_tree(
        match t {
            Some(t) => Some(t.seconds as int),
            None => None,
        },
    )
}

/// The characters of each text of a list.
pub open spec fn tag_texts(tags: Seq<&str>) -> Seq<Seq<char>> {
    tags.map_values(|t: &str| t@)
}

impl ArticleView {
    /// The article of which only the page is known.
    pub open spec fn of_page(metadata: MetadataBuilderView) -> ArticleView {
        ArticleView {
            published_time: None,
            modified_time: None,
            expiration_time: None,
            author: None,
            section: None,
            tags: Seq::empty(),
            metadata,
        }
    }

    /// The article taken from a builder: the page as the builder knows it,
    /// as an article, and nothing of the article yet.
    pub open spec fn derived_from(parent: MetadataBuilderView) -> ArticleView {
        ArticleView::of_page(
            MetadataBuilderView { object_type: ObjectType::Article, metadata: parent.metadata },
        )
    }

    /// This article, first published at the given time.
    pub open spec fn with_published_time(self, time: Timestamp) -> ArticleView {
        ArticleView { published_time: Some(time), ..self }
    }

    /// This article, last changed at the given time.
    pub open spec fn with_modified_time(self, time: Timestamp) -> ArticleView {
        ArticleView { modified_time: Some(time), ..self }
    }

    /// This article, out of date after the given time.
    pub open spec fn with_expiration_time(self, time: Timestamp) -> ArticleView {
        ArticleView { expiration_time: Some(time), ..self }
    }

    /// This article with the given author.
    pub open spec fn with_author(self, author: Seq<char>) -> ArticleView {
        ArticleView { author: Some(author), ..self }
    }

    /// This article in the given section.
    pub open spec fn with_section(self, section: Seq<char>) -> ArticleView {
        ArticleView { section: Some(section), ..self }
    }

    /// This article with more tags, after those it has.
    pub open spec fn with_tags(self, tags: Seq<Seq<char>>) -> ArticleView {
        ArticleView { tags: self.tags + tags, ..self }
    }

    /// The entries of this article's document: its own, then the page's.
    pub open spec fn fields(self) -> Seq<(Seq<char>, Tree)> {
        seq![
            ("article:published_time"@, time_tree(self.published_time)),
            ("article:modified_time"@, time_tree(self.modified_time)),
            ("article:expiration_time"@, time_tree(self.expiration_time)),
            ("article:author"@, opt_text_tree(self.author)),
            ("article:section"@, opt_text_tree(self.section)),
            ("tags"@, text_list_tree(self.tags)),
        ] + self.metadata.fields()
    }

    /// This article as a document.
    pub open spec fn document(self) -> Tree {
        Tree::Record(self.fields())
    }
}

/// The leaf for an optional time.
fn time_value(t: Option<Timestamp>) -> (r: Value)
    ensures
        r@ == time_tree(t),
{
    match t {
        Some(t) => Value::Number(signed_decimal_text(t.seconds)),
        None => Value::Null,
    }
}

/// What reading a time from a text gives a setter: the time, or the report
/// that the text holds none.
pub open spec fn time_outcome(input: Seq<char>) -> Result<Timestamp, ErrorView> {
    match Timestamp::of_text(input) {
        Some(t) => Ok(t),
        None => Err(ErrorView::Generic(input)),
    }
}

/// Reads a time for a setter. A text that holds none is reported as
/// [`Error::Generic`] with that text.
pub fn read_time(input: &str) -> (r: Result<Timestamp, Error>)
    ensures
        match time_outcome(input@) {
            Ok(t) => r == Ok::<Timestamp, Error>(t),
            Err(e) => r matches Err(found) && found@ == e,
        },
{
    match Timestamp::parse(input) {
        Some(t) => Ok(t),
        None => Err(Error::Generic(input.to_owned())),
    }
}

impl Default for ArticleMetadataBuilder {
    fn default() -> (r: Self)
        ensures
            r@ == ArticleView::of_page(MetadataBuilderView::empty()),
    {
        let r = ArticleMetadataBuilder {
            published_time: None,
            modified_time: None,
            expiration_time: None,
            author: None,
            section: None,
            tags: Vec::new(),
            metadata: MetadataBuilder::default(),
        };
        assert(r@.tags =~= Seq::<Seq<char>>::empty());
        r
    }
}

impl Clone for ArticleMetadataBuilder {
    fn clone(&self) -> (r: Self)
        ensures
            r@ == self@,
    {
        ArticleMetadataBuilder {
            published_time: self.published_time,
            modified_time: self.modified_time,
            expiration_time: self.expiration_time,
            author: copy_opt_text(&self.author),
            section: copy_opt_text(&self.section),
            tags: copy_texts(&self.tags),
            metadata: self.metadata.clone(),
        }
    }
}

impl ArticleMetadataBuilder {
    /// Sets when the article was first published.
    pub fn set_published_at(&mut self, time: Timestamp) -> (ret: &mut Self)
        ensures
            ret@ == old(self)@.with_published_time(time),
            *final(self) == *final(ret),
    {
        self.published_time = Some(time);
        self
    }

    /// Sets when the article was last changed.
    pub fn set_modified_at(&mut self, time: Timestamp) -> (ret: &mut Self)
        ensures
            ret@ == old(self)@.with_modified_time(time),
            *final(self) == *final(ret),
    {
        self.modified_time = Some(time);
        self
    }

    /// Sets when the article goes out of date.
    pub fn set_expiration_at(&mut self, time: Timestamp) -> (ret: &mut Self)
        ensures
            ret@ == old(self)@.with_expiration_time(time),
            *final(self) == *final(ret),
    {
        self.expiration_time = Some(time);
        self
    }

    /// Sets when the article was first published, from a text in RFC 3339
    /// form. A text that holds no time is reported and changes nothing.
    pub fn set_published_time(&mut self, published_time: &str) -> (r: Result<&mut Self, Error>)
        ensures
            match time_outcome(published_time@) {
                Ok(t) => r matches Ok(ret) && ret@ == old(self)@.with_published_time(t)
                    && *final(self) == *final(ret),
                Err(e) => r matches Err(found) && found@ == e && *final(self) == *old(self),
            },
    {
        match read_time(published_time) {
            Err(e) => Err(e),
            Ok(t) => Ok(self.set_published_at(t)),
        }
    }

    /// Sets when the article was last changed, from a text in RFC 3339
    /// form. A text that holds no time is reported and changes nothing.
    pub fn set_modified_time(&mut self, modified_time: &str) -> (r: Result<&mut Self, Error>)
        ensures
            match time_outcome(modified_time@) {
                Ok(t) => r matches Ok(ret) && ret@ == old(self)@.with_modified_time(t)
                    && *final(self) == *final(ret),
                Err(e) => r matches Err(found) && found@ == e && *final(self) == *old(self),
            },
    {
        match read_time(modified_time) {
            Err(e) => Err(e),
            Ok(t) => Ok(self.set_modified_at(t)),
        }
    }

    /// Sets when the article goes out of date, from a text in RFC 3339
    /// form. A text that holds no time is reported and changes nothing.
    pub fn set_expiration_time(&mut self, expiration_time: &str) -> (r: Result<&mut Self, Error>)
        ensures
            match time_outcome(expiration_time@) {
                Ok(t) => r matches Ok(ret) && ret@ == old(self)@.with_expiration_time(t)
                    && *final(self) == *final(ret),
                Err(e) => r matches Err(found) && found@ == e && *final(self) == *old(self),
            },
    {
        match read_time(expiration_time) {
            Err(e) => Err(e),
            Ok(t) => Ok(self.set_expiration_at(t)),
        }
    }

    /// Sets who wrote the article.
    pub fn set_author(&mut self, author: &str) -> (ret: &mut Self)
        ensures
            ret@ == old(self)@.with_author(author@),
            *final(self) == *final(ret),
    {
        self.author = Some(author.to_owned());
        self
    }

    /// Sets the section the article belongs to.
    pub fn set_section(&mut self, section: &str) -> (ret: &mut Self)
        ensures
            ret@ == old(self)@.with_section(section@),
            *final(self) == *final(ret),
    {
        self.section = Some(section.to_owned());
        self
    }

    /// Adds tags after those the article has, in the order given. A tag
    /// that the article already has is added again.
    pub fn add_tags(&mut self, new_tags: &[&str]) -> (ret: &mut Self)
        ensures
            ret@ == old(self)@.with_tags(tag_texts(new_tags@)),
            *final(self) == *final(ret),
    {
        let ghost before = self@;
        let mut i: usize = 0;
        assert(tag_texts(new_tags@.take(0)) =~= Seq::<Seq<char>>::empty());
        assert(self@ == before.with_tags(tag_texts(new_tags@.take(0)))) by {
            assert(before.tags + Seq::<Seq<char>>::empty() =~= before.tags);
        }
        while i < new_tags.len()
            invariant
                i <= new_tags.len(),
                self@ == before.with_tags(tag_texts(new_tags@.take(i as int))),
            decreases new_tags.len() - i,
        {
            let tag = new_tags[i].to_owned();
            proof {
                assert(texts(self.tags@.push(tag)) =~= texts(self.tags@).push(tag@));
                let seen = tag_texts(new_tags@.take(i as int));
                assert(tag_texts(new_tags@.take(i + 1)) =~= seen.push(new_tags@[i as int]@));
                assert(before.tags + seen.push(tag@) =~= (before.tags + seen).push(tag@));
            }
            self.tags.push(tag);
            i = i + 1;
        }
        assert(new_tags@.take(i as int) =~= new_tags@);
        self
    }

    /// Adds one tag after those the article has.
    pub fn add_tag(&mut self, tag: &str) -> (ret: &mut Self)
        ensures
            ret@ == old(self)@.with_tags(seq![tag@]),
            *final(self) == *final(ret),
    {
        let added = tag.to_owned();
        proof {
            assert(texts(self.tags@.push(added)) =~= texts(self.tags@) + seq![tag@]);
        }
        self.tags.push(added);
        self
    }

    /// What is known of the page itself.
    pub fn get(&self) -> (r: &Metadata)
        ensures
            r@ == self@.metadata.metadata,
    {
        self.metadata.get()
    }
}

/// A builder from which an article's metadata can be taken.
pub trait Article {
    /// The metadata of an article, with what this builder knows of the page.
    fn article(&self) -> ArticleMetadataBuilder;
}

impl Article for MetadataBuilder {
    /// What this builder knows of the page, as an article with nothing
    /// known of the article yet. The builder is copied; later changes to
    /// it do not show in the result.
    fn article(&self) -> (r: ArticleMetadataBuilder)
        ensures
            r@ == ArticleView::derived_from(self@),
    {
        let r = ArticleMetadataBuilder {
            published_time: None,
            modified_time: None,
            expiration_time: None,
            author: None,
            section: None,
            tags: Vec::new(),
            metadata: MetadataBuilder {
                object_type: ObjectType::Article,
                metadata: self.get().clone(),
            },
        };
        assert(r@.tags =~= Seq::<Seq<char>>::empty());
        r
    }
}

impl ToHTML for ArticleMetadataBuilder {
    open spec fn document(&self) -> Tree {
        self@.document()
    }

    fn to_document(&self) -> (r: Value) {
        let mut entries: Vec<(String, Value)> = Vec::new();
        assert(fields_of(entries@) =~= Seq::<(Seq<char>, Tree)>::empty());
        put(&mut entries, "article:published_time", time_value(self.published_time));
        put(&mut entries, "article:modified_time", time_value(self.modified_time));
        put(&mut entries, "article:expiration_time", time_value(self.expiration_time));
        put(&mut entries, "article:author", opt_text_value(&self.author));
        put(&mut entries, "article:section", opt_text_value(&self.section));
        put(&mut entries, "tags", text_list_value(&self.tags));
        put_all(&mut entries, self.metadata.entries());
        assert(fields_of(entries@) =~= self@.fields());
        record(entries)
    }
}

} // verus!
