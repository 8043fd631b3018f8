//! Metadata of pages that describe a person.

use crate::builder::{Metadata, MetadataBuilder, MetadataBuilderView};
use crate::convert::{
    fields_of, opt_text_tree, opt_text_value, put, put_all, record, ToHTML, Tree, Value,
};
use crate::object_type::ObjectType;
use crate::text::{copy_opt_text, opt_text};
use vstd::prelude::*;

verus! {

/// A person's gender.
#[derive(Debug, Clone, Copy, PartialEq, Eq, Structural)]
pub enum Gender {
    /// Token `male`.
    Male,
    /// Token `female`.
    Female,
}

impl Gender {
    /// The token of a gender.
    pub open spec fn token(self) -> Seq<char> {
        match self {
            Gender::Male => "male"@,
            Gender::Female => "female"@,
        }
    }

    /// The token of this gender.
    pub fn as_str(&self) -> (r: &'static str)
        ensures
            r@ == self.token(),
    {
        match self {
            Gender::Male => "male",
            Gender::Female => "female",
        }
    }
}

/// An optional gender as a document holds it: its token, or null.
pub open spec fn gender_tree(g: Option<Gender>) -> Tree {
    match g {
        Some(g) => Tree::Text(g.token()),
        None => Tree::Null,
    }
}

/// The leaf for an optional gender.
pub fn gender_value(g: Option<Gender>) -> (r: Value)
    ensures
        r@ == gender_tree(g),
{
    match g {
        Some(g) => Value::String(g.as_str().to_owned()),
        None => Value::Null,
    }
}

/// The metadata of a page that describes a person.
#[derive(Debug)]
pub struct ProfileMetadataBuilder {
    /// The name given to the person.
    pub first_name: Option<String>,
    /// The person's family name.
    pub last_name: Option<String>,
    /// A short unique string that identifies the person.
    pub username: Option<String>,
    /// The person's gender.
    pub gender: Option<Gender>,
    /// What is known of the page itself.
    pub metadata: MetadataBuilder,
}

/// A [`ProfileMetadataBuilder`] as contracts see it.
pub struct ProfileView {
    pub first_name: Option<Seq<char>>,
    pub last_name: Option<Seq<char>>,
    pub username: Option<Seq<char>>,
    pub gender: Option<Gender>,
    pub metadata: MetadataBuilderView,
}

impl View for ProfileMetadataBuilder {
    type V = ProfileView;

    open spec fn view(&self) -> ProfileView {
        ProfileView {
            first_name: opt_text(self.first_name),
            last_name: opt_text(self.last_name),
            username: opt_text(self.username),
            gender: self.gender,
            metadata: self.metadata@,
        }
    }
}

impl ProfileView {
    /// The profile of which only the page is known.
    pub open spec fn of_page(metadata: MetadataBuilderView) -> ProfileView {
        ProfileView { first_name: None, last_name: None, username: None, gender: None, metadata }
    }

    /// The profile taken from a builder: the page as the builder knows it,
    /// as a profile, and nothing of the person yet.
    pub open spec fn derived_from(parent: MetadataBuilderView) -> ProfileView {
        ProfileView::of_page(
            MetadataBuilderView { object_type: ObjectType::Profile, metadata: parent.metadata },
        )
    }

    /// The entries of this profile's document: its own, then the page's.
    pub open spec fn fields(self) -> Seq<(Seq<char>, Tree)> {
        seq![
            ("profile:first_name"@, opt_text_tree(self.first_name)),
            ("profile:last_name"@, opt_text_tree(self.last_name)),
            ("profile:username"@, opt_text_tree(self.username)),
            ("profile:gender"@, gender_tree(self.gender)),
        ] + self.metadata.fields()
    }

    /// This profile as a document.
    pub open spec fn document(self) -> Tree {
        Tree::Record(self.fields())
    }
}

impl Default for ProfileMetadataBuilder {
    fn default() -> (r: Self)
        ensures
            r@ == ProfileView::of_page(MetadataBuilderView::empty()),
    {
        ProfileMetadataBuilder {
            first_name: None,
            last_name: None,
            username: None,
            gender: None,
            metadata: MetadataBuilder::default(),
        }
    }
}

impl Clone for ProfileMetadataBuilder {
    fn clone(&self) -> (r: Self)
        ensures
            r@ == self@,
    {
        ProfileMetadataBuilder {
            first_name: copy_opt_text(&self.first_name),
            last_name: copy_opt_text(&self.last_name),
            username: copy_opt_text(&self.username),
            gender: self.gender,
            metadata: self.metadata.clone(),
        }
    }
}

impl ProfileMetadataBuilder {
    /// What is known of the page itself.
    pub fn get(&self) -> (r: &Metadata)
        ensures
            r@ == self@.metadata.metadata,
    {
        self.metadata.get()
    }
}

/// A builder from which a profile's metadata can be taken.
pub trait Profile {
    /// The metadata of a profile, with what this builder knows of the page.
    fn profile(&self) -> ProfileMetadataBuilder;
}

impl Profile for MetadataBuilder {
    /// What this builder knows of the page, as a profile with nothing
    /// known of the person yet. The builder is copied; later changes to it
    /// do not show in the result.
    fn profile(&self) -> (r: ProfileMetadataBuilder)
        ensures
            r@ == ProfileView::derived_from(self@),
    {
        ProfileMetadataBuilder {
            first_name: None,
            last_name: None,
            username: None,
            gender: None,
            metadata: MetadataBuilder {
                object_type: ObjectType::Profile,
                metadata: self.get().clone(),
            },
        }
    }
}

impl ToHTML for ProfileMetadataBuilder {
    open spec fn document(&self) -> Tree {
        self@.document()
    }

    fn to_document(&self) -> (r: Value) {
        let mut entries: Vec<(String, Value)> = Vec::new();
        assert(fields_of(entries@) =~= Seq::<(Seq<char>, Tree)>::empty());
        put(&mut entries, "profile:first_name", opt_text_value(&self.first_name));
        put(&mut entries, "profile:last_name", opt_text_value(&self.last_name));
        put(&mut entries, "profile:username", opt_text_value(&self.username));
        put(&mut entries, "profile:gender", gender_value(self.gender));
        put_all(&mut entries, self.metadata.entries());
        assert(fields_of(entries@) =~= self@.fields());
        record(entries)
    }
}

} // verus!
