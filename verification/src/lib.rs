//! Open Graph metadata: a typed model of a page's annotations, builders that
//! fill and check it, and a renderer that turns any such document into
//! `<meta>` tag lines.

pub mod builder;
pub mod convert;
pub mod error;
pub mod metadata;
pub mod object_type;
pub mod text;
pub mod timestamp;
pub mod utils;
pub mod validator;
pub mod web_url;
