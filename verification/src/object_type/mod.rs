//! The kinds of object a page can describe, and the determiner that goes
//! before its title. Both are closed sets, each member with one token.

use crate::convert::{Tree, Value};
use crate::text::same_text;
use vstd::prelude::*;

pub mod article;
pub mod book;
pub mod music;
pub mod profile;
pub mod video;
pub mod website;

verus! {

/// The type of object in the graph that a page describes.
#[derive(Debug, Clone, Copy, PartialEq, Eq, Structural)]
pub enum ObjectType {
    /// A song. Token `music.song`.
    MusicSong,
    /// A music album. Token `music.album`.
    MusicAlbum,
    /// A music playlist. Token `music.playlist`.
    MusicPlaylist,
    /// A radio station. Token `music.radio_station`.
    MusicRadioStation,
    /// A movie. Token `video.movie`.
    VideoMovie,
    /// An episode of a TV show. Token `video.episode`.
    VideoEpisode,
    /// A TV show. Token `video.tv_show`.
    VideoTvShow,
    /// Any other video. Token `video.other`.
    VideoOther,
    /// An article. Token `article`.
    Article,
    /// A book. Token `book`.
    Book,
    /// A person's profile. Token `profile`.
    Profile,
    /// A website; the type of a page that names no other. Token `website`.
    Website,
}

impl Default for ObjectType {
    fn default() -> (r: Self)
        ensures
            r == ObjectType::Website,
    {
        ObjectType::Website
    }
}

impl ObjectType {
    /// The token of a type.
    pub open spec fn token(self) -> Seq<char> {
        match self {
            ObjectType::MusicSong => "music.song"@,
            ObjectType::MusicAlbum => "music.album"@,
            ObjectType::MusicPlaylist => "music.playlist"@,
            ObjectType::MusicRadioStation => "music.radio_station"@,
            ObjectType::VideoMovie => "video.movie"@,
            ObjectType::VideoEpisode => "video.episode"@,
            ObjectType::VideoTvShow => "video.tv_show"@,
            ObjectType::VideoOther => "video.other"@,
            ObjectType::Article => "article"@,
            ObjectType::Book => "book"@,
            ObjectType::Profile => "profile"@,
            ObjectType::Website => "website"@,
        }
    }

    /// The type that a token names; `Website` for a text that is no token.
    pub open spec fn of_token(token: Seq<char>) -> ObjectType {
        if token == "article"@ {
            ObjectType::Article
        } else if token == "book"@ {
            ObjectType::Book
        } else if token == "profile"@ {
            ObjectType::Profile
        } else if token == "website"@ {
            ObjectType::Website
        } else if token == "music.song"@ {
            ObjectType::MusicSong
        } else if token == "music.album"@ {
            ObjectType::MusicAlbum
        } else if token == "music.playlist"@ {
            ObjectType::MusicPlaylist
        } else if token == "music.radio_station"@ {
            ObjectType::MusicRadioStation
        } else if token == "video.movie"@ {
            ObjectType::VideoMovie
        } else if token == "video.episode"@ {
            ObjectType::VideoEpisode
        } else if token == "video.tv_show"@ {
            ObjectType::VideoTvShow
        } else if token == "video.other"@ {
            ObjectType::VideoOther
        } else {
            ObjectType::Website
        }
    }

    /// Whether a text is the token of some type.
    pub open spec fn is_token(token: Seq<char>) -> bool {
        exists|t: ObjectType| #[trigger] t.token() == token
    }

    /// The type that a token names. A text that is no token gives
    /// `ObjectType::Website`; this never fails.
    pub fn from_string(value: &str) -> (r: ObjectType)
        ensures
            r == ObjectType::of_token(value@),
    {
        if same_text(value, "article") {
            ObjectType::Article
        } else if same_text(value, "book") {
            ObjectType::Book
        } else if same_text(value, "profile") {
            ObjectType::Profile
        } else if same_text(value, "website") {
            ObjectType::Website
        } else if same_text(value, "music.song") {
            ObjectType::MusicSong
        } else if same_text(value, "music.album") {
            ObjectType::MusicAlbum
        } else if same_text(value, "music.playlist") {
            ObjectType::MusicPlaylist
        } else if same_text(value, "music.radio_station") {
            ObjectType::MusicRadioStation
        } else if same_text(value, "video.movie") {
            ObjectType::VideoMovie
        } else if same_text(value, "video.episode") {
            ObjectType::VideoEpisode
        } else if same_text(value, "video.tv_show") {
            ObjectType::VideoTvShow
        } else if same_text(value, "video.other") {
            ObjectType::VideoOther
        } else {
            ObjectType::Website
        }
    }

    /// The token of this type.
    pub fn as_str(&self) -> (r: &'static str)
        ensures
            r@ == self.token(),
    {
        match self {
            ObjectType::MusicSong => "music.song",
            ObjectType::MusicAlbum => "music.album",
            ObjectType::MusicPlaylist => "music.playlist",
            ObjectType::MusicRadioStation => "music.radio_station",
            ObjectType::VideoMovie => "video.movie",
            ObjectType::VideoEpisode => "video.episode",
            ObjectType::VideoTvShow => "video.tv_show",
            ObjectType::VideoOther => "video.other",
            ObjectType::Article => "article",
            ObjectType::Book => "book",
            ObjectType::Profile => "profile",
            ObjectType::Website => "website",
        }
    }

    /// Every type comes back from its own token.
    pub proof fn lemma_token_round_trip(t: ObjectType)
        ensures
            ObjectType::of_token(t.token()) == t,
    {
        reveal_object_type_tokens();
    }

    /// A token comes back from the type that it names: reading a text and
    /// writing the result gives the same text, for every text that is a token.
    pub proof fn lemma_reading_a_token_keeps_it(token: Seq<char>)
        requires
            ObjectType::is_token(token),
        ensures
            ObjectType::of_token(token).token() == token,
    {
        let t = choose|t: ObjectType| #[trigger] t.token() == token;
        ObjectType::lemma_token_round_trip(t);
    }

    /// A text that is no token reads as `Website`.
    pub proof fn lemma_unknown_reads_as_website(token: Seq<char>)
        requires
            !ObjectType::is_token(token),
        ensures
            ObjectType::of_token(token) == ObjectType::Website,
    {
        let t = ObjectType::of_token(token);
        if t != ObjectType::Website {
            assert(t.token() == token);
        }
    }
}

/// What tells the tokens of the object types apart: their lengths, and one
/// character where two lengths agree.
proof fn reveal_object_type_tokens()
    ensures
        "book"@.len() == 4,
        "article"@.len() == 7 && "article"@[0] == 'a',
        "profile"@.len() == 7 && "profile"@[0] == 'p',
        "website"@.len() == 7 && "website"@[0] == 'w',
        "music.song"@.len() == 10,
        "music.album"@.len() == 11 && "music.album"@[0] == 'm',
        "video.movie"@.len() == 11 && "video.movie"@[0] == 'v' && "video.movie"@[6] == 'm',
        "video.other"@.len() == 11 && "video.other"@[0] == 'v' && "video.other"@[6] == 'o',
        "video.episode"@.len() == 13 && "video.episode"@[6] == 'e',
        "video.tv_show"@.len() == 13 && "video.tv_show"@[6] == 't',
        "music.playlist"@.len() == 14,
        "music.radio_station"@.len() == 19,
{
    reveal_strlit("book");
    reveal_strlit("article");
    reveal_strlit("profile");
    reveal_strlit("website");
    reveal_strlit("music.song");
    reveal_strlit("music.album");
    reveal_strlit("video.movie");
    reveal_strlit("video.other");
    reveal_strlit("video.episode");
    reveal_strlit("video.tv_show");
    reveal_strlit("music.playlist");
    reveal_strlit("music.radio_station");
}

/// The word that goes before an object's title in a sentence. With `Auto`
/// the reader of the page chooses between "a" and "an".
#[derive(Debug, Clone, Copy, PartialEq, Eq, Structural)]
pub enum Determiner {
    /// Token `a`.
    A,
    /// Token `an`.
    An,
    /// Token `the`.
    The,
    /// No word; the empty token.
    Blank,
    /// Token `auto`.
    Auto,
}

impl Default for Determiner {
    fn default() -> (r: Self)
        ensures
            r == Determiner::Blank,
    {
        Determiner::Blank
    }
}

impl Determiner {
    /// The token of a determiner.
    pub open spec fn token(self) -> Seq<char> {
        match self {
            Determiner::A => "a"@,
            Determiner::An => "an"@,
            Determiner::The => "the"@,
            Determiner::Blank => ""@,
            Determiner::Auto => "auto"@,
        }
    }

    /// The determiner that a token names; `Blank` for a text that is no token.
    pub open spec fn of_token(token: Seq<char>) -> Determiner {
        if token == "a"@ {
            Determiner::A
        } else if token == "an"@ {
            Determiner::An
        } else if token == "the"@ {
            Determiner::The
        } else if token == "auto"@ {
            Determiner::Auto
        } else {
            Determiner::Blank
        }
    }

    /// Whether a text is the token of some determiner.
    pub open spec fn is_token(token: Seq<char>) -> bool {
        exists|d: Determiner| #[trigger] d.token() == token
    }

    /// The determiner that a token names. A text that is no token gives
    /// `Determiner::Blank`; this never fails.
    pub fn from_string(value: &str) -> (r: Determiner)
        ensures
            r == Determiner::of_token(value@),
    {
        if same_text(value, "a") {
            Determiner::A
        } else if same_text(value, "an") {
            Determiner::An
        } else if same_text(value, "the") {
            Determiner::The
        } else if same_text(value, "auto") {
            Determiner::Auto
        } else {
            Determiner::Blank
        }
    }

    /// The token of this determiner.
    pub fn as_str(&self) -> (r: &'static str)
        ensures
            r@ == self.token(),
    {
        match self {
            Determiner::A => "a",
            Determiner::An => "an",
            Determiner::The => "the",
            Determiner::Blank => "",
            Determiner::Auto => "auto",
        }
    }

    /// Every determiner comes back from its own token.
    pub proof fn lemma_token_round_trip(d: Determiner)
        ensures
            Determiner::of_token(d.token()) == d,
    {
        reveal_determiner_tokens();
    }

    /// A token comes back from the determiner that it names.
    pub proof fn lemma_reading_a_token_keeps_it(token: Seq<char>)
        requires
            Determiner::is_token(token),
        ensures
            Determiner::of_token(token).token() == token,
    {
        let d = choose|d: Determiner| #[trigger] d.token() == token;
        Determiner::lemma_token_round_trip(d);
    }

    /// A text that is no token reads as `Blank`.
    pub proof fn lemma_unknown_reads_as_blank(token: Seq<char>)
        requires
            !Determiner::is_token(token),
        ensures
            Determiner::of_token(token) == Determiner::Blank,
    {
        let d = Determiner::of_token(token);
        if d != Determiner::Blank {
            assert(d.token() == token);
        }
    }
}

/// An optional determiner as a document holds it: its token, or null.
pub open spec fn determiner_tree(d: Option<Determiner>) -> Tree {
    match d {
        Some(d) => Tree::Text(d.token()),
        None => Tree::Null,
    }
}

/// The leaf for an optional determiner.
pub fn determiner_value(d: Option<Determiner>) -> (r: Value)
    ensures
        r@ == determiner_tree(d),
{
    match d {
        Some(d) => Value::String(d.as_str().to_owned()),
        None => Value::Null,
    }
}

/// What tells the tokens of the determiners apart.
proof fn reveal_determiner_tokens()
    ensures
        "a"@.len() == 1,
        "an"@.len() == 2,
        "the"@.len() == 3,
        ""@.len() == 0,
        "auto"@.len() == 4,
        "auto"@[1] == 'u',
        "an"@[1] == 'n',
{
    reveal_strlit("a");
    reveal_strlit("an");
    reveal_strlit("the");
    reveal_strlit("");
    reveal_strlit("auto");
}

} // verus!
