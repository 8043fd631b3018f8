use ogp::object_type::{Determiner, ObjectType};

#[test]
fn object_type_website_conversion() {
    // Should fall back to ObjectType::Website when invalid value is provided
    assert_eq!(ObjectType::from_string("podcast"), ObjectType::Website);

    assert_eq!(ObjectType::from_string("website"), ObjectType::Website);
}

#[test]
fn object_type_article_conversion() {
    assert_eq!(ObjectType::from_string("article"), ObjectType::Article)
}

#[test]
fn object_type_music_conversion() {
    assert_eq!(
        ObjectType::from_string("music.album"),
        ObjectType::MusicAlbum
    );
    assert_eq!(
        ObjectType::from_string("music.playlist"),
        ObjectType::MusicPlaylist
    );
    assert_eq!(
        ObjectType::from_string("music.radio_station"),
        ObjectType::MusicRadioStation
    );
    assert_eq!(ObjectType::from_string("music.song"), ObjectType::MusicSong);
}

#[test]
fn object_type_video_conversion() {
    assert_eq!(
        ObjectType::from_string("video.episode"),
        ObjectType::VideoEpisode
    );
    assert_eq!(
        ObjectType::from_string("video.movie"),
        ObjectType::VideoMovie
    );
    assert_eq!(
        ObjectType::from_string("video.other"),
        ObjectType::VideoOther
    );
    assert_eq!(
        ObjectType::from_string("video.tv_show"),
        ObjectType::VideoTvShow
    );
}

#[test]
fn blank_determiner_if_nomatch() {
    assert_eq!(Determiner::from_string("that"), Determiner::Blank)
}

#[test]
fn literal_the_determiner() {
    assert_eq!(Determiner::from_string("the"), Determiner::The)
}

#[test]
fn literal_an_determiner() {
    assert_eq!(Determiner::from_string("an"), Determiner::An)
}

#[test]
fn literal_a_determiner() {
    assert_eq!(Determiner::from_string("a"), Determiner::A)
}

#[test]
fn auto_determiner() {
    assert_eq!(Determiner::from_string("auto"), Determiner::Auto)
}

#[test]
fn object_type_tokens_round_trip() {
    let all = [
        (ObjectType::MusicSong, "music.song"),
        (ObjectType::MusicAlbum, "music.album"),
        (ObjectType::MusicPlaylist, "music.playlist"),
        (ObjectType::MusicRadioStation, "music.radio_station"),
        (ObjectType::VideoMovie, "video.movie"),
        (ObjectType::VideoEpisode, "video.episode"),
        (ObjectType::VideoTvShow, "video.tv_show"),
        (ObjectType::VideoOther, "video.other"),
        (ObjectType::Article, "article"),
        (ObjectType::Book, "book"),
        (ObjectType::Profile, "profile"),
        (ObjectType::Website, "website"),
    ];
    for (variant, token) in all {
        assert_eq!(variant.as_str(), token);
        assert_eq!(ObjectType::from_string(token), variant);
        assert_eq!(ObjectType::from_string(variant.as_str()), variant);
    }
}

#[test]
fn object_type_is_case_sensitive_and_exact() {
    assert_eq!(ObjectType::from_string("Article"), ObjectType::Website);
    assert_eq!(ObjectType::from_string("article "), ObjectType::Website);
    assert_eq!(ObjectType::from_string(""), ObjectType::Website);
    assert_eq!(ObjectType::from_string("music"), ObjectType::Website);
}

#[test]
fn object_type_default_is_website() {
    assert_eq!(ObjectType::default(), ObjectType::Website);
}

#[test]
fn determiner_tokens_round_trip() {
    let all = [
        (Determiner::A, "a"),
        (Determiner::An, "an"),
        (Determiner::The, "the"),
        (Determiner::Auto, "auto"),
        (Determiner::Blank, ""),
    ];
    for (variant, token) in all {
        assert_eq!(variant.as_str(), token);
        assert_eq!(Determiner::from_string(token), variant);
    }
}

#[test]
fn determiner_unknown_is_blank() {
    assert_eq!(Determiner::from_string("xyz"), Determiner::Blank);
    assert_eq!(Determiner::from_string("The"), Determiner::Blank);
    assert_eq!(Determiner::default(), Determiner::Blank);
}
