use ogp::convert::{flatten, Value};
use ogp::error::Error;
use ogp::metadata::image::ParseImageUrlError;
use ogp::metadata::{Audio, Image, Video};
use ogp::web_url::WebUrl;

#[test]
fn image_from_a_url_has_only_the_url() {
    let image = Image::from_str("https://example.com/a.png").unwrap();
    assert_eq!(image.url.as_ref().unwrap().as_str(), "https://example.com/a.png");
    assert!(image.secure_url.is_none());
    assert!(image.mimetype.is_none());
    assert!(image.alt.is_none());
    assert!(image.width.is_none());
    assert!(image.height.is_none());
    let plain = Image::from_str("http://example.com/a.png").unwrap();
    assert_eq!(plain.url.unwrap().scheme(), "http");
}

#[test]
fn image_from_anything_else_fails() {
    assert_eq!(Image::from_str("").unwrap_err(), ParseImageUrlError);
    assert_eq!(Image::from_str("a.png").unwrap_err(), ParseImageUrlError);
    assert_eq!(
        Image::from_str("ftp://example.com/a.png").unwrap_err(),
        ParseImageUrlError
    );
    assert_eq!(
        Image::from_str("data:image/png;base64,AAAA").unwrap_err(),
        ParseImageUrlError
    );
}

#[test]
fn video_and_audio_report_the_text_they_were_given() {
    let video = Video::from_str("https://example.com/v.mp4").unwrap();
    assert_eq!(video.url.unwrap().as_str(), "https://example.com/v.mp4");
    match Video::from_str("nope") {
        Err(Error::UrlParseError(text)) => assert_eq!(text, "nope"),
        other => panic!("unexpected: {:?}", other),
    }
    match Video::from_str("ftp://example.com/v.mp4") {
        Err(Error::UrlParseError(text)) => assert_eq!(text, "ftp://example.com/v.mp4"),
        other => panic!("unexpected: {:?}", other),
    }
    let audio = Audio::from_str("http://example.com/a.mp3").unwrap();
    assert_eq!(audio.url.unwrap().as_str(), "http://example.com/a.mp3");
    assert!(audio.secure_url.is_none());
    assert!(audio.mimetype.is_none());
    match Audio::from_str("file:///tmp/a.mp3") {
        Err(Error::UrlParseError(text)) => assert_eq!(text, "file:///tmp/a.mp3"),
        other => panic!("unexpected: {:?}", other),
    }
}

#[test]
fn defaults_are_empty() {
    let image = Image::default();
    assert!(image.url.is_none() && image.secure_url.is_none());
    assert!(image.mimetype.is_none() && image.alt.is_none());
    assert!(image.width.is_none() && image.height.is_none());
    let video = Video::default();
    assert!(video.url.is_none() && video.width.is_none() && video.height.is_none());
    let audio = Audio::default();
    assert!(audio.url.is_none() && audio.secure_url.is_none() && audio.mimetype.is_none());
}

#[test]
fn clones_are_equal_and_independent() {
    let mut image = Image::from_str("https://example.com/a.png").unwrap();
    image.alt = Some("first".to_string());
    image.width = Some(1);
    image.height = Some(2);
    let copy = image.clone();
    image.alt = Some("second".to_string());
    assert_eq!(copy.alt.as_deref(), Some("first"));
    assert_eq!(copy.url.unwrap().as_str(), "https://example.com/a.png");
    assert_eq!(copy.width, Some(1));
    assert_eq!(copy.height, Some(2));
}

#[test]
fn media_documents_list_every_field_in_order() {
    let mut image = Image::from_url(WebUrl::parse("https://example.com/a.png").unwrap());
    image.alt = Some("An image".to_string());
    image.width = Some(640);
    image.height = Some(480);
    match image.to_document() {
        Value::Object(entries) => {
            let keys: Vec<&str> = entries.iter().map(|e| e.0.as_str()).collect();
            assert_eq!(
                keys,
                vec!["url", "secure_url", "mimetype", "alt", "width", "height"]
            );
            assert!(matches!(&entries[0].1, Value::String(s) if s == "https://example.com/a.png"));
            assert!(matches!(entries[1].1, Value::Null));
            assert!(matches!(entries[2].1, Value::Null));
            assert!(matches!(&entries[3].1, Value::String(s) if s == "An image"));
            assert!(matches!(&entries[4].1, Value::Number(n) if n == "640"));
            assert!(matches!(&entries[5].1, Value::Number(n) if n == "480"));
        }
        other => panic!("unexpected: {:?}", other),
    }
    assert_eq!(
        flatten(&image.to_document(), "og:image"),
        vec![
            (
                "og:image:url".to_string(),
                "https://example.com/a.png".to_string()
            ),
            ("og:image:alt".to_string(), "An image".to_string()),
        ]
    );
    let audio = Audio::from_str("https://example.com/a.mp3").unwrap();
    match audio.to_document() {
        Value::Object(entries) => {
            let keys: Vec<&str> = entries.iter().map(|e| e.0.as_str()).collect();
            assert_eq!(keys, vec!["url", "secure_url", "mimetype"]);
        }
        other => panic!("unexpected: {:?}", other),
    }
    let video = Video::from_str("https://example.com/v.mp4").unwrap();
    assert_eq!(
        flatten(&video.to_document(), "og:video"),
        vec![(
            "og:video:url".to_string(),
            "https://example.com/v.mp4".to_string()
        )]
    );
}

#[test]
fn web_url_keeps_what_the_parser_wrote() {
    let url = WebUrl::parse("HTTPS://Example.COM:443/a/../b?q=1#frag").unwrap();
    assert_eq!(url.scheme(), "https");
    assert_eq!(url.as_str(), "https://example.com/b?q=1#frag");
    assert!(url.has_scheme("https"));
    assert!(!url.has_scheme("http"));
    let copy = url.clone();
    assert_eq!(copy.as_str(), url.as_str());
    assert_eq!(copy.scheme(), url.scheme());
    match WebUrl::parse("://missing") {
        Err(Error::UrlParseError(text)) => assert_eq!(text, "://missing"),
        other => panic!("unexpected: {:?}", other),
    }
}
