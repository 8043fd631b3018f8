use ogp::builder::{MetadataBuilder, Validate};
use ogp::convert::ToHTML;
use ogp::error::Error;
use ogp::metadata::{Audio, Image, OgMetadataBuilder, Video};
use ogp::object_type::{Determiner, ObjectType};
use ogp::validator::Validatable;

#[test]
fn a_new_builder_is_an_empty_website() {
    let builder = MetadataBuilder::new();
    assert_eq!(builder.object_type, ObjectType::Website);
    let metadata = builder.get();
    assert!(metadata.url.is_none());
    assert!(metadata.title.is_none());
    assert!(metadata.description.is_none());
    assert!(metadata.site_name.is_none());
    assert!(metadata.determiner.is_none());
    assert!(metadata.locale.is_none());
    assert!(metadata.locale_alternate.is_none());
    assert!(metadata.images.is_empty());
    assert!(metadata.videos.is_empty());
    assert!(metadata.audios.is_empty());
    let og = OgMetadataBuilder::new().get_metadata();
    assert_eq!(og.object_type, ObjectType::Website);
    assert!(og.title.is_none() && og.url.is_none() && og.images.is_empty());
}

#[test]
fn with_type_tags_a_fresh_document() {
    let builder = MetadataBuilder::with_type(ObjectType::Book);
    assert_eq!(builder.object_type, ObjectType::Book);
    assert!(builder.get().title.is_none());
    let og = OgMetadataBuilder::with_type(ObjectType::VideoMovie).get_metadata();
    assert_eq!(og.object_type, ObjectType::VideoMovie);
    assert!(og.title.is_none());
    assert!(og.images.is_empty());
}

#[test]
fn setters_chain_and_store() {
    let mut builder = MetadataBuilder::new();
    builder
        .set_title("Title")
        .set_description("Description")
        .set_site_name("Site")
        .set_determiner(Some(Determiner::The))
        .add_locale_alternate("de_DE")
        .add_locale_alternate("fr_FR");
    let metadata = builder.get();
    assert_eq!(metadata.title.as_deref(), Some("Title"));
    assert_eq!(metadata.description.as_deref(), Some("Description"));
    assert_eq!(metadata.site_name.as_deref(), Some("Site"));
    assert_eq!(metadata.determiner, Some(Determiner::The));
    assert_eq!(
        metadata.locale_alternate,
        Some(vec!["de_DE".to_string(), "fr_FR".to_string()])
    );
    builder.set_determiner(None).set_title("Other");
    assert_eq!(builder.get().determiner, None);
    assert_eq!(builder.get().title.as_deref(), Some("Other"));
    assert_eq!(builder.get().description.as_deref(), Some("Description"));
}

#[test]
fn set_url_accepts_only_http_urls() {
    let mut builder = MetadataBuilder::new();
    builder
        .set_url("https://Example.com/page")
        .unwrap()
        .set_title("T");
    assert_eq!(
        builder.get().url.as_deref(),
        Some("https://example.com/page")
    );
    match builder.set_url("ftp://example.com/page") {
        Err(Error::InvalidHttpUrlScheme(scheme)) => assert_eq!(scheme, "ftp"),
        other => panic!("unexpected: {:?}", other.map(|_| ())),
    }
    match builder.set_url("no url at all") {
        Err(Error::UrlParseError(text)) => assert_eq!(text, "no url at all"),
        other => panic!("unexpected: {:?}", other.map(|_| ())),
    }
    // A rejected text changes nothing.
    assert_eq!(
        builder.get().url.as_deref(),
        Some("https://example.com/page")
    );
    assert_eq!(builder.get().title.as_deref(), Some("T"));
}

#[test]
fn set_locale_accepts_only_valid_locales() {
    let mut builder = OgMetadataBuilder::new();
    builder.set_locale("en_US").unwrap();
    assert_eq!(builder.get_metadata().locale.as_deref(), Some("en_US"));
    assert!(matches!(
        builder.set_locale("").map(|_| ()),
        Err(Error::EmptyLocale)
    ));
    assert!(matches!(
        builder.set_locale("english").map(|_| ()),
        Err(Error::InvalidLocaleLength(_))
    ));
    assert!(matches!(
        builder.set_locale("en/US").map(|_| ()),
        Err(Error::InvalidLocaleFormat(_))
    ));
    assert!(matches!(
        builder.set_locale("xx_US").map(|_| ()),
        Err(Error::InvalidLocaleLanguageCode(_))
    ));
    assert!(matches!(
        builder.set_locale("en_XX").map(|_| ()),
        Err(Error::InvalidLocaleCountryCode(_))
    ));
    assert_eq!(builder.get_metadata().locale.as_deref(), Some("en_US"));
    let mut plain = MetadataBuilder::new();
    plain.set_locale("de_DE").unwrap().set_title("T");
    assert_eq!(plain.get().locale.as_deref(), Some("de_DE"));
    assert!(plain.set_locale("de_DEU").is_err());
    assert_eq!(plain.get().locale.as_deref(), Some("de_DE"));
}

#[test]
fn alternate_locales_are_kept_in_order_with_repeats() {
    let mut builder = OgMetadataBuilder::new();
    assert!(builder.get_metadata().locale_alternate.is_none());
    builder
        .add_locale_alternate("de_DE")
        .add_locale_alternate("de_DE")
        .add_locale_alternate("not checked");
    assert_eq!(
        builder.get_metadata().locale_alternate,
        Some(vec![
            "de_DE".to_string(),
            "de_DE".to_string(),
            "not checked".to_string()
        ])
    );
}

#[test]
fn media_are_appended_in_order_with_repeats() {
    let mut builder = OgMetadataBuilder::new();
    let first = Image::from_str("https://example.com/1.png").unwrap();
    builder
        .add_image(first.clone())
        .add_image(first)
        .add_image_url("https://example.com/2.png")
        .unwrap()
        .add_video(Video::from_str("https://example.com/1.mp4").unwrap())
        .add_video_url("https://example.com/2.mp4")
        .unwrap()
        .add_audio(Audio::from_str("https://example.com/1.mp3").unwrap())
        .add_audio_url("https://example.com/2.mp3")
        .unwrap();
    let metadata = builder.get_metadata();
    let images: Vec<&str> = metadata
        .images
        .iter()
        .map(|i| i.url.as_ref().unwrap().as_str())
        .collect();
    assert_eq!(
        images,
        vec![
            "https://example.com/1.png",
            "https://example.com/1.png",
            "https://example.com/2.png"
        ]
    );
    let videos: Vec<&str> = metadata
        .videos
        .iter()
        .map(|i| i.url.as_ref().unwrap().as_str())
        .collect();
    assert_eq!(
        videos,
        vec!["https://example.com/1.mp4", "https://example.com/2.mp4"]
    );
    let audios: Vec<&str> = metadata
        .audios
        .iter()
        .map(|i| i.url.as_ref().unwrap().as_str())
        .collect();
    assert_eq!(
        audios,
        vec!["https://example.com/1.mp3", "https://example.com/2.mp3"]
    );
}

#[test]
fn a_bad_media_url_is_reported_and_adds_nothing() {
    let mut builder = OgMetadataBuilder::new();
    match builder.add_image_url("nope") {
        Err(Error::UrlParseError(text)) => assert_eq!(text, "nope"),
        other => panic!("unexpected: {:?}", other.map(|_| ())),
    }
    match builder.add_video_url("ftp://example.com/v") {
        Err(Error::UrlParseError(text)) => assert_eq!(text, "ftp://example.com/v"),
        other => panic!("unexpected: {:?}", other.map(|_| ())),
    }
    match builder.add_audio_url("") {
        Err(Error::UrlParseError(text)) => assert_eq!(text, ""),
        other => panic!("unexpected: {:?}", other.map(|_| ())),
    }
    let metadata = builder.get_metadata();
    assert!(metadata.images.is_empty());
    assert!(metadata.videos.is_empty());
    assert!(metadata.audios.is_empty());
    let mut plain = MetadataBuilder::new();
    assert!(plain.add_image_url("relative/path.png").is_err());
    assert!(plain.get().images.is_empty());
    plain
        .add_image_url("https://example.com/a.png")
        .unwrap()
        .add_video(Video::default())
        .add_audio(Audio::default());
    assert_eq!(plain.get().images.len(), 1);
    assert_eq!(plain.get().videos.len(), 1);
    assert_eq!(plain.get().audios.len(), 1);
}

#[test]
fn single_media_setters_change_nothing() {
    let mut builder = MetadataBuilder::new();
    builder
        .set_title("T")
        .set_image("https://example.com/a.png")
        .set_video("https://example.com/a.mp4")
        .set_audio("https://example.com/a.mp3");
    assert_eq!(builder.get().title.as_deref(), Some("T"));
    assert!(builder.get().images.is_empty());
    assert!(builder.get().videos.is_empty());
    assert!(builder.get().audios.is_empty());
    let mut og = OgMetadataBuilder::new();
    og.set_image("x").set_video("y").set_audio("z");
    assert!(og.get_metadata().images.is_empty());
}

#[test]
fn validate_reports_the_first_missing_property_only() {
    let mut builder = MetadataBuilder::new();
    match builder.get().validate() {
        Err(Error::MissingRequiredProperty(name)) => assert_eq!(name, "title"),
        other => panic!("unexpected: {:?}", other),
    }
    builder.set_description("D");
    match builder.get().validate() {
        Err(Error::MissingRequiredProperty(name)) => assert_eq!(name, "title"),
        other => panic!("unexpected: {:?}", other),
    }
    builder.set_title("T");
    match builder.get().validate() {
        Err(Error::MissingRequiredProperty(name)) => assert_eq!(name, "url"),
        other => panic!("unexpected: {:?}", other),
    }
    builder.set_url("https://example.com").unwrap();
    assert!(builder.get().validate().is_ok());

    let mut og = OgMetadataBuilder::new();
    og.set_title("T").set_url("https://example.com").unwrap();
    match og.get_metadata().validate() {
        Err(Error::MissingRequiredProperty(name)) => assert_eq!(name, "description"),
        other => panic!("unexpected: {:?}", other),
    }
    og.set_description("D");
    assert!(og.get_metadata().validate().is_ok());
}

#[test]
fn a_snapshot_does_not_follow_the_builder() {
    let mut builder = OgMetadataBuilder::new();
    builder.set_title("before");
    let snapshot = builder.get_metadata();
    builder.set_title("after").add_locale_alternate("de_DE");
    assert_eq!(snapshot.title.as_deref(), Some("before"));
    assert!(snapshot.locale_alternate.is_none());
    assert_eq!(builder.get_metadata().title.as_deref(), Some("after"));
    let copy = builder.clone();
    builder.set_title("last");
    assert_eq!(copy.get_metadata().title.as_deref(), Some("after"));
}

#[test]
fn a_builder_renders_its_type_first_and_then_the_page() {
    let mut builder = MetadataBuilder::with_type(ObjectType::Article);
    builder
        .set_title("T")
        .set_url("https://example.com/")
        .unwrap()
        .set_description("D")
        .set_determiner(Some(Determiner::An))
        .set_locale("en_US")
        .unwrap()
        .add_locale_alternate("de_DE")
        .add_locale_alternate("fr_FR")
        .add_image_url("https://example.com/1.png")
        .unwrap()
        .add_image_url("https://example.com/2.png")
        .unwrap();
    assert_eq!(
        builder.to_html(),
        vec![
            "<meta property=\"og:type\" content=\"article\" />",
            "<meta property=\"og:url\" content=\"https://example.com/\" />",
            "<meta property=\"og:title\" content=\"T\" />",
            "<meta property=\"og:description\" content=\"D\" />",
            "<meta property=\"og:determiner\" content=\"an\" />",
            "<meta property=\"og:locale\" content=\"en_US\" />",
            "<meta property=\"og:locale:alternate\" content=\"de_DE\" />",
            "<meta property=\"og:locale:alternate\" content=\"fr_FR\" />",
            "<meta property=\"images:url\" content=\"https://example.com/1.png\" />",
            "<meta property=\"images:url\" content=\"https://example.com/2.png\" />",
        ]
    );
    assert_eq!(
        builder.get().to_html(),
        builder.to_html()[1..].to_vec()
    );
}

#[test]
fn og_metadata_renders_media_under_og_keys() {
    let mut builder = OgMetadataBuilder::with_type(ObjectType::MusicSong);
    let mut image = Image::from_str("https://example.com/1.png").unwrap();
    image.alt = Some("Cover".to_string());
    image.width = Some(100);
    image.height = Some(100);
    builder
        .set_title("Song")
        .add_image(image)
        .add_video_url("https://example.com/1.mp4")
        .unwrap()
        .add_audio_url("https://example.com/1.mp3")
        .unwrap();
    let expected = vec![
        "<meta property=\"og:type\" content=\"music.song\" />",
        "<meta property=\"og:title\" content=\"Song\" />",
        "<meta property=\"og:image:url\" content=\"https://example.com/1.png\" />",
        "<meta property=\"og:image:alt\" content=\"Cover\" />",
        "<meta property=\"og:video:url\" content=\"https://example.com/1.mp4\" />",
        "<meta property=\"og:audio:url\" content=\"https://example.com/1.mp3\" />",
    ];
    assert_eq!(builder.to_html(), expected);
    assert_eq!(builder.get_metadata().to_html(), expected);
}

#[test]
fn an_empty_page_renders_only_its_type() {
    assert_eq!(
        MetadataBuilder::new().to_html(),
        vec!["<meta property=\"og:type\" content=\"website\" />"]
    );
    assert!(MetadataBuilder::new().get().to_html().is_empty());
    assert_eq!(
        OgMetadataBuilder::new().to_html(),
        vec!["<meta property=\"og:type\" content=\"website\" />"]
    );
}
