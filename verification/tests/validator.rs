use ogp::error::Error;
use ogp::metadata::{Audio, Image, Video};
use ogp::validator::{
    check_dimensions, check_https_scheme, DimensionsValidator, SecureURLValidator, Validatable,
};
use ogp::web_url::WebUrl;

#[test]
fn one_dimension_alone_fails_and_names_the_absent_one() {
    match check_dimensions(Some(10), None) {
        Err(Error::IncompleteImageDimensions(which)) => assert_eq!(which, "height"),
        other => panic!("unexpected: {:?}", other),
    }
    match check_dimensions(None, Some(10)) {
        Err(Error::IncompleteImageDimensions(which)) => assert_eq!(which, "width"),
        other => panic!("unexpected: {:?}", other),
    }
    assert!(check_dimensions(None, None).is_ok());
    assert!(check_dimensions(Some(0), Some(0)).is_ok());
    assert!(check_dimensions(Some(u32::MAX), Some(1)).is_ok());
}

#[test]
fn image_dimensions_are_checked_by_validate() {
    let mut image = Image::default();
    assert!(image.validate().is_ok());
    assert!(image.validate_dimensions().is_ok());
    image.width = Some(640);
    assert_eq!(image.width(), Some(640));
    assert_eq!(image.height(), None);
    match image.validate() {
        Err(Error::IncompleteImageDimensions(which)) => assert_eq!(which, "height"),
        other => panic!("unexpected: {:?}", other),
    }
    image.height = Some(480);
    assert!(image.validate().is_ok());
    image.width = None;
    match image.validate_dimensions() {
        Err(Error::IncompleteImageDimensions(which)) => assert_eq!(which, "width"),
        other => panic!("unexpected: {:?}", other),
    }
}

#[test]
fn video_dimensions_are_checked_by_validate() {
    let mut video = Video::default();
    assert!(video.validate().is_ok());
    video.height = Some(1);
    match video.validate() {
        Err(Error::IncompleteImageDimensions(which)) => assert_eq!(which, "width"),
        other => panic!("unexpected: {:?}", other),
    }
    video.width = Some(2);
    assert!(video.validate().is_ok());
    assert_eq!(video.width(), Some(2));
    assert_eq!(video.height(), Some(1));
}

#[test]
fn audio_is_always_valid() {
    assert!(Audio::default().validate().is_ok());
    assert!(Audio::from_str("https://example.com/a.mp3")
        .unwrap()
        .validate()
        .is_ok());
}

#[test]
fn secure_url_must_be_https() {
    let mut image = Image::default();
    assert!(image.validate_secure_url().is_ok());
    image.secure_url = Some(WebUrl::parse("https://example.com/a.png").unwrap());
    assert!(image.validate_secure_url().is_ok());
    assert_eq!(
        image.secure_url().unwrap().as_str(),
        "https://example.com/a.png"
    );
    image.secure_url = Some(WebUrl::parse("http://example.com/a.png").unwrap());
    match image.validate_secure_url() {
        Err(Error::InvalidHttpsUrlScheme(scheme)) => assert_eq!(scheme, "http"),
        other => panic!("unexpected: {:?}", other),
    }
    image.secure_url = Some(WebUrl::parse("ftp://example.com/a.png").unwrap());
    match image.validate_secure_url() {
        Err(Error::InvalidHttpsUrlScheme(scheme)) => assert_eq!(scheme, "ftp"),
        other => panic!("unexpected: {:?}", other),
    }
}

#[test]
fn secure_url_is_checked_on_video_and_audio_too() {
    let mut video = Video::default();
    video.secure_url = Some(WebUrl::parse("HTTPS://example.com/v.mp4").unwrap());
    assert!(video.validate_secure_url().is_ok());
    let mut audio = Audio::default();
    assert!(audio.validate_secure_url().is_ok());
    audio.secure_url = Some(WebUrl::parse("mailto:someone@example.com").unwrap());
    match audio.validate_secure_url() {
        Err(Error::InvalidHttpsUrlScheme(scheme)) => assert_eq!(scheme, "mailto"),
        other => panic!("unexpected: {:?}", other),
    }
}

#[test]
fn https_scheme_check_is_exact() {
    assert!(check_https_scheme("https").is_ok());
    for scheme in ["http", "HTTPS", "", "https ", "ftp"] {
        match check_https_scheme(scheme) {
            Err(Error::InvalidHttpsUrlScheme(found)) => assert_eq!(found, scheme),
            other => panic!("unexpected: {:?}", other),
        }
    }
}
