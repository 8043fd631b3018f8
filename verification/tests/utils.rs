use ogp::error::Error;
use ogp::utils::{
    check_http_scheme, file_extension, is_allowed_media_ext, is_valid_image_ext,
    is_valid_locale_format, judge_locale, validate_http_url, validate_locale,
    ALLOWED_MEDIA_FILE_EXT,
};

#[test]
fn valid_image_extension() {
    let filename = "image.jpg";
    assert!(is_valid_image_ext(filename));
}

#[test]
fn valid_image_extension_lowercase() {
    let filename = "image.jpeg";
    assert!(is_valid_image_ext(filename));
}

#[test]
fn invalid_image_extension() {
    let filename = "document.pdf";
    assert!(!is_valid_image_ext(filename));
}

#[test]
fn no_extension() {
    let filename = "file_without_extension";
    assert!(!is_valid_image_ext(filename));
}

#[test]
fn case_sensitive_extension() {
    let filename = "image.JPG";
    assert!(is_valid_image_ext(filename));
}

#[test]
fn valid_locale() {
    assert!(validate_locale("en_US").is_ok());
    assert!(validate_locale("de_DE").is_ok());
    assert!(validate_locale("fr_FR").is_ok());
}

#[test]
fn empty_locale() {
    assert!(validate_locale("").is_err());
}

#[test]
fn invalid_locale_length() {
    assert!(validate_locale("en_USA").is_err());
    assert!(validate_locale("enU").is_err());
}

#[test]
fn invalid_locale_language_code() {
    assert!(validate_locale("eng_US").is_err());
    assert!(validate_locale("_US").is_err());
}

#[test]
fn invalid_locale_country_code() {
    assert!(validate_locale("en_USA").is_err());
    assert!(validate_locale("en_").is_err());
}

#[test]
fn every_allowed_extension_is_accepted() {
    for ext in ALLOWED_MEDIA_FILE_EXT {
        assert!(is_allowed_media_ext(ext));
        assert!(is_valid_image_ext(&format!("picture.{}", ext)));
    }
    assert!(!is_allowed_media_ext("PNG"));
    assert!(!is_allowed_media_ext(""));
    assert!(!is_allowed_media_ext("svg"));
}

#[test]
fn extension_is_what_follows_the_last_dot() {
    assert_eq!(file_extension("archive.tar.gz"), "gz");
    assert_eq!(file_extension("image.JPG"), "JPG");
    assert_eq!(file_extension("no_dot"), "no_dot");
    assert_eq!(file_extension("trailing."), "");
    assert_eq!(file_extension(""), "");
    assert_eq!(file_extension(".png"), "png");
    assert_eq!(file_extension("r\u{e9}sum\u{e9}.webp"), "webp");
}

#[test]
fn a_bare_extension_counts_as_a_name() {
    assert!(is_valid_image_ext("png"));
    assert!(is_valid_image_ext("photo.tar.GIF"));
    assert!(!is_valid_image_ext("photo.gif.txt"));
    assert!(!is_valid_image_ext("photo."));
    assert!(!is_valid_image_ext(""));
}

#[test]
fn lowercase_is_applied_before_the_lookup() {
    assert!(is_valid_image_ext("a.WebP"));
    assert!(is_valid_image_ext("a.JPEG"));
    assert!(!is_allowed_media_ext("WebP"));
}

#[test]
fn locale_errors_are_of_their_own_kind() {
    assert!(matches!(validate_locale(""), Err(Error::EmptyLocale)));
    match validate_locale("en_USA") {
        Err(Error::InvalidLocaleLength(n)) => assert_eq!(n, "6"),
        other => panic!("unexpected: {:?}", other),
    }
    match validate_locale("enU") {
        Err(Error::InvalidLocaleLength(n)) => assert_eq!(n, "3"),
        other => panic!("unexpected: {:?}", other),
    }
    match validate_locale("en-US") {
        Err(Error::InvalidLocaleFormat(l)) => assert_eq!(l, "en-US"),
        other => panic!("unexpected: {:?}", other),
    }
    match validate_locale("e1_US") {
        Err(Error::InvalidLocaleFormat(l)) => assert_eq!(l, "e1_US"),
        other => panic!("unexpected: {:?}", other),
    }
    match validate_locale("zz_US") {
        Err(Error::InvalidLocaleLanguageCode(l)) => assert_eq!(l, "zz"),
        other => panic!("unexpected: {:?}", other),
    }
    match validate_locale("en_ZZ") {
        Err(Error::InvalidLocaleCountryCode(c)) => assert_eq!(c, "ZZ"),
        other => panic!("unexpected: {:?}", other),
    }
}

#[test]
fn locale_length_counts_characters_not_bytes() {
    // Five characters, more than five bytes: the length layer passes and the
    // shape layer reports.
    match validate_locale("\u{e9}n_US") {
        Err(Error::InvalidLocaleFormat(l)) => assert_eq!(l, "\u{e9}n_US"),
        other => panic!("unexpected: {:?}", other),
    }
    match validate_locale("a_\u{e9}") {
        Err(Error::InvalidLocaleLength(n)) => assert_eq!(n, "3"),
        other => panic!("unexpected: {:?}", other),
    }
    match validate_locale("en_US_extra_long") {
        Err(Error::InvalidLocaleLength(n)) => assert_eq!(n, "16"),
        other => panic!("unexpected: {:?}", other),
    }
}

#[test]
fn locale_codes_are_case_sensitive() {
    assert!(matches!(
        validate_locale("EN_US"),
        Err(Error::InvalidLocaleLanguageCode(_))
    ));
    assert!(matches!(
        validate_locale("en_us"),
        Err(Error::InvalidLocaleCountryCode(_))
    ));
}

#[test]
fn locale_shape_is_two_letters_underscore_two_letters() {
    assert!(is_valid_locale_format("en_US"));
    assert!(is_valid_locale_format("zz_zz"));
    assert!(is_valid_locale_format("AB_cd"));
    assert!(!is_valid_locale_format("en-US"));
    assert!(!is_valid_locale_format("en_U5"));
    assert!(!is_valid_locale_format("en_USA"));
    assert!(!is_valid_locale_format("xen_US"));
    assert!(!is_valid_locale_format("en_US\n"));
    assert!(!is_valid_locale_format(""));
}

#[test]
fn judge_locale_takes_the_first_failing_layer() {
    assert!(matches!(
        judge_locale("", true, true, true),
        Err(Error::EmptyLocale)
    ));
    assert!(matches!(
        judge_locale("abc", true, true, true),
        Err(Error::InvalidLocaleLength(_))
    ));
    assert!(matches!(
        judge_locale("en_US", false, false, false),
        Err(Error::InvalidLocaleFormat(_))
    ));
    assert!(matches!(
        judge_locale("en_US", true, false, false),
        Err(Error::InvalidLocaleLanguageCode(_))
    ));
    assert!(matches!(
        judge_locale("en_US", true, true, false),
        Err(Error::InvalidLocaleCountryCode(_))
    ));
    assert!(judge_locale("en_US", true, true, true).is_ok());
    match judge_locale("ab_CD", true, false, true) {
        Err(Error::InvalidLocaleLanguageCode(l)) => assert_eq!(l, "ab"),
        other => panic!("unexpected: {:?}", other),
    }
    match judge_locale("ab_CD", true, true, false) {
        Err(Error::InvalidLocaleCountryCode(c)) => assert_eq!(c, "CD"),
        other => panic!("unexpected: {:?}", other),
    }
}

#[test]
fn http_urls_are_accepted_and_others_reported() {
    let url = validate_http_url("https://example.com/a.png").unwrap();
    assert_eq!(url.as_str(), "https://example.com/a.png");
    assert_eq!(url.scheme(), "https");
    let url = validate_http_url("HTTP://Example.com").unwrap();
    assert_eq!(url.scheme(), "http");
    assert_eq!(url.as_str(), "http://example.com/");
    match validate_http_url("ftp://example.com/a.png") {
        Err(Error::InvalidHttpUrlScheme(s)) => assert_eq!(s, "ftp"),
        other => panic!("unexpected: {:?}", other),
    }
    match validate_http_url("not a url") {
        Err(Error::UrlParseError(s)) => assert_eq!(s, "not a url"),
        other => panic!("unexpected: {:?}", other),
    }
    match validate_http_url("/relative/path") {
        Err(Error::UrlParseError(s)) => assert_eq!(s, "/relative/path"),
        other => panic!("unexpected: {:?}", other),
    }
}

#[test]
fn http_scheme_check_is_exact() {
    assert!(check_http_scheme("http").is_ok());
    assert!(check_http_scheme("https").is_ok());
    match check_http_scheme("HTTPS") {
        Err(Error::InvalidHttpUrlScheme(s)) => assert_eq!(s, "HTTPS"),
        other => panic!("unexpected: {:?}", other),
    }
    assert!(check_http_scheme("").is_err());
    assert!(check_http_scheme("file").is_err());
}
