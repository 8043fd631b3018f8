use ogp::error::Error;
use ogp::text::{
    copy_opt_text, copy_opt_texts, copy_texts, decimal_text, same_text, signed_decimal_text,
};

#[test]
fn messages_name_what_went_wrong() {
    assert_eq!(Error::Generic("boom".into()).message(), "Generic boom");
    assert_eq!(
        Error::UrlParseError("x y".into()).message(),
        "Failed to parse URL: x y"
    );
    assert_eq!(
        Error::InvalidHttpUrlScheme("ftp".into()).message(),
        "Invalid URL scheme 'ftp'. Must be one of 'http'|'https'"
    );
    assert_eq!(
        Error::InvalidHttpsUrlScheme("http".into()).message(),
        "Invalid URL scheme 'http'. URL must start with 'https://'"
    );
    assert_eq!(
        Error::InvalidImageExtension("pdf".into()).message(),
        "Invalid image extension 'pdf'. Only png|jpg|jpeg|gif|webp images are allowed."
    );
    assert_eq!(
        Error::IncompleteImageDimensions("width").message(),
        "Incomplete visual object dimensions. Only found value for 'width', \
         but values for both 'width' and 'height' are required"
    );
    assert_eq!(
        Error::MissingRequiredProperty("title".into()).message(),
        "Missing required property 'title'"
    );
}

#[test]
fn locale_messages_end_with_the_hint() {
    let hint = "Must be in format `language_TERRITORY` (e.g. 'en_US')";
    assert_eq!(
        Error::EmptyLocale.message(),
        format!("Locale is empty. {}", hint)
    );
    assert_eq!(
        Error::InvalidLocale("x".into()).message(),
        format!("Locale 'x' is invalid. {}", hint)
    );
    assert_eq!(
        Error::InvalidLocaleFormat("en-US".into()).message(),
        format!("Invalid Locale format 'en-US'. {}", hint)
    );
    assert_eq!(
        Error::InvalidLocaleLength("6".into()).message(),
        format!(
            "Expected Locale value with length of 5 but actual length is '6'. {}",
            hint
        )
    );
    assert_eq!(
        Error::InvalidLocaleLanguageCode("zz".into()).message(),
        "Locale 'zz' contains an invalid language code. \
         Language codes must be in ISO 639-1 format."
    );
    assert_eq!(
        Error::InvalidLocaleCountryCode("ZZ".into()).message(),
        "Locale 'ZZ' contains an invalid country code. \
         Country codes must be in ISO 3166 format."
    );
}

#[test]
fn an_io_error_shows_its_own_text() {
    let inner = std::io::Error::new(std::io::ErrorKind::Other, "disk on fire");
    assert_eq!(Error::IO(inner).message(), "disk on fire");
}

#[test]
fn decimal_text_writes_every_digit() {
    assert_eq!(decimal_text(0), "0");
    assert_eq!(decimal_text(7), "7");
    assert_eq!(decimal_text(10), "10");
    assert_eq!(decimal_text(1234567890), "1234567890");
    assert_eq!(decimal_text(u64::MAX), "18446744073709551615");
    assert_eq!(signed_decimal_text(0), "0");
    assert_eq!(signed_decimal_text(-1), "-1");
    assert_eq!(signed_decimal_text(42), "42");
    assert_eq!(signed_decimal_text(i64::MAX), "9223372036854775807");
    assert_eq!(signed_decimal_text(i64::MIN), "-9223372036854775808");
    assert_eq!(signed_decimal_text(-1000), "-1000");
}

#[test]
fn same_text_compares_characters() {
    assert!(same_text("", ""));
    assert!(same_text("abc", "abc"));
    assert!(!same_text("abc", "abd"));
    assert!(!same_text("abc", "ab"));
    assert!(!same_text("ABC", "abc"));
}

#[test]
fn copies_hold_the_same_texts() {
    assert_eq!(copy_opt_text(&None), None);
    assert_eq!(copy_opt_text(&Some("a".to_string())), Some("a".to_string()));
    assert_eq!(copy_texts(&vec![]), Vec::<String>::new());
    assert_eq!(
        copy_texts(&vec!["a".to_string(), "b".to_string(), "a".to_string()]),
        vec!["a", "b", "a"]
    );
    assert_eq!(copy_opt_texts(&None), None);
    assert_eq!(
        copy_opt_texts(&Some(vec!["x".to_string()])),
        Some(vec!["x".to_string()])
    );
}
