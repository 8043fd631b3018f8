use ogp::convert::{child_path, flatten, meta_tag, process_json, Value};

fn text(s: &str) -> Value {
    Value::String(s.to_string())
}

fn object(entries: Vec<(&str, Value)>) -> Value {
    Value::Object(
        entries
            .into_iter()
            .map(|(k, v)| (k.to_string(), v))
            .collect(),
    )
}

fn pairs(v: Vec<(String, String)>) -> Vec<(String, String)> {
    v
}

#[test]
fn array_elements_collapse_onto_one_path() {
    let doc = object(vec![
        ("og:title", text("T")),
        (
            "og:image",
            Value::Array(vec![
                object(vec![("og:image:url", text("https://x/1.png"))]),
                object(vec![("og:image:url", text("https://x/2.png"))]),
            ]),
        ),
    ]);
    let leaves = pairs(flatten(&doc, ""));
    assert_eq!(
        leaves,
        vec![
            ("og:title".to_string(), "T".to_string()),
            (
                "og:image:og:image:url".to_string(),
                "https://x/1.png".to_string()
            ),
            (
                "og:image:og:image:url".to_string(),
                "https://x/2.png".to_string()
            ),
        ]
    );
    let lines = process_json(&doc, "");
    assert_eq!(lines.len(), 3);
    assert_eq!(lines[0], "<meta property=\"og:title\" content=\"T\" />");
    assert_eq!(
        lines[1],
        "<meta property=\"og:image:og:image:url\" content=\"https://x/1.png\" />"
    );
    assert_eq!(
        lines[2],
        "<meta property=\"og:image:og:image:url\" content=\"https://x/2.png\" />"
    );
    let image_lines: Vec<&String> = lines
        .iter()
        .filter(|l| l.contains("https://x/"))
        .collect();
    assert_eq!(image_lines.len(), 2);
}

#[test]
fn leaves_that_are_not_strings_are_dropped() {
    let doc = object(vec![
        ("a", Value::Null),
        ("b", Value::Bool(true)),
        ("c", Value::Number("42".to_string())),
        ("d", text("kept")),
        ("e", Value::Array(vec![Value::Null, Value::Number("1".to_string())])),
        ("f", object(vec![])),
    ]);
    assert_eq!(
        flatten(&doc, ""),
        vec![("d".to_string(), "kept".to_string())]
    );
    assert!(flatten(&Value::Null, "p").is_empty());
    assert!(flatten(&Value::Bool(false), "p").is_empty());
    assert!(flatten(&Value::Number("7".to_string()), "p").is_empty());
    assert!(flatten(&Value::Array(vec![]), "p").is_empty());
    assert!(process_json(&Value::Null, "").is_empty());
}

#[test]
fn a_string_at_the_root_keeps_the_given_path() {
    assert_eq!(
        flatten(&text("v"), "p"),
        vec![("p".to_string(), "v".to_string())]
    );
    assert_eq!(
        flatten(&text("v"), ""),
        vec![("".to_string(), "v".to_string())]
    );
    assert_eq!(
        process_json(&text("v"), "p"),
        vec!["<meta property=\"p\" content=\"v\" />".to_string()]
    );
}

#[test]
fn nested_records_join_keys_with_a_colon() {
    let doc = object(vec![(
        "a",
        object(vec![("b", object(vec![("c", text("deep"))])), ("d", text("x"))]),
    )]);
    assert_eq!(
        flatten(&doc, ""),
        vec![
            ("a:b:c".to_string(), "deep".to_string()),
            ("a:d".to_string(), "x".to_string()),
        ]
    );
    assert_eq!(
        flatten(&doc, "root"),
        vec![
            ("root:a:b:c".to_string(), "deep".to_string()),
            ("root:a:d".to_string(), "x".to_string()),
        ]
    );
}

#[test]
fn order_is_that_of_the_document() {
    let doc = object(vec![
        ("z", text("1")),
        ("a", text("2")),
        ("m", Value::Array(vec![text("3"), text("4")])),
        ("b", text("5")),
    ]);
    let values: Vec<String> = flatten(&doc, "").into_iter().map(|p| p.1).collect();
    assert_eq!(values, vec!["1", "2", "3", "4", "5"]);
    let paths: Vec<String> = flatten(&doc, "").into_iter().map(|p| p.0).collect();
    assert_eq!(paths, vec!["z", "a", "m", "m", "b"]);
}

#[test]
fn lists_inside_lists_share_the_path_too() {
    let doc = object(vec![(
        "k",
        Value::Array(vec![
            Value::Array(vec![text("a"), text("b")]),
            text("c"),
        ]),
    )]);
    assert_eq!(
        flatten(&doc, ""),
        vec![
            ("k".to_string(), "a".to_string()),
            ("k".to_string(), "b".to_string()),
            ("k".to_string(), "c".to_string()),
        ]
    );
}

#[test]
fn child_path_joins_only_below_the_root() {
    assert_eq!(child_path("", "og:title"), "og:title");
    assert_eq!(child_path("og:image", "url"), "og:image:url");
    assert_eq!(child_path("a", ""), "a:");
    assert_eq!(child_path("", ""), "");
}

#[test]
fn meta_tag_has_the_fixed_form() {
    assert_eq!(
        meta_tag("og:title", "Hello"),
        "<meta property=\"og:title\" content=\"Hello\" />"
    );
    assert_eq!(meta_tag("", ""), "<meta property=\"\" content=\"\" />");
    // The content is written as given.
    assert_eq!(
        meta_tag("p", "a \"b\" <c>"),
        "<meta property=\"p\" content=\"a \"b\" <c>\" />"
    );
}
