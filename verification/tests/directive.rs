use derive_builder::directive::{
    accept_name, has_no_group, parse_directive, requested_name, unquote,
};
use derive_builder::schema::{AccessorDirective, Attribute, ConfigErrorKind};

fn attribute(name: &str, tokens: &[&str]) -> Attribute {
    Attribute {
        name: name.to_string(),
        arguments: Some(tokens.iter().map(|t| t.to_string()).collect()),
    }
}

fn each(tokens: &[&str]) -> Attribute {
    attribute("builder", tokens)
}

fn named(name: &str) -> Result<AccessorDirective, ConfigErrorKind> {
    Ok(AccessorDirective { singular_name: name.to_string() })
}

#[test]
fn canonical_directive_is_accepted() {
    assert_eq!(parse_directive(&each(&["each", "=", "\"tag\""])), named("tag"));
    assert_eq!(parse_directive(&each(&["each", "=", "\"arg_1\""])), named("arg_1"));
    assert_eq!(parse_directive(&each(&["each", "=", "\"_x\""])), named("_x"));
}

#[test]
fn other_attribute_is_unsupported() {
    assert_eq!(
        parse_directive(&attribute("doc", &["each", "=", "\"tag\""])),
        Err(ConfigErrorKind::UnsupportedAttribute)
    );
    assert_eq!(
        parse_directive(&Attribute { name: "serde".to_string(), arguments: None }),
        Err(ConfigErrorKind::UnsupportedAttribute)
    );
}

#[test]
fn attribute_without_group_is_malformed() {
    assert_eq!(
        parse_directive(&Attribute { name: "builder".to_string(), arguments: None }),
        Err(ConfigErrorKind::MalformedDirective)
    );
}

#[test]
fn empty_group_is_malformed() {
    assert_eq!(parse_directive(&each(&[])), Err(ConfigErrorKind::MalformedDirective));
}

#[test]
fn other_keyword_is_malformed() {
    assert_eq!(
        parse_directive(&each(&["eac", "=", "\"arg\""])),
        Err(ConfigErrorKind::MalformedDirective)
    );
    assert_eq!(
        parse_directive(&each(&["Each", "=", "\"tag\""])),
        Err(ConfigErrorKind::MalformedDirective)
    );
    assert_eq!(parse_directive(&each(&["default"])), Err(ConfigErrorKind::MalformedDirective));
    assert_eq!(
        ConfigErrorKind::MalformedDirective.message(),
        "expected `builder(each = \"...\")`"
    );
}

#[test]
fn other_marker_is_malformed() {
    assert_eq!(
        parse_directive(&each(&["each", ":", "\"tag\""])),
        Err(ConfigErrorKind::MalformedDirective)
    );
}

#[test]
fn missing_name_is_malformed() {
    assert_eq!(parse_directive(&each(&["each", "="])), Err(ConfigErrorKind::MalformedDirective));
    assert_eq!(parse_directive(&each(&["each"])), Err(ConfigErrorKind::MalformedDirective));
}

#[test]
fn trailing_tokens_are_malformed() {
    assert_eq!(
        parse_directive(&each(&["each", "=", "\"tag\"", ","])),
        Err(ConfigErrorKind::MalformedDirective)
    );
}

#[test]
fn unquoted_name_is_malformed() {
    assert_eq!(
        parse_directive(&each(&["each", "=", "tag"])),
        Err(ConfigErrorKind::MalformedDirective)
    );
    assert_eq!(
        parse_directive(&each(&["each", "=", "42"])),
        Err(ConfigErrorKind::MalformedDirective)
    );
    assert_eq!(
        parse_directive(&each(&["each", "=", "r\"tag\""])),
        Err(ConfigErrorKind::MalformedDirective)
    );
    assert_eq!(
        parse_directive(&each(&["each", "=", "\""])),
        Err(ConfigErrorKind::MalformedDirective)
    );
}

#[test]
fn quoted_text_that_is_no_identifier_is_malformed() {
    for text in ["\"\"", "\"two words\"", "\"1x\"", "\"a-b\"", "\"a.b\"", "\"tag!\"", "\"(tag)\""] {
        assert_eq!(
            parse_directive(&each(&["each", "=", text])),
            Err(ConfigErrorKind::MalformedDirective),
            "{}",
            text
        );
    }
}

#[test]
fn keyword_is_no_identifier() {
    assert_eq!(
        parse_directive(&each(&["each", "=", "\"fn\""])),
        Err(ConfigErrorKind::MalformedDirective)
    );
    assert_eq!(
        parse_directive(&each(&["each", "=", "\"_\""])),
        Err(ConfigErrorKind::MalformedDirective)
    );
}

#[test]
fn identifier_with_blanks_around_it_is_malformed() {
    assert_eq!(
        parse_directive(&each(&["each", "=", "\" tag \""])),
        Err(ConfigErrorKind::MalformedDirective)
    );
    assert_eq!(
        parse_directive(&each(&["each", "=", "\"tag /* c */\""])),
        Err(ConfigErrorKind::MalformedDirective)
    );
}

#[test]
fn unquote_takes_the_outer_quotes_off() {
    assert_eq!(unquote("\"tag\""), Some("tag"));
    assert_eq!(unquote("\"\""), Some(""));
    assert_eq!(unquote("\"a\"b\""), Some("a\"b"));
    assert_eq!(unquote("\"gr\u{f6}\u{df}e\""), Some("gr\u{f6}\u{df}e"));
    assert_eq!(unquote("\""), None);
    assert_eq!(unquote(""), None);
    assert_eq!(unquote("tag"), None);
    assert_eq!(unquote("\"tag"), None);
    assert_eq!(unquote("tag\""), None);
}

#[test]
fn requested_name_checks_the_shape_only() {
    assert_eq!(requested_name(&each(&["each", "=", "\"two words\""])), Ok("two words".to_string()));
    assert_eq!(requested_name(&each(&["each", "=", "\"tag\""])), Ok("tag".to_string()));
    assert_eq!(
        requested_name(&attribute("debug", &["each", "=", "\"tag\""])),
        Err(ConfigErrorKind::UnsupportedAttribute)
    );
    assert_eq!(
        requested_name(&each(&["each", "\"tag\""])),
        Err(ConfigErrorKind::MalformedDirective)
    );
    assert_eq!(
        requested_name(&each(&["skip", "=", "\"tag\""])),
        Err(ConfigErrorKind::MalformedDirective)
    );
}

#[test]
fn accept_name_wants_the_name_read_back_unchanged() {
    assert_eq!(accept_name("tag".to_string(), Some("tag".to_string())), named("tag"));
    assert_eq!(
        accept_name(" tag".to_string(), Some("tag".to_string())),
        Err(ConfigErrorKind::MalformedDirective)
    );
    assert_eq!(
        accept_name("two words".to_string(), None),
        Err(ConfigErrorKind::MalformedDirective)
    );
}

#[test]
fn identifiers_beyond_ascii_and_raw_identifiers_are_accepted() {
    assert_eq!(
        parse_directive(&each(&["each", "=", "\"gr\u{f6}\u{df}e\""])),
        named("gr\u{f6}\u{df}e")
    );
    assert_eq!(parse_directive(&each(&["each", "=", "\"r#type\""])), named("r#type"));
}

#[test]
fn name_in_which_a_group_opens_is_malformed() {
    for text in ["\"(\"", "\"a[0]\"", "\"{tag}\"", "\"tag(\""] {
        assert_eq!(
            parse_directive(&each(&["each", "=", text])),
            Err(ConfigErrorKind::MalformedDirective),
            "{}",
            text
        );
    }
}

#[test]
fn deeply_nested_name_is_malformed() {
    let depth = 20_000;
    let text = format!("\"{}{}\"", "(".repeat(depth), ")".repeat(depth));
    assert_eq!(
        parse_directive(&each(&["each", "=", text.as_str()])),
        Err(ConfigErrorKind::MalformedDirective)
    );
}

#[test]
fn has_no_group_looks_for_opening_delimiters() {
    assert!(has_no_group(""));
    assert!(has_no_group("tag"));
    assert!(has_no_group("a) b] c}"));
    assert!(!has_no_group("("));
    assert!(!has_no_group("tag["));
    assert!(!has_no_group("gr\u{f6}\u{df}e{"));
}
