use text_to_polly_ssml::parse_str;
use text_to_polly_ssml::parse_string;
use text_to_polly_ssml::SsmlError;

/// The fixed document frame every successful conversion carries.
fn wrap(inner: &str) -> String {
    format!(
        r#"<?xml version="1.0"?><speak xml:lang="en-US" onlangfailure="processorchoice" xmlns="http://www.w3.org/2001/10/synthesis" xmlns:xsi="http://www.w3.org/2001/XMLSchema-instance">{}</speak>"#,
        inner
    )
}

#[test]
fn test_empty_input() {
    assert_eq!(parse_str("").unwrap(), wrap(""));
}

#[test]
fn test_parse_string_entry() {
    let owned = String::from("hey world");
    assert_eq!(parse_string(owned).unwrap(), wrap("hey world"));
}

#[test]
fn test_text_escaping() {
    assert_eq!(
        parse_str(r#"a & b < c > d 'e' "f""#).unwrap(),
        wrap("a &amp; b &lt; c &gt; d &apos;e&apos; &quot;f&quot;")
    );
}

#[test]
fn test_attribute_escaping() {
    assert_eq!(
        parse_str(r#"${sub|alias=a&"b}x${/sub}"#).unwrap(),
        wrap(r#"<sub alias="a&amp;&quot;b">x</sub>"#)
    );
}

#[test]
fn test_paragraph_round_trip() {
    assert_eq!(parse_str("${p} x ${/p}").unwrap(), wrap("<p> x </p>"));
}

#[test]
fn test_unknown_tag_is_inert() {
    assert_eq!(parse_str("${bogus}x${/bogus}").unwrap(), wrap("x"));
}

#[test]
fn test_escape_literal() {
    assert_eq!(parse_str(r#"a $\{not a tag}"#).unwrap(), wrap("a ${not a tag}"));
}

#[test]
fn test_whisper_canonical_spelling() {
    assert_eq!(
        parse_str("${amazon:effect|name=whisper}t${/amazon:effect}").unwrap(),
        wrap(r#"<amazon:effect name="whispered">t</amazon:effect>"#)
    );
}

#[test]
fn test_case_insensitive_tag_and_value() {
    assert_eq!(
        parse_str("${AMAZON:EFFECT|name=WHISPER}t${/AMAZON:EFFECT}").unwrap(),
        wrap(r#"<amazon:effect name="whispered">t</amazon:effect>"#)
    );
}

#[test]
fn test_attribute_keys_are_case_sensitive() {
    // `NAME` is not the required `name` key, so the tag is dropped whole.
    assert_eq!(
        parse_str("${amazon:effect|NAME=whisper}t${/amazon:effect}").unwrap(),
        wrap("t</amazon:effect>")
    );
}

#[test]
fn test_unterminated_start_tag_fails() {
    let result = parse_str("hello ${p");
    match result {
        Ok(_) => panic!("an unterminated tag must fail"),
        Err(SsmlError::MalformedTag { remainder }) => assert_eq!(remainder, "${p"),
        Err(e) => panic!("unexpected error: {:?}", e),
    }
}

#[test]
fn test_unterminated_end_tag_fails() {
    let result = parse_str("x${/p");
    match result {
        Err(SsmlError::MalformedTag { remainder }) => assert_eq!(remainder, "${/p"),
        other => panic!("unexpected result: {:?}", other),
    }
}

#[test]
fn test_bare_opener_at_end_fails() {
    assert!(parse_str("abc${").is_err());
}

#[test]
fn test_phoneme_missing_required_attribute() {
    // Only one of the two required attributes: no element opens, the text
    // stays, and the close (never balance-checked) is still emitted.
    assert_eq!(
        parse_str("${phoneme|ph=x}text${/phoneme}").unwrap(),
        wrap("text</phoneme>")
    );
}

#[test]
fn test_lang_missing_required_attribute() {
    assert_eq!(parse_str("${lang}x${/lang}").unwrap(), wrap("x</lang>"));
}

#[test]
fn test_prosody_without_attributes_is_dropped() {
    assert_eq!(parse_str("${prosody}x${/prosody}").unwrap(), wrap("x</prosody>"));
}

#[test]
fn test_break_invalid_strength_is_omitted() {
    assert_eq!(parse_str("${break|strength=huge}").unwrap(), wrap("<break/>"));
}

#[test]
fn test_break_strength_spelling() {
    // The accepted input spelling `break` maps to the canonical `none`.
    assert_eq!(
        parse_str("${break|strength=BREAK}").unwrap(),
        wrap(r#"<break strength="none"/>"#)
    );
}

#[test]
fn test_break_time_milliseconds() {
    assert_eq!(
        parse_str("${break|time=250ms}").unwrap(),
        wrap(r#"<break time="250ms"/>"#)
    );
}

#[test]
fn test_break_time_rejects_bare_unit() {
    assert_eq!(parse_str("${break|time=ms}").unwrap(), wrap("<break/>"));
    assert_eq!(parse_str("${break|time=s}").unwrap(), wrap("<break/>"));
}

#[test]
fn test_break_time_rejects_unit_separated_junk() {
    // The whole text before the trailing unit must be the number; extra
    // unit-separated runs invalidate the value, which is then omitted.
    assert_eq!(parse_str("${break|time=1ms2ms}").unwrap(), wrap("<break/>"));
    assert_eq!(parse_str("${break|time=1s2s}").unwrap(), wrap("<break/>"));
}

#[test]
fn test_duplicate_parameter_last_wins() {
    assert_eq!(
        parse_str("${sub|alias=a|alias=b}x${/sub}").unwrap(),
        wrap(r#"<sub alias="b">x</sub>"#)
    );
}

#[test]
fn test_parameter_without_equals_stops_parsing() {
    // The malformed middle segment ends parameter parsing; `time` is lost.
    assert_eq!(
        parse_str("${break|strength=strong|oops|time=4s}").unwrap(),
        wrap(r#"<break strength="strong"/>"#)
    );
}

#[test]
fn test_parameter_value_stops_at_second_equals() {
    assert_eq!(
        parse_str("${sub|alias=a=b=c}x${/sub}").unwrap(),
        wrap(r#"<sub alias="a">x</sub>"#)
    );
}

#[test]
fn test_effect_mode_priority() {
    // A present name mode that fails validation wins over (and drops) the
    // length-factor mode.
    assert_eq!(
        parse_str("${amazon:effect|name=bogus|vocal-tract-length=+10%}x${/amazon:effect}")
            .unwrap(),
        wrap("x</amazon:effect>")
    );
}

#[test]
fn test_auto_breaths_invalid_value_drops_tag() {
    assert_eq!(
        parse_str("${amazon:auto-breaths|volume=huge}x${/amazon:auto-breaths}").unwrap(),
        wrap("x</amazon:auto-breaths>")
    );
}

#[test]
fn test_domain_requires_known_name() {
    assert_eq!(parse_str("${amazon:domain}x${/amazon:domain}").unwrap(), wrap("x</amazon:domain>"));
    assert_eq!(
        parse_str("${amazon:domain|name=NEWS}x${/amazon:domain}").unwrap(),
        wrap(r#"<amazon:domain name="news">x</amazon:domain>"#)
    );
}

#[test]
fn test_empty_tag_body_is_inert() {
    assert_eq!(parse_str("${}x").unwrap(), wrap("x"));
}

#[test]
fn test_unmatched_close_is_still_emitted() {
    assert_eq!(parse_str("x${/p}").unwrap(), wrap("x</p>"));
}
