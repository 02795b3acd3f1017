use text_to_polly_ssml::parser::TagParams;
use text_to_polly_ssml::ssml_constants::{
    AmazonEffect, BreakStrength, BreakTime, BreathVolumes, PhonemeAlphabet, PossibleOpenTags,
    ProsodyRate, WordRole,
};
use text_to_polly_ssml::xml_writer::XmlWriter;
use text_to_polly_ssml::SsmlError;

#[test]
fn test_tag_params_last_write_wins() {
    let mut params = TagParams::new();
    assert!(!params.contains_key("alias"));
    params.insert("alias".to_string(), "a".to_string());
    params.insert("other".to_string(), "x".to_string());
    params.insert("alias".to_string(), "b".to_string());
    assert!(params.contains_key("alias"));
    assert_eq!(params.get("alias"), Some("b".to_string()));
    assert_eq!(params.get("other"), Some("x".to_string()));
    assert_eq!(params.get("Alias"), None);
}

#[test]
fn test_render_is_idempotent() {
    let mut w = XmlWriter::new().unwrap();
    w.start_ssml_speak(None, None).unwrap();
    w.start_ssml_paragraph().unwrap();
    w.write_text("unclosed on purpose").unwrap();
    let first = w.render();
    let second = w.render();
    assert_eq!(first, second);
    // Rendering closes nothing: the paragraph and the root stay open.
    assert!(first.ends_with("unclosed on purpose"));
}

#[test]
fn test_writer_break_with_attributes() {
    let mut w = XmlWriter::new().unwrap();
    w.ssml_break(Some(BreakStrength::XStrong), Some(BreakTime::new(10, true))).unwrap();
    assert_eq!(
        w.render(),
        r#"<?xml version="1.0"?><break strength="x-strong" time="10s"/>"#
    );
}

#[test]
fn test_writer_prosody_needs_a_value() {
    let mut w = XmlWriter::new().unwrap();
    let r = w.start_ssml_prosody(None, None, None);
    assert!(matches!(r, Err(SsmlError::MissingAttributes)));
    // The refused request emits nothing.
    assert_eq!(w.render(), r#"<?xml version="1.0"?>"#);
}

#[test]
fn test_writer_speak_overrides() {
    let mut w = XmlWriter::new().unwrap();
    w.start_ssml_speak(Some("fr-FR".to_string()), Some("changevoice".to_string())).unwrap();
    w.end_ssml_speak().unwrap();
    assert_eq!(
        w.render(),
        r#"<?xml version="1.0"?><speak xml:lang="fr-FR" onlangfailure="changevoice" xmlns="http://www.w3.org/2001/10/synthesis" xmlns:xsi="http://www.w3.org/2001/XMLSchema-instance"></speak>"#
    );
}

#[test]
fn test_break_time_text() {
    assert_eq!(BreakTime::new(10, true).to_text(), "10s");
    assert_eq!(BreakTime::new(250, false).to_text(), "250ms");
    assert_eq!(BreakTime::new(0, false).to_text(), "0ms");
    assert_eq!(BreakTime::new(4294967295, true).to_text(), "4294967295s");
}

#[test]
fn test_break_time_parse() {
    assert!(matches!(BreakTime::from_text("4s"), Some(b) if b.time == 4 && b.is_seconds));
    assert!(matches!(BreakTime::from_text("250ms"), Some(b) if b.time == 250 && !b.is_seconds));
    assert!(matches!(BreakTime::from_text("+7s"), Some(b) if b.time == 7 && b.is_seconds));
    assert!(BreakTime::from_text("s").is_none());
    assert!(BreakTime::from_text("ms").is_none());
    assert!(BreakTime::from_text("4S").is_none());
    assert!(BreakTime::from_text("x4s").is_none());
    assert!(BreakTime::from_text("1s2s").is_none());
    assert!(BreakTime::from_text("3ss").is_none());
    assert!(BreakTime::from_text("12ms34ms").is_none());
    assert!(BreakTime::from_text("4294967296s").is_none());
    assert!(matches!(BreakTime::from_text("4294967295s"), Some(b) if b.time == 4294967295));
}

#[test]
fn test_vocabulary_spellings() {
    assert_eq!(BreakStrength::from_text("break"), Some(BreakStrength::NoStrength));
    assert_eq!(BreakStrength::from_text("none"), None);
    assert_eq!(BreakStrength::from_text("X-Strong"), Some(BreakStrength::XStrong));
    assert_eq!(BreakStrength::NoStrength.to_text(), "none");
    assert_eq!(AmazonEffect::from_text("Whisper"), Some(AmazonEffect::Whispered));
    assert_eq!(AmazonEffect::Whispered.to_text(), "whispered");
    assert_eq!(PhonemeAlphabet::from_text("X-SAMPA"), Some(PhonemeAlphabet::XSampa));
    assert_eq!(ProsodyRate::from_text("x-fast"), Some(ProsodyRate::XFast));
    assert_eq!(WordRole::from_text("amazon:vbd"), Some(WordRole::PastTense));
    assert_eq!(WordRole::PastTense.to_text(), "amazon:VBD");
    assert_eq!(BreathVolumes::from_text(""), Some(BreathVolumes::Def));
    assert_eq!(BreathVolumes::Def.to_text(), "default");
    assert_eq!(PossibleOpenTags::from_text("P"), Some(PossibleOpenTags::Paragraph));
    assert_eq!(PossibleOpenTags::from_text("div"), None);
}
