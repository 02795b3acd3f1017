//! The markup emitter: a stateful, append-only writer of XML events.
//!
//! Event serialization and entity escaping are done by the `quick_xml`
//! crate through the trusted wrappers at the top of this file; everything
//! the library states about the emitted text is phrased over the exact
//! escaping rules that crate applies.

use vstd::prelude::*;

use quick_xml::events::{BytesDecl, BytesEnd, BytesStart, BytesText, Event};
use quick_xml::Writer;

use crate::ssml_constants::{
    break_strength_str, break_time_str, breath_duration_str, breath_frequency_str,
    breath_volume_str, amazon_domain_str, amazon_effect_str, phoneme_alphabet_str,
    phonation_str, prosody_rate_str, word_role_str,
};
use crate::ssml_constants::{
    AmazonDomainNames, AmazonEffect, AutoBreathFrequency, BreakStrength, BreakTime,
    BreathDuration, BreathVolumes, PhonationVolume, PhonemeAlphabet, ProsodyRate, WordRole,
};
use crate::SsmlError;

verus! {

// ---------------------------------------------------------------------------
// Escaping, exactly as quick_xml performs it
// ---------------------------------------------------------------------------

/// How one character is written inside text content: `quick_xml::escape::escape`
/// replaces the five XML-special characters and the carriage return.
pub open spec fn escape_text_char(c: char) -> Seq<char> {
    if c == '&' {
        "&amp;"@
    } else if c == '<' {
        "&lt;"@
    } else if c == '>' {
        "&gt;"@
    } else if c == '\'' {
        "&apos;"@
    } else if c == '"' {
        "&quot;"@
    } else if c == '\r' {
        "&#13;"@
    } else {
        seq![c]
    }
}

/// How one character is written inside an attribute value:
/// `quick_xml::escape::escape_attribute` additionally escapes the newline
/// and the tab, which attribute-value normalization would otherwise fold.
pub open spec fn escape_attr_char(c: char) -> Seq<char> {
    if c == '\n' {
        "&#10;"@
    } else if c == '\t' {
        "&#9;"@
    } else {
        escape_text_char(c)
    }
}

/// Text content escaping over a whole string.
pub open spec fn escape_text(s: Seq<char>) -> Seq<char>
    decreases s.len(),
{
    if s.len() == 0 {
        Seq::empty()
    } else {
        escape_text_char(s[0]) + escape_text(s.drop_first())
    }
}

/// Attribute value escaping over a whole string.
pub open spec fn escape_attr(s: Seq<char>) -> Seq<char>
    decreases s.len(),
{
    if s.len() == 0 {
        Seq::empty()
    } else {
        escape_attr_char(s[0]) + escape_attr(s.drop_first())
    }
}

// ---------------------------------------------------------------------------
// Serialized shapes of events
// ---------------------------------------------------------------------------

/// One serialized attribute: a space, the key, `="`, the escaped value, `"`.
pub open spec fn attr_text(k: Seq<char>, v: Seq<char>) -> Seq<char> {
    seq![' '] + k + seq!['=', '"'] + escape_attr(v) + seq!['"']
}

/// An opening tag around the given content (name plus serialized attributes).
pub open spec fn open_elem_text(content: Seq<char>) -> Seq<char> {
    seq!['<'] + content + seq!['>']
}

/// A self-closing tag around the given content.
pub open spec fn empty_elem_text(content: Seq<char>) -> Seq<char> {
    seq!['<'] + content + seq!['/', '>']
}

/// A closing tag for the given element name.
pub open spec fn close_elem_text(name: Seq<char>) -> Seq<char> {
    seq!['<', '/'] + name + seq!['>']
}

/// The document declaration for the given version string.
pub open spec fn decl_text(version: Seq<char>) -> Seq<char> {
    "<?xml version=\""@ + version + "\"?>"@
}

// ---------------------------------------------------------------------------
// Trusted boundary around quick_xml
// ---------------------------------------------------------------------------

#[verifier::external_type_specification]
#[verifier::external_body]
#[verifier::reject_recursive_types(W)]
pub struct ExWriter<W>(Writer<W>);

#[verifier::external_type_specification]
#[verifier::external_body]
pub struct ExBytesStart<'i>(BytesStart<'i>);

/// The text a writer has emitted so far, read off its in-memory buffer.
pub uninterp spec fn writer_doc(w: Writer<Vec<u8>>) -> Seq<char>;

/// The accumulated content (name plus serialized attributes) of a start
/// element under construction.
pub uninterp spec fn elem_content(e: BytesStart<'static>) -> Seq<char>;

/// Relies on `quick_xml::Writer::new`: a writer over a fresh in-memory
/// buffer has emitted nothing.
#[verifier::external_body]
fn new_writer() -> (w: Writer<Vec<u8>>)
    ensures
        writer_doc(w) == Seq::<char>::empty(),
{
    Writer::new(Vec::new())
}

/// Relies on `quick_xml::events::BytesStart::new`: a fresh element holds
/// exactly its name.
#[verifier::external_body]
fn elem_new(name: &str) -> (e: BytesStart<'static>)
    ensures
        elem_content(e) == name@,
{
    BytesStart::new(name.to_owned())
}

/// Relies on `quick_xml::events::BytesStart::push_attribute`, which appends
/// a space, the key as given, `="`, the value escaped by
/// `quick_xml::escape::escape_attribute`, and `"`.
#[verifier::external_body]
fn elem_push_attr(e: &mut BytesStart<'static>, k: &str, v: &str)
    ensures
        elem_content(*final(e)) == elem_content(*old(e)) + attr_text(k@, v@),
{
    e.push_attribute((k, v));
}

/// Relies on `quick_xml::Writer::write_event` with a declaration event from
/// `BytesDecl::new(version, None, None)`, which writes
/// `<?xml version="…"?>`. Writes into a `Vec<u8>` buffer cannot fail.
#[verifier::external_body]
fn write_decl_event(w: &mut Writer<Vec<u8>>, version: &str)
    ensures
        writer_doc(*final(w)) == writer_doc(*old(w)) + decl_text(version@),
{
    let _ = w.write_event(Event::Decl(BytesDecl::new(version, None, None)));
}

/// Relies on `quick_xml::Writer::write_event` with a start event, which
/// writes `<`, the element content, `>`. Writes into a `Vec<u8>` buffer
/// cannot fail.
#[verifier::external_body]
fn write_start_event(w: &mut Writer<Vec<u8>>, e: BytesStart<'static>)
    ensures
        writer_doc(*final(w)) == writer_doc(*old(w)) + open_elem_text(elem_content(e)),
{
    let _ = w.write_event(Event::Start(e));
}

/// Relies on `quick_xml::Writer::write_event` with an empty-element event,
/// which writes `<`, the element content, `/>` (no space, the writer's
/// default configuration). Writes into a `Vec<u8>` buffer cannot fail.
#[verifier::external_body]
fn write_empty_event(w: &mut Writer<Vec<u8>>, e: BytesStart<'static>)
    ensures
        writer_doc(*final(w)) == writer_doc(*old(w)) + empty_elem_text(elem_content(e)),
{
    let _ = w.write_event(Event::Empty(e));
}

/// Relies on `quick_xml::Writer::write_event` with an end event from
/// `BytesEnd::new`, which writes `</`, the name as given, `>`. Writes into
/// a `Vec<u8>` buffer cannot fail.
#[verifier::external_body]
fn write_end_event(w: &mut Writer<Vec<u8>>, name: &str)
    ensures
        writer_doc(*final(w)) == writer_doc(*old(w)) + close_elem_text(name@),
{
    let _ = w.write_event(Event::End(BytesEnd::new(name)));
}

/// Relies on `quick_xml::Writer::write_event` with a text event from
/// `BytesText::new`, which escapes the content with
/// `quick_xml::escape::escape` and writes the escaped bytes. Writes into a
/// `Vec<u8>` buffer cannot fail.
#[verifier::external_body]
fn write_text_event(w: &mut Writer<Vec<u8>>, t: &str)
    ensures
        writer_doc(*final(w)) == writer_doc(*old(w)) + escape_text(t@),
{
    let _ = w.write_event(Event::Text(BytesText::new(t)));
}

/// Relies on `quick_xml::Writer::get_ref` and a lossy UTF-8 decode of the
/// buffer; every event wrapper above writes only UTF-8 text, so the decode
/// is exact.
#[verifier::external_body]
fn render_writer(w: &Writer<Vec<u8>>) -> (r: String)
    ensures
        r@ == writer_doc(*w),
{
    String::from_utf8_lossy(w.get_ref()).into_owned()
}

// ---------------------------------------------------------------------------
// Serialized texts of the SSML elements
// ---------------------------------------------------------------------------

/// The view of an optional owned string.
pub open spec fn opt_view(o: Option<String>) -> Option<Seq<char>> {
    match o {
        Some(s) => Some(s@),
        None => None,
    }
}

/// The root opening tag with its four attributes in fixed order.
pub open spec fn speak_open_text(lang: Seq<char>, onlangfailure: Seq<char>) -> Seq<char> {
    open_elem_text(
        "speak"@ + attr_text("xml:lang"@, lang) + attr_text("onlangfailure"@, onlangfailure)
            + attr_text("xmlns"@, "http://www.w3.org/2001/10/synthesis"@) + attr_text(
            "xmlns:xsi"@,
            "http://www.w3.org/2001/XMLSchema-instance"@,
        ),
    )
}

/// The self-closing pause element with its optional attributes.
pub open spec fn break_text(strength: Option<BreakStrength>, time: Option<BreakTime>) -> Seq<
    char,
> {
    empty_elem_text(
        "break"@ + (match strength {
            Some(st) => attr_text("strength"@, break_strength_str(st)),
            None => Seq::empty(),
        }) + (match time {
            Some(t) => attr_text("time"@, break_time_str(t)),
            None => Seq::empty(),
        }),
    )
}

/// The language-switch opening tag.
pub open spec fn lang_open_text(lang: Seq<char>, onlangfailure: Seq<char>) -> Seq<char> {
    open_elem_text("lang"@ + attr_text("xml:lang"@, lang) + attr_text("onlangfailure"@, onlangfailure))
}

/// The marker opening tag.
pub open spec fn mark_open_text(name: Seq<char>) -> Seq<char> {
    open_elem_text("mark"@ + attr_text("name"@, name))
}

/// The phoneme opening tag; both of its attributes are required.
pub open spec fn phoneme_open_text(alphabet: PhonemeAlphabet, ph: Seq<char>) -> Seq<char> {
    open_elem_text(
        "phoneme"@ + attr_text("alphabet"@, phoneme_alphabet_str(alphabet)) + attr_text("ph"@, ph),
    )
}

/// The prosody opening tag with whichever of its attributes are present,
/// in the fixed order volume, rate, pitch.
pub open spec fn prosody_open_text(
    volume: Option<Seq<char>>,
    rate: Option<ProsodyRate>,
    pitch: Option<Seq<char>>,
) -> Seq<char> {
    open_elem_text(
        "prosody"@ + (match volume {
            Some(v) => attr_text("volume"@, v),
            None => Seq::empty(),
        }) + (match rate {
            Some(r) => attr_text("rate"@, prosody_rate_str(r)),
            None => Seq::empty(),
        }) + (match pitch {
            Some(p) => attr_text("pitch"@, p),
            None => Seq::empty(),
        }),
    )
}

/// The interpret-as opening tag.
pub open spec fn say_as_open_text(interpret_as: Seq<char>) -> Seq<char> {
    open_elem_text("say-as"@ + attr_text("interpret-as"@, interpret_as))
}

/// The substitution opening tag.
pub open spec fn sub_open_text(alias: Seq<char>) -> Seq<char> {
    open_elem_text("sub"@ + attr_text("alias"@, alias))
}

/// The word-role opening tag.
pub open spec fn w_open_text(role: WordRole) -> Seq<char> {
    open_elem_text("w"@ + attr_text("role"@, word_role_str(role)))
}

/// The vendor domain opening tag.
pub open spec fn amazon_domain_open_text(name: AmazonDomainNames) -> Seq<char> {
    open_elem_text("amazon:domain"@ + attr_text("name"@, amazon_domain_str(name)))
}

/// The vendor effect opening tag in its named mode.
pub open spec fn amazon_effect_open_text(name: AmazonEffect) -> Seq<char> {
    open_elem_text("amazon:effect"@ + attr_text("name"@, amazon_effect_str(name)))
}

/// The vendor effect opening tag in its length-factor mode.
pub open spec fn vocal_tract_open_text(factor: Seq<char>) -> Seq<char> {
    open_elem_text("amazon:effect"@ + attr_text("vocal-tract-length"@, factor))
}

/// The vendor effect opening tag in its phonation mode.
pub open spec fn phonation_open_text(volume: PhonationVolume) -> Seq<char> {
    open_elem_text("amazon:effect"@ + attr_text("phonation"@, phonation_str(volume)))
}

/// The automatic-breaths opening tag with its three always-present attributes.
pub open spec fn auto_breaths_open_text(
    volume: BreathVolumes,
    frequency: AutoBreathFrequency,
    duration: BreathDuration,
) -> Seq<char> {
    open_elem_text(
        "amazon:auto-breaths"@ + attr_text("volume"@, breath_volume_str(volume)) + attr_text(
            "frequency"@,
            breath_frequency_str(frequency),
        ) + attr_text("duration"@, breath_duration_str(duration)),
    )
}

/// The self-closing single-breath element with its two always-present
/// attributes.
pub open spec fn amazon_breath_text(volume: BreathVolumes, duration: BreathDuration) -> Seq<
    char,
> {
    empty_elem_text(
        "amazon:breath"@ + attr_text("volume"@, breath_volume_str(volume)) + attr_text(
            "duration"@,
            breath_duration_str(duration),
        ),
    )
}

// ---------------------------------------------------------------------------
// The writer
// ---------------------------------------------------------------------------

/// A stateful, append-only XML writer. Its view is the text emitted so far.
///
/// The writer performs no nesting or balance checks: it renders exactly the
/// events it was given, and an element left open stays open in the rendered
/// text.
pub struct XmlWriter {
    writer: Writer<Vec<u8>>,
}

impl View for XmlWriter {
    type V = Seq<char>;

    closed spec fn view(&self) -> Seq<char> {
        writer_doc(self.writer)
    }
}

impl XmlWriter {
    /// Creates a writer that has emitted the fixed document declaration.
    pub fn new() -> (r: Result<XmlWriter, SsmlError>)
        ensures
            r matches Ok(w) && w@ == decl_text("1.0"@),
    {
        let mut writer = new_writer();
        write_decl_event(&mut writer, "1.0");
        Ok(XmlWriter { writer })
    }

    /// Opens the root element. Its two optional parameters default to the
    /// fixed literals `en-US` and `processorchoice`; the two namespace
    /// attributes are always the same.
    pub fn start_ssml_speak(&mut self, lang: Option<String>, onlangfailure: Option<String>) -> (r:
        Result<(), SsmlError>)
        ensures
            r is Ok,
            final(self)@ == old(self)@ + speak_open_text(
                match lang {
                    Some(l) => l@,
                    None => "en-US"@,
                },
                match onlangfailure {
                    Some(f) => f@,
                    None => "processorchoice"@,
                },
            ),
    {
        let mut elem = elem_new("speak");
        match &lang {
            Some(l) => elem_push_attr(&mut elem, "xml:lang", l.as_str()),
            None => elem_push_attr(&mut elem, "xml:lang", "en-US"),
        }
        match &onlangfailure {
            Some(f) => elem_push_attr(&mut elem, "onlangfailure", f.as_str()),
            None => elem_push_attr(&mut elem, "onlangfailure", "processorchoice"),
        }
        elem_push_attr(&mut elem, "xmlns", "http://www.w3.org/2001/10/synthesis");
        elem_push_attr(&mut elem, "xmlns:xsi", "http://www.w3.org/2001/XMLSchema-instance");
        write_start_event(&mut self.writer, elem);
        Ok(())
    }

    /// Closes the root element.
    pub fn end_ssml_speak(&mut self) -> (r: Result<(), SsmlError>)
        ensures
            r is Ok,
            final(self)@ == old(self)@ + close_elem_text("speak"@),
    {
        write_end_event(&mut self.writer, "speak");
        Ok(())
    }

    /// Writes the self-closing pause element; both attributes are optional
    /// and appear in the order strength, time.
    pub fn ssml_break(&mut self, strength: Option<BreakStrength>, time: Option<BreakTime>) -> (r:
        Result<(), SsmlError>)
        ensures
            r is Ok,
            final(self)@ == old(self)@ + break_text(strength, time),
    {
        let mut elem = elem_new("break");
        match strength {
            Some(st) => {
                let v = st.to_text();
                elem_push_attr(&mut elem, "strength", v.as_str());
            },
            None => {},
        }
        match time {
            Some(t) => {
                let v = t.to_text();
                elem_push_attr(&mut elem, "time", v.as_str());
            },
            None => {},
        }
        proof {
            assert(elem_content(elem) =~= "break"@ + (match strength {
                Some(st) => attr_text("strength"@, break_strength_str(st)),
                None => Seq::<char>::empty(),
            }) + (match time {
                Some(t) => attr_text("time"@, break_time_str(t)),
                None => Seq::<char>::empty(),
            }));
        }
        write_empty_event(&mut self.writer, elem);
        Ok(())
    }

    /// Opens the language-switch element; the failure directive defaults to
    /// the fixed literal `processorchoice`.
    pub fn start_ssml_lang(&mut self, lang: String, onlangfailure: Option<String>) -> (r: Result<
        (),
        SsmlError,
    >)
        ensures
            r is Ok,
            final(self)@ == old(self)@ + lang_open_text(
                lang@,
                match onlangfailure {
                    Some(f) => f@,
                    None => "processorchoice"@,
                },
            ),
    {
        let mut elem = elem_new("lang");
        elem_push_attr(&mut elem, "xml:lang", lang.as_str());
        match &onlangfailure {
            Some(f) => elem_push_attr(&mut elem, "onlangfailure", f.as_str()),
            None => elem_push_attr(&mut elem, "onlangfailure", "processorchoice"),
        }
        write_start_event(&mut self.writer, elem);
        Ok(())
    }

    /// Closes the language-switch element.
    pub fn end_ssml_lang(&mut self) -> (r: Result<(), SsmlError>)
        ensures
            r is Ok,
            final(self)@ == old(self)@ + close_elem_text("lang"@),
    {
        write_end_event(&mut self.writer, "lang");
        Ok(())
    }

    /// Opens the marker element with its required name.
    pub fn start_ssml_mark(&mut self, name: String) -> (r: Result<(), SsmlError>)
        ensures
            r is Ok,
            final(self)@ == old(self)@ + mark_open_text(name@),
    {
        let mut elem = elem_new("mark");
        elem_push_attr(&mut elem, "name", name.as_str());
        write_start_event(&mut self.writer, elem);
        Ok(())
    }

    /// Closes the marker element.
    pub fn end_ssml_mark(&mut self) -> (r: Result<(), SsmlError>)
        ensures
            r is Ok,
            final(self)@ == old(self)@ + close_elem_text("mark"@),
    {
        write_end_event(&mut self.writer, "mark");
        Ok(())
    }

    /// Opens a paragraph element.
    pub fn start_ssml_paragraph(&mut self) -> (r: Result<(), SsmlError>)
        ensures
            r is Ok,
            final(self)@ == old(self)@ + open_elem_text("p"@),
    {
        let elem = elem_new("p");
        write_start_event(&mut self.writer, elem);
        Ok(())
    }

    /// Closes a paragraph element.
    pub fn end_ssml_paragraph(&mut self) -> (r: Result<(), SsmlError>)
        ensures
            r is Ok,
            final(self)@ == old(self)@ + close_elem_text("p"@),
    {
        write_end_event(&mut self.writer, "p");
        Ok(())
    }

    /// Opens the phoneme element; both attributes are required.
    pub fn start_ssml_phoneme(&mut self, alphabet: PhonemeAlphabet, ph: String) -> (r: Result<
        (),
        SsmlError,
    >)
        ensures
            r is Ok,
            final(self)@ == old(self)@ + phoneme_open_text(alphabet, ph@),
    {
        let mut elem = elem_new("phoneme");
        let a = alphabet.to_text();
        elem_push_attr(&mut elem, "alphabet", a.as_str());
        elem_push_attr(&mut elem, "ph", ph.as_str());
        write_start_event(&mut self.writer, elem);
        Ok(())
    }

    /// Closes the phoneme element.
    pub fn end_ssml_phoneme(&mut self) -> (r: Result<(), SsmlError>)
        ensures
            r is Ok,
            final(self)@ == old(self)@ + close_elem_text("phoneme"@),
    {
        write_end_event(&mut self.writer, "phoneme");
        Ok(())
    }

    /// Opens the prosody element. At least one attribute must be supplied;
    /// with none the request is refused and nothing is emitted.
    pub fn start_ssml_prosody(
        &mut self,
        volume: Option<String>,
        rate: Option<ProsodyRate>,
        pitch: Option<String>,
    ) -> (r: Result<(), SsmlError>)
        ensures
            r is Ok <==> !(volume is None && rate is None && pitch is None),
            r is Ok ==> final(self)@ == old(self)@ + prosody_open_text(
                opt_view(volume),
                rate,
                opt_view(pitch),
            ),
            r is Err ==> final(self)@ == old(self)@ && r matches Err(
                SsmlError::MissingAttributes,
            ),
    {
        if volume.is_none() && rate.is_none() && pitch.is_none() {
            return Err(SsmlError::MissingAttributes);
        }
        let mut elem = elem_new("prosody");
        match &volume {
            Some(v) => elem_push_attr(&mut elem, "volume", v.as_str()),
            None => {},
        }
        match rate {
            Some(rt) => {
                let v = rt.to_text();
                elem_push_attr(&mut elem, "rate", v.as_str());
            },
            None => {},
        }
        match &pitch {
            Some(p) => elem_push_attr(&mut elem, "pitch", p.as_str()),
            None => {},
        }
        proof {
            assert(elem_content(elem) =~= "prosody"@ + (match opt_view(volume) {
                Some(v) => attr_text("volume"@, v),
                None => Seq::<char>::empty(),
            }) + (match rate {
                Some(rt) => attr_text("rate"@, prosody_rate_str(rt)),
                None => Seq::<char>::empty(),
            }) + (match opt_view(pitch) {
                Some(p) => attr_text("pitch"@, p),
                None => Seq::<char>::empty(),
            }));
        }
        write_start_event(&mut self.writer, elem);
        Ok(())
    }

    /// Closes the prosody element.
    pub fn end_ssml_prosody(&mut self) -> (r: Result<(), SsmlError>)
        ensures
            r is Ok,
            final(self)@ == old(self)@ + close_elem_text("prosody"@),
    {
        write_end_event(&mut self.writer, "prosody");
        Ok(())
    }

    /// Opens a sentence element.
    pub fn start_ssml_sentence(&mut self) -> (r: Result<(), SsmlError>)
        ensures
            r is Ok,
            final(self)@ == old(self)@ + open_elem_text("s"@),
    {
        let elem = elem_new("s");
        write_start_event(&mut self.writer, elem);
        Ok(())
    }

    /// Closes a sentence element.
    pub fn end_ssml_sentence(&mut self) -> (r: Result<(), SsmlError>)
        ensures
            r is Ok,
            final(self)@ == old(self)@ + close_elem_text("s"@),
    {
        write_end_event(&mut self.writer, "s");
        Ok(())
    }

    /// Opens the interpret-as element with its required attribute.
    pub fn start_ssml_say_as(&mut self, interpret_as: String) -> (r: Result<(), SsmlError>)
        ensures
            r is Ok,
            final(self)@ == old(self)@ + say_as_open_text(interpret_as@),
    {
        let mut elem = elem_new("say-as");
        elem_push_attr(&mut elem, "interpret-as", interpret_as.as_str());
        write_start_event(&mut self.writer, elem);
        Ok(())
    }

    /// Closes the interpret-as element.
    pub fn end_ssml_say_as(&mut self) -> (r: Result<(), SsmlError>)
        ensures
            r is Ok,
            final(self)@ == old(self)@ + close_elem_text("say-as"@),
    {
        write_end_event(&mut self.writer, "say-as");
        Ok(())
    }

    /// Opens the substitution element with its required alias.
    pub fn start_ssml_sub(&mut self, alias: String) -> (r: Result<(), SsmlError>)
        ensures
            r is Ok,
            final(self)@ == old(self)@ + sub_open_text(alias@),
    {
        let mut elem = elem_new("sub");
        elem_push_attr(&mut elem, "alias", alias.as_str());
        write_start_event(&mut self.writer, elem);
        Ok(())
    }

    /// Closes the substitution element.
    pub fn end_ssml_sub(&mut self) -> (r: Result<(), SsmlError>)
        ensures
            r is Ok,
            final(self)@ == old(self)@ + close_elem_text("sub"@),
    {
        write_end_event(&mut self.writer, "sub");
        Ok(())
    }

    /// Opens the word element with its required role.
    pub fn start_ssml_w(&mut self, role: WordRole) -> (r: Result<(), SsmlError>)
        ensures
            r is Ok,
            final(self)@ == old(self)@ + w_open_text(role),
    {
        let mut elem = elem_new("w");
        let v = role.to_text();
        elem_push_attr(&mut elem, "role", v.as_str());
        write_start_event(&mut self.writer, elem);
        Ok(())
    }

    /// Closes the word element.
    pub fn end_ssml_w(&mut self) -> (r: Result<(), SsmlError>)
        ensures
            r is Ok,
            final(self)@ == old(self)@ + close_elem_text("w"@),
    {
        write_end_event(&mut self.writer, "w");
        Ok(())
    }

    /// Opens the vendor domain element with its required name.
    pub fn start_ssml_amazon_domain(&mut self, name: AmazonDomainNames) -> (r: Result<
        (),
        SsmlError,
    >)
        ensures
            r is Ok,
            final(self)@ == old(self)@ + amazon_domain_open_text(name),
    {
        let mut elem = elem_new("amazon:domain");
        let v = name.to_text();
        elem_push_attr(&mut elem, "name", v.as_str());
        write_start_event(&mut self.writer, elem);
        Ok(())
    }

    /// Closes the vendor domain element.
    pub fn end_ssml_amazon_domain(&mut self) -> (r: Result<(), SsmlError>)
        ensures
            r is Ok,
            final(self)@ == old(self)@ + close_elem_text("amazon:domain"@),
    {
        write_end_event(&mut self.writer, "amazon:domain");
        Ok(())
    }

    /// Opens the vendor effect element in its named mode.
    pub fn start_ssml_amazon_effect(&mut self, name: AmazonEffect) -> (r: Result<(), SsmlError>)
        ensures
            r is Ok,
            final(self)@ == old(self)@ + amazon_effect_open_text(name),
    {
        let mut elem = elem_new("amazon:effect");
        let v = name.to_text();
        elem_push_attr(&mut elem, "name", v.as_str());
        write_start_event(&mut self.writer, elem);
        Ok(())
    }

    /// Closes the vendor effect element.
    pub fn end_ssml_amazon_effect(&mut self) -> (r: Result<(), SsmlError>)
        ensures
            r is Ok,
            final(self)@ == old(self)@ + close_elem_text("amazon:effect"@),
    {
        write_end_event(&mut self.writer, "amazon:effect");
        Ok(())
    }

    /// Opens the vendor effect element in its length-factor mode; the
    /// factor is passed through as given.
    pub fn start_ssml_vocal_tract_length(&mut self, factor: String) -> (r: Result<(), SsmlError>)
        ensures
            r is Ok,
            final(self)@ == old(self)@ + vocal_tract_open_text(factor@),
    {
        let mut elem = elem_new("amazon:effect");
        elem_push_attr(&mut elem, "vocal-tract-length", factor.as_str());
        write_start_event(&mut self.writer, elem);
        Ok(())
    }

    /// Opens the vendor effect element in its phonation mode.
    pub fn start_ssml_phonation(&mut self, volume: PhonationVolume) -> (r: Result<(), SsmlError>)
        ensures
            r is Ok,
            final(self)@ == old(self)@ + phonation_open_text(volume),
    {
        let mut elem = elem_new("amazon:effect");
        let v = volume.to_text();
        elem_push_attr(&mut elem, "phonation", v.as_str());
        write_start_event(&mut self.writer, elem);
        Ok(())
    }

    /// Opens the automatic-breaths element; all three attributes are always
    /// written, in the order volume, frequency, duration.
    pub fn start_ssml_auto_breaths(
        &mut self,
        volume: BreathVolumes,
        frequency: AutoBreathFrequency,
        duration: BreathDuration,
    ) -> (r: Result<(), SsmlError>)
        ensures
            r is Ok,
            final(self)@ == old(self)@ + auto_breaths_open_text(volume, frequency, duration),
    {
        let mut elem = elem_new("amazon:auto-breaths");
        let v = volume.to_text();
        elem_push_attr(&mut elem, "volume", v.as_str());
        let f = frequency.to_text();
        elem_push_attr(&mut elem, "frequency", f.as_str());
        let d = duration.to_text();
        elem_push_attr(&mut elem, "duration", d.as_str());
        write_start_event(&mut self.writer, elem);
        Ok(())
    }

    /// Closes the automatic-breaths element.
    pub fn end_ssml_amazon_auto_breaths(&mut self) -> (r: Result<(), SsmlError>)
        ensures
            r is Ok,
            final(self)@ == old(self)@ + close_elem_text("amazon:auto-breaths"@),
    {
        write_end_event(&mut self.writer, "amazon:auto-breaths");
        Ok(())
    }

    /// Writes the self-closing single-breath element; both attributes are
    /// always written, in the order volume, duration.
    pub fn write_amazon_breath(&mut self, volume: BreathVolumes, duration: BreathDuration) -> (r:
        Result<(), SsmlError>)
        ensures
            r is Ok,
            final(self)@ == old(self)@ + amazon_breath_text(volume, duration),
    {
        let mut elem = elem_new("amazon:breath");
        let v = volume.to_text();
        elem_push_attr(&mut elem, "volume", v.as_str());
        let d = duration.to_text();
        elem_push_attr(&mut elem, "duration", d.as_str());
        write_empty_event(&mut self.writer, elem);
        Ok(())
    }

    /// Writes escaped text content.
    pub fn write_text(&mut self, text: &str) -> (r: Result<(), SsmlError>)
        ensures
            r is Ok,
            final(self)@ == old(self)@ + escape_text(text@),
    {
        write_text_event(&mut self.writer, text);
        Ok(())
    }

    /// Renders the document in its current state. Rendering does not change
    /// the writer and closes nothing: the result is exactly the text emitted
    /// so far, so repeated renders of one state agree.
    pub fn render(&self) -> (r: String)
        ensures
            r@ == self@,
    {
        render_writer(&self.writer)
    }
}

/// Idempotent render: the result of `render` is a function of the emitter
/// state alone — its contract pins it to the state's view — so any two
/// renders of the same state yield identical strings.
pub proof fn lemma_render_idempotent(w: XmlWriter, r1: String, r2: String)
    requires
        r1@ == w@,
        r2@ == w@,
    ensures
        r1@ == r2@,
{
}


} // verus!
