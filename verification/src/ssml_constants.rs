//! The closed SSML vocabulary: every recognized tag name, and for each
//! enumerated attribute the accepted input spellings together with the one
//! canonical spelling that is written to the output.
//!
//! Tag names and enumerated values match case-insensitively; the canonical
//! output spelling is fixed and independent of the input spelling.

use vstd::prelude::*;

use crate::strutil::{lower_of, lowercase, str_eq, substr_copy};

verus! {

// ---------------------------------------------------------------------------
// Decimal numerals
// ---------------------------------------------------------------------------

pub open spec fn is_digit(c: char) -> bool {
    c == '0' || c == '1' || c == '2' || c == '3' || c == '4' || c == '5' || c == '6' || c == '7'
        || c == '8' || c == '9'
}

pub open spec fn digit_val(c: char) -> int
    recommends
        is_digit(c),
{
    if c == '0' {
        0
    } else if c == '1' {
        1
    } else if c == '2' {
        2
    } else if c == '3' {
        3
    } else if c == '4' {
        4
    } else if c == '5' {
        5
    } else if c == '6' {
        6
    } else if c == '7' {
        7
    } else if c == '8' {
        8
    } else {
        9
    }
}

pub open spec fn digit_char(d: int) -> char
    recommends
        0 <= d < 10,
{
    if d == 0 {
        '0'
    } else if d == 1 {
        '1'
    } else if d == 2 {
        '2'
    } else if d == 3 {
        '3'
    } else if d == 4 {
        '4'
    } else if d == 5 {
        '5'
    } else if d == 6 {
        '6'
    } else if d == 7 {
        '7'
    } else if d == 8 {
        '8'
    } else {
        '9'
    }
}

pub open spec fn all_digits(s: Seq<char>) -> bool {
    forall|i: int| 0 <= i < s.len() ==> is_digit(s[i])
}

/// Value of a run of decimal digits, most significant first.
pub open spec fn numeral_val(s: Seq<char>) -> int
    recommends
        all_digits(s),
    decreases s.len(),
{
    if s.len() == 0 {
        0
    } else {
        numeral_val(s.drop_last()) * 10 + digit_val(s.last())
    }
}

proof fn lemma_numeral_val_nonneg(s: Seq<char>)
    ensures
        numeral_val(s) >= 0,
    decreases s.len(),
{
    if s.len() > 0 {
        lemma_numeral_val_nonneg(s.drop_last());
        assert(digit_val(s.last()) >= 0);
    }
}

/// A digit run's value only grows as more digits are appended.
proof fn lemma_numeral_val_take_le(s: Seq<char>, j: int)
    requires
        0 <= j <= s.len(),
    ensures
        numeral_val(s.take(j)) <= numeral_val(s),
    decreases s.len() - j,
{
    if j < s.len() {
        lemma_numeral_val_take_le(s, j + 1);
        let t = s.take(j + 1);
        assert(t.drop_last() =~= s.take(j));
        lemma_numeral_val_nonneg(s.take(j));
        assert(numeral_val(t) == numeral_val(s.take(j)) * 10 + digit_val(t.last()));
        assert(digit_val(t.last()) >= 0);
        assert(numeral_val(s.take(j)) <= numeral_val(s.take(j)) * 10 + digit_val(t.last()));
    } else {
        assert(s.take(j) =~= s);
    }
}

/// What `str::parse::<u32>` accepts: an optional leading `+`, then one or
/// more decimal digits whose value fits in 32 bits.
pub open spec fn parse_u32_of(s: Seq<char>) -> Option<u32> {
    let t = if s.len() > 0 && s[0] == '+' {
        s.drop_first()
    } else {
        s
    };
    if t.len() > 0 && all_digits(t) && numeral_val(t) <= u32::MAX {
        Some(numeral_val(t) as u32)
    } else {
        None
    }
}

/// Parses an unsigned 32-bit decimal numeral, with `str::parse::<u32>`'s
/// acceptance rules.
#[verifier::loop_isolation(false)]
pub fn parse_u32(s: &str) -> (r: Option<u32>)
    ensures
        r == parse_u32_of(s@),
{
    let n = s.unicode_len();
    let start: usize = if n > 0 && s.get_char(0) == '+' {
        1
    } else {
        0
    };
    let ghost t = if s@.len() > 0 && s@[0] == '+' {
        s@.drop_first()
    } else {
        s@
    };
    proof {
        assert(t =~= s@.subrange(start as int, n as int));
    }
    if start == n {
        return None;
    }
    let mut acc: u32 = 0;
    let mut i = start;
    while i < n
        invariant
            start <= i <= n,
            t =~= s@.subrange(start as int, n as int),
            all_digits(t.take(i - start)),
            acc == numeral_val(t.take(i - start)),
        decreases n - i,
    {
        let c = s.get_char(i);
        let d: u32 = if c == '0' {
            0
        } else if c == '1' {
            1
        } else if c == '2' {
            2
        } else if c == '3' {
            3
        } else if c == '4' {
            4
        } else if c == '5' {
            5
        } else if c == '6' {
            6
        } else if c == '7' {
            7
        } else if c == '8' {
            8
        } else if c == '9' {
            9
        } else {
            assert(t[i - start] == c && !is_digit(c));
            return None;
        };
        assert(is_digit(c) && d == digit_val(c));
        let wide: u64 = acc as u64 * 10 + d as u64;
        proof {
            let j = i - start;
            assert(t.take(j + 1).drop_last() =~= t.take(j));
            assert(t.take(j + 1).last() == t[j] == c);
            assert(numeral_val(t.take(j + 1)) == acc * 10 + d);
        }
        if wide > 0xFFFF_FFFFu64 {
            proof {
                lemma_numeral_val_take_le(t, i + 1 - start);
            }
            return None;
        }
        acc = wide as u32;
        i = i + 1;
    }
    proof {
        assert(t.take(n - start) =~= t);
    }
    Some(acc)
}

/// Decimal rendering of a non-negative integer, no sign, no leading zeros
/// (except for the single digit `0` itself).
pub open spec fn dec_str_of(n: int) -> Seq<char>
    recommends
        n >= 0,
    decreases n,
{
    if n < 10 {
        seq![digit_char(n)]
    } else {
        dec_str_of(n / 10) + seq![digit_char(n % 10)]
    }
}

fn digit_str(d: u32) -> (r: String)
    requires
        d < 10,
    ensures
        r@ == seq![digit_char(d as int)],
{
    let r: &str = if d == 0 {
        "0"
    } else if d == 1 {
        "1"
    } else if d == 2 {
        "2"
    } else if d == 3 {
        "3"
    } else if d == 4 {
        "4"
    } else if d == 5 {
        "5"
    } else if d == 6 {
        "6"
    } else if d == 7 {
        "7"
    } else if d == 8 {
        "8"
    } else {
        "9"
    };
    proof {
        reveal_strlit("0");
        reveal_strlit("1");
        reveal_strlit("2");
        reveal_strlit("3");
        reveal_strlit("4");
        reveal_strlit("5");
        reveal_strlit("6");
        reveal_strlit("7");
        reveal_strlit("8");
        reveal_strlit("9");
        assert(r@ =~= seq![digit_char(d as int)]);
    }
    r.to_owned()
}

/// Renders `n` in decimal.
pub fn u32_text(n: u32) -> (r: String)
    ensures
        r@ == dec_str_of(n as int),
    decreases n,
{
    if n < 10 {
        digit_str(n)
    } else {
        let mut prefix = u32_text(n / 10);
        let last = digit_str(n % 10);
        prefix.append(last.as_str());
        prefix
    }
}

// ---------------------------------------------------------------------------
// Break strength
// ---------------------------------------------------------------------------

/// Strength values for the pause element.
#[derive(Clone, Copy, Debug, PartialEq, Eq, Structural)]
pub enum BreakStrength {
    NoStrength,
    XWeak,
    Weak,
    Medium,
    Strong,
    XStrong,
}

/// Which strength (if any) a lowercased attribute value names.
pub open spec fn break_strength_of(n: Seq<char>) -> Option<BreakStrength> {
    if n == "break"@ {
        Some(BreakStrength::NoStrength)
    } else if n == "x-weak"@ {
        Some(BreakStrength::XWeak)
    } else if n == "weak"@ {
        Some(BreakStrength::Weak)
    } else if n == "medium"@ {
        Some(BreakStrength::Medium)
    } else if n == "strong"@ {
        Some(BreakStrength::Strong)
    } else if n == "x-strong"@ {
        Some(BreakStrength::XStrong)
    } else {
        None
    }
}

/// The canonical output spelling of a strength.
pub open spec fn break_strength_str(b: BreakStrength) -> Seq<char> {
    match b {
        BreakStrength::NoStrength => "none"@,
        BreakStrength::XWeak => "x-weak"@,
        BreakStrength::Weak => "weak"@,
        BreakStrength::Medium => "medium"@,
        BreakStrength::Strong => "strong"@,
        BreakStrength::XStrong => "x-strong"@,
    }
}

impl BreakStrength {
    /// Case-insensitive parse; note the accepted spelling for the
    /// no-strength value is `break`, while its canonical output is `none`.
    pub fn from_text(s: &str) -> (r: Option<BreakStrength>)
        ensures
            r == break_strength_of(lower_of(s@)),
    {
        let low = lowercase(s);
        if str_eq(low.as_str(), "break") {
            Some(BreakStrength::NoStrength)
        } else if str_eq(low.as_str(), "x-weak") {
            Some(BreakStrength::XWeak)
        } else if str_eq(low.as_str(), "weak") {
            Some(BreakStrength::Weak)
        } else if str_eq(low.as_str(), "medium") {
            Some(BreakStrength::Medium)
        } else if str_eq(low.as_str(), "strong") {
            Some(BreakStrength::Strong)
        } else if str_eq(low.as_str(), "x-strong") {
            Some(BreakStrength::XStrong)
        } else {
            None
        }
    }

    /// The canonical output spelling.
    pub fn to_text(&self) -> (r: String)
        ensures
            r@ == break_strength_str(*self),
    {
        match self {
            BreakStrength::NoStrength => "none".to_owned(),
            BreakStrength::XWeak => "x-weak".to_owned(),
            BreakStrength::Weak => "weak".to_owned(),
            BreakStrength::Medium => "medium".to_owned(),
            BreakStrength::Strong => "strong".to_owned(),
            BreakStrength::XStrong => "x-strong".to_owned(),
        }
    }
}

// ---------------------------------------------------------------------------
// Break time
// ---------------------------------------------------------------------------

/// A pause duration: a whole number of seconds or of milliseconds.
#[derive(Clone, Copy, Debug, PartialEq, Eq, Structural)]
pub struct BreakTime {
    /// The amount of time to break for.
    pub time: u32,
    /// Whether `time` counts seconds; when false it counts milliseconds.
    pub is_seconds: bool,
}

impl BreakTime {
    /// Constructs a break time from a value and a unit flag.
    pub fn new(value: u32, is_seconds: bool) -> (r: BreakTime)
        ensures
            r.time == value,
            r.is_seconds == is_seconds,
    {
        BreakTime { time: value, is_seconds }
    }
}

/// Which duration (if any) a raw attribute value names. The unit suffix is
/// matched case-sensitively at the end of the string; the entire prefix
/// before it must be a non-empty number that parses as a 32-bit value, so
/// the bare unit and anything with more than a number and one suffix are
/// rejected.
pub open spec fn break_time_of(s: Seq<char>) -> Option<BreakTime> {
    if s.len() >= 2 && s[s.len() - 2] == 'm' && s[s.len() - 1] == 's' {
        match parse_u32_of(s.take(s.len() - 2)) {
            Some(v) => Some(BreakTime { time: v, is_seconds: false }),
            None => None,
        }
    } else if s.len() >= 1 && s[s.len() - 1] == 's' {
        match parse_u32_of(s.take(s.len() - 1)) {
            Some(v) => Some(BreakTime { time: v, is_seconds: true }),
            None => None,
        }
    } else {
        None
    }
}

/// The canonical output spelling of a duration: the number, then `s` or `ms`.
pub open spec fn break_time_str(b: BreakTime) -> Seq<char> {
    dec_str_of(b.time as int) + (if b.is_seconds {
        "s"@
    } else {
        "ms"@
    })
}

impl BreakTime {
    /// Case-sensitive parse of a duration such as `4s` or `250ms`: the
    /// whole text before the trailing unit must be the number.
    pub fn from_text(s: &str) -> (r: Option<BreakTime>)
        ensures
            r == break_time_of(s@),
    {
        let n = s.unicode_len();
        if n >= 2 && s.get_char(n - 2) == 'm' && s.get_char(n - 1) == 's' {
            let digits = substr_copy(s, 0, n - 2);
            proof {
                assert(s@.take(n - 2) =~= s@.subrange(0, n - 2));
            }
            match parse_u32(digits.as_str()) {
                Some(v) => Some(BreakTime { time: v, is_seconds: false }),
                None => None,
            }
        } else if n >= 1 && s.get_char(n - 1) == 's' {
            let digits = substr_copy(s, 0, n - 1);
            proof {
                assert(s@.take(n - 1) =~= s@.subrange(0, n - 1));
            }
            match parse_u32(digits.as_str()) {
                Some(v) => Some(BreakTime { time: v, is_seconds: true }),
                None => None,
            }
        } else {
            None
        }
    }

    /// The canonical output spelling, for example `10s` or `250ms`.
    pub fn to_text(&self) -> (r: String)
        ensures
            r@ == break_time_str(*self),
    {
        let mut out = u32_text(self.time);
        if self.is_seconds {
            out.append("s");
        } else {
            out.append("ms");
        }
        out
    }
}

// ---------------------------------------------------------------------------
// Phoneme alphabet
// ---------------------------------------------------------------------------

/// Pronunciation alphabets accepted by the phoneme element.
#[derive(Clone, Copy, Debug, PartialEq, Eq, Structural)]
pub enum PhonemeAlphabet {
    Ipa,
    XSampa,
}

pub open spec fn phoneme_alphabet_of(n: Seq<char>) -> Option<PhonemeAlphabet> {
    if n == "ipa"@ {
        Some(PhonemeAlphabet::Ipa)
    } else if n == "x-sampa"@ {
        Some(PhonemeAlphabet::XSampa)
    } else {
        None
    }
}

pub open spec fn phoneme_alphabet_str(a: PhonemeAlphabet) -> Seq<char> {
    match a {
        PhonemeAlphabet::Ipa => "ipa"@,
        PhonemeAlphabet::XSampa => "x-sampa"@,
    }
}

impl PhonemeAlphabet {
    pub fn from_text(s: &str) -> (r: Option<PhonemeAlphabet>)
        ensures
            r == phoneme_alphabet_of(lower_of(s@)),
    {
        let low = lowercase(s);
        if str_eq(low.as_str(), "ipa") {
            Some(PhonemeAlphabet::Ipa)
        } else if str_eq(low.as_str(), "x-sampa") {
            Some(PhonemeAlphabet::XSampa)
        } else {
            None
        }
    }

    pub fn to_text(&self) -> (r: String)
        ensures
            r@ == phoneme_alphabet_str(*self),
    {
        match self {
            PhonemeAlphabet::Ipa => "ipa".to_owned(),
            PhonemeAlphabet::XSampa => "x-sampa".to_owned(),
        }
    }
}

// ---------------------------------------------------------------------------
// Prosody rate
// ---------------------------------------------------------------------------

/// Speaking-rate values accepted by the prosody element.
#[derive(Clone, Copy, Debug, PartialEq, Eq, Structural)]
pub enum ProsodyRate {
    XSlow,
    Slow,
    Medium,
    Fast,
    XFast,
}

pub open spec fn prosody_rate_of(n: Seq<char>) -> Option<ProsodyRate> {
    if n == "x-slow"@ {
        Some(ProsodyRate::XSlow)
    } else if n == "slow"@ {
        Some(ProsodyRate::Slow)
    } else if n == "medium"@ {
        Some(ProsodyRate::Medium)
    } else if n == "fast"@ {
        Some(ProsodyRate::Fast)
    } else if n == "x-fast"@ {
        Some(ProsodyRate::XFast)
    } else {
        None
    }
}

pub open spec fn prosody_rate_str(p: ProsodyRate) -> Seq<char> {
    match p {
        ProsodyRate::XSlow => "x-slow"@,
        ProsodyRate::Slow => "slow"@,
        ProsodyRate::Medium => "medium"@,
        ProsodyRate::Fast => "fast"@,
        ProsodyRate::XFast => "x-fast"@,
    }
}

impl ProsodyRate {
    pub fn from_text(s: &str) -> (r: Option<ProsodyRate>)
        ensures
            r == prosody_rate_of(lower_of(s@)),
    {
        let low = lowercase(s);
        if str_eq(low.as_str(), "x-slow") {
            Some(ProsodyRate::XSlow)
        } else if str_eq(low.as_str(), "slow") {
            Some(ProsodyRate::Slow)
        } else if str_eq(low.as_str(), "medium") {
            Some(ProsodyRate::Medium)
        } else if str_eq(low.as_str(), "fast") {
            Some(ProsodyRate::Fast)
        } else if str_eq(low.as_str(), "x-fast") {
            Some(ProsodyRate::XFast)
        } else {
            None
        }
    }

    pub fn to_text(&self) -> (r: String)
        ensures
            r@ == prosody_rate_str(*self),
    {
        match self {
            ProsodyRate::XSlow => "x-slow".to_owned(),
            ProsodyRate::Slow => "slow".to_owned(),
            ProsodyRate::Medium => "medium".to_owned(),
            ProsodyRate::Fast => "fast".to_owned(),
            ProsodyRate::XFast => "x-fast".to_owned(),
        }
    }
}

// ---------------------------------------------------------------------------
// Word role
// ---------------------------------------------------------------------------

/// Word-interpretation roles for the word element. The canonical spellings
/// are mixed case, while matching is on the lowercased input.
#[derive(Clone, Copy, Debug, PartialEq, Eq, Structural)]
pub enum WordRole {
    Verb,
    PastTense,
    PresentTense,
}

pub open spec fn word_role_of(n: Seq<char>) -> Option<WordRole> {
    if n == "amazon:vb"@ {
        Some(WordRole::Verb)
    } else if n == "amazon:vbd"@ {
        Some(WordRole::PastTense)
    } else if n == "amazon:sense_1"@ {
        Some(WordRole::PresentTense)
    } else {
        None
    }
}

pub open spec fn word_role_str(w: WordRole) -> Seq<char> {
    match w {
        WordRole::Verb => "amazon:VB"@,
        WordRole::PastTense => "amazon:VBD"@,
        WordRole::PresentTense => "amazon:SENSE_1"@,
    }
}

impl WordRole {
    pub fn from_text(s: &str) -> (r: Option<WordRole>)
        ensures
            r == word_role_of(lower_of(s@)),
    {
        let low = lowercase(s);
        if str_eq(low.as_str(), "amazon:vb") {
            Some(WordRole::Verb)
        } else if str_eq(low.as_str(), "amazon:vbd") {
            Some(WordRole::PastTense)
        } else if str_eq(low.as_str(), "amazon:sense_1") {
            Some(WordRole::PresentTense)
        } else {
            None
        }
    }

    pub fn to_text(&self) -> (r: String)
        ensures
            r@ == word_role_str(*self),
    {
        match self {
            WordRole::Verb => "amazon:VB".to_owned(),
            WordRole::PastTense => "amazon:VBD".to_owned(),
            WordRole::PresentTense => "amazon:SENSE_1".to_owned(),
        }
    }
}

// ---------------------------------------------------------------------------
// Vendor effect name
// ---------------------------------------------------------------------------

/// Named vendor effects; both `whisper` and `whispered` are accepted for the
/// whispering effect, whose canonical spelling is `whispered`.
#[derive(Clone, Copy, Debug, PartialEq, Eq, Structural)]
pub enum AmazonEffect {
    Whispered,
    Drc,
}

pub open spec fn amazon_effect_of(n: Seq<char>) -> Option<AmazonEffect> {
    if n == "whispered"@ || n == "whisper"@ {
        Some(AmazonEffect::Whispered)
    } else if n == "drc"@ {
        Some(AmazonEffect::Drc)
    } else {
        None
    }
}

pub open spec fn amazon_effect_str(e: AmazonEffect) -> Seq<char> {
    match e {
        AmazonEffect::Whispered => "whispered"@,
        AmazonEffect::Drc => "drc"@,
    }
}

impl AmazonEffect {
    pub fn from_text(s: &str) -> (r: Option<AmazonEffect>)
        ensures
            r == amazon_effect_of(lower_of(s@)),
    {
        let low = lowercase(s);
        if str_eq(low.as_str(), "whispered") || str_eq(low.as_str(), "whisper") {
            Some(AmazonEffect::Whispered)
        } else if str_eq(low.as_str(), "drc") {
            Some(AmazonEffect::Drc)
        } else {
            None
        }
    }

    pub fn to_text(&self) -> (r: String)
        ensures
            r@ == amazon_effect_str(*self),
    {
        match self {
            AmazonEffect::Whispered => "whispered".to_owned(),
            AmazonEffect::Drc => "drc".to_owned(),
        }
    }
}

// ---------------------------------------------------------------------------
// Vendor domain name
// ---------------------------------------------------------------------------

/// Named speaking domains for the vendor domain element.
#[derive(Clone, Copy, Debug, PartialEq, Eq, Structural)]
pub enum AmazonDomainNames {
    News,
}

pub open spec fn amazon_domain_of(n: Seq<char>) -> Option<AmazonDomainNames> {
    if n == "news"@ {
        Some(AmazonDomainNames::News)
    } else {
        None
    }
}

pub open spec fn amazon_domain_str(d: AmazonDomainNames) -> Seq<char> {
    match d {
        AmazonDomainNames::News => "news"@,
    }
}

impl AmazonDomainNames {
    pub fn from_text(s: &str) -> (r: Option<AmazonDomainNames>)
        ensures
            r == amazon_domain_of(lower_of(s@)),
    {
        let low = lowercase(s);
        if str_eq(low.as_str(), "news") {
            Some(AmazonDomainNames::News)
        } else {
            None
        }
    }

    pub fn to_text(&self) -> (r: String)
        ensures
            r@ == amazon_domain_str(*self),
    {
        match self {
            AmazonDomainNames::News => "news".to_owned(),
        }
    }
}

// ---------------------------------------------------------------------------
// Breath volume
// ---------------------------------------------------------------------------

/// Breath loudness for the breath elements; an absent or empty value means
/// the default.
#[derive(Clone, Copy, Debug, PartialEq, Eq, Structural)]
pub enum BreathVolumes {
    Def,
    XSoft,
    Soft,
    Medium,
    Loud,
    XLoud,
}

pub open spec fn breath_volume_of(n: Seq<char>) -> Option<BreathVolumes> {
    if n == "default"@ || n.len() == 0 {
        Some(BreathVolumes::Def)
    } else if n == "x-soft"@ {
        Some(BreathVolumes::XSoft)
    } else if n == "soft"@ {
        Some(BreathVolumes::Soft)
    } else if n == "medium"@ {
        Some(BreathVolumes::Medium)
    } else if n == "loud"@ {
        Some(BreathVolumes::Loud)
    } else if n == "x-loud"@ {
        Some(BreathVolumes::XLoud)
    } else {
        None
    }
}

pub open spec fn breath_volume_str(v: BreathVolumes) -> Seq<char> {
    match v {
        BreathVolumes::Def => "default"@,
        BreathVolumes::XSoft => "x-soft"@,
        BreathVolumes::Soft => "soft"@,
        BreathVolumes::Medium => "medium"@,
        BreathVolumes::Loud => "loud"@,
        BreathVolumes::XLoud => "x-loud"@,
    }
}

impl BreathVolumes {
    pub fn from_text(s: &str) -> (r: Option<BreathVolumes>)
        ensures
            r == breath_volume_of(lower_of(s@)),
    {
        let low = lowercase(s);
        if str_eq(low.as_str(), "default") || low.as_str().is_empty() {
            Some(BreathVolumes::Def)
        } else if str_eq(low.as_str(), "x-soft") {
            Some(BreathVolumes::XSoft)
        } else if str_eq(low.as_str(), "soft") {
            Some(BreathVolumes::Soft)
        } else if str_eq(low.as_str(), "medium") {
            Some(BreathVolumes::Medium)
        } else if str_eq(low.as_str(), "loud") {
            Some(BreathVolumes::Loud)
        } else if str_eq(low.as_str(), "x-loud") {
            Some(BreathVolumes::XLoud)
        } else {
            None
        }
    }

    pub fn to_text(&self) -> (r: String)
        ensures
            r@ == breath_volume_str(*self),
    {
        match self {
            BreathVolumes::Def => "default".to_owned(),
            BreathVolumes::XSoft => "x-soft".to_owned(),
            BreathVolumes::Soft => "soft".to_owned(),
            BreathVolumes::Medium => "medium".to_owned(),
            BreathVolumes::Loud => "loud".to_owned(),
            BreathVolumes::XLoud => "x-loud".to_owned(),
        }
    }
}

// ---------------------------------------------------------------------------
// Breath duration
// ---------------------------------------------------------------------------

/// Breath length for the breath elements; an absent or empty value means
/// the default.
#[derive(Clone, Copy, Debug, PartialEq, Eq, Structural)]
pub enum BreathDuration {
    Def,
    XShort,
    Short,
    Medium,
    Long,
    XLong,
}

pub open spec fn breath_duration_of(n: Seq<char>) -> Option<BreathDuration> {
    if n == "default"@ || n.len() == 0 {
        Some(BreathDuration::Def)
    } else if n == "x-short"@ {
        Some(BreathDuration::XShort)
    } else if n == "short"@ {
        Some(BreathDuration::Short)
    } else if n == "medium"@ {
        Some(BreathDuration::Medium)
    } else if n == "long"@ {
        Some(BreathDuration::Long)
    } else if n == "x-long"@ {
        Some(BreathDuration::XLong)
    } else {
        None
    }
}

pub open spec fn breath_duration_str(d: BreathDuration) -> Seq<char> {
    match d {
        BreathDuration::Def => "default"@,
        BreathDuration::XShort => "x-short"@,
        BreathDuration::Short => "short"@,
        BreathDuration::Medium => "medium"@,
        BreathDuration::Long => "long"@,
        BreathDuration::XLong => "x-long"@,
    }
}

impl BreathDuration {
    pub fn from_text(s: &str) -> (r: Option<BreathDuration>)
        ensures
            r == breath_duration_of(lower_of(s@)),
    {
        let low = lowercase(s);
        if str_eq(low.as_str(), "default") || low.as_str().is_empty() {
            Some(BreathDuration::Def)
        } else if str_eq(low.as_str(), "x-short") {
            Some(BreathDuration::XShort)
        } else if str_eq(low.as_str(), "short") {
            Some(BreathDuration::Short)
        } else if str_eq(low.as_str(), "medium") {
            Some(BreathDuration::Medium)
        } else if str_eq(low.as_str(), "long") {
            Some(BreathDuration::Long)
        } else if str_eq(low.as_str(), "x-long") {
            Some(BreathDuration::XLong)
        } else {
            None
        }
    }

    pub fn to_text(&self) -> (r: String)
        ensures
            r@ == breath_duration_str(*self),
    {
        match self {
            BreathDuration::Def => "default".to_owned(),
            BreathDuration::XShort => "x-short".to_owned(),
            BreathDuration::Short => "short".to_owned(),
            BreathDuration::Medium => "medium".to_owned(),
            BreathDuration::Long => "long".to_owned(),
            BreathDuration::XLong => "x-long".to_owned(),
        }
    }
}

// ---------------------------------------------------------------------------
// Automatic breath frequency
// ---------------------------------------------------------------------------

/// How often automatic breaths occur; an absent or empty value means the
/// default.
#[derive(Clone, Copy, Debug, PartialEq, Eq, Structural)]
pub enum AutoBreathFrequency {
    Def,
    XLow,
    Low,
    Medium,
    High,
    XHigh,
}

pub open spec fn breath_frequency_of(n: Seq<char>) -> Option<AutoBreathFrequency> {
    if n == "default"@ || n.len() == 0 {
        Some(AutoBreathFrequency::Def)
    } else if n == "x-low"@ {
        Some(AutoBreathFrequency::XLow)
    } else if n == "low"@ {
        Some(AutoBreathFrequency::Low)
    } else if n == "medium"@ {
        Some(AutoBreathFrequency::Medium)
    } else if n == "high"@ {
        Some(AutoBreathFrequency::High)
    } else if n == "x-high"@ {
        Some(AutoBreathFrequency::XHigh)
    } else {
        None
    }
}

pub open spec fn breath_frequency_str(f: AutoBreathFrequency) -> Seq<char> {
    match f {
        AutoBreathFrequency::Def => "default"@,
        AutoBreathFrequency::XLow => "x-low"@,
        AutoBreathFrequency::Low => "low"@,
        AutoBreathFrequency::Medium => "medium"@,
        AutoBreathFrequency::High => "high"@,
        AutoBreathFrequency::XHigh => "x-high"@,
    }
}

impl AutoBreathFrequency {
    pub fn from_text(s: &str) -> (r: Option<AutoBreathFrequency>)
        ensures
            r == breath_frequency_of(lower_of(s@)),
    {
        let low = lowercase(s);
        if str_eq(low.as_str(), "default") || low.as_str().is_empty() {
            Some(AutoBreathFrequency::Def)
        } else if str_eq(low.as_str(), "x-low") {
            Some(AutoBreathFrequency::XLow)
        } else if str_eq(low.as_str(), "low") {
            Some(AutoBreathFrequency::Low)
        } else if str_eq(low.as_str(), "medium") {
            Some(AutoBreathFrequency::Medium)
        } else if str_eq(low.as_str(), "high") {
            Some(AutoBreathFrequency::High)
        } else if str_eq(low.as_str(), "x-high") {
            Some(AutoBreathFrequency::XHigh)
        } else {
            None
        }
    }

    pub fn to_text(&self) -> (r: String)
        ensures
            r@ == breath_frequency_str(*self),
    {
        match self {
            AutoBreathFrequency::Def => "default".to_owned(),
            AutoBreathFrequency::XLow => "x-low".to_owned(),
            AutoBreathFrequency::Low => "low".to_owned(),
            AutoBreathFrequency::Medium => "medium".to_owned(),
            AutoBreathFrequency::High => "high".to_owned(),
            AutoBreathFrequency::XHigh => "x-high".to_owned(),
        }
    }
}

// ---------------------------------------------------------------------------
// Phonation volume
// ---------------------------------------------------------------------------

/// Values of the phonation setting of the vendor effect element.
#[derive(Clone, Copy, Debug, PartialEq, Eq, Structural)]
pub enum PhonationVolume {
    Soft,
}

pub open spec fn phonation_of(n: Seq<char>) -> Option<PhonationVolume> {
    if n == "soft"@ {
        Some(PhonationVolume::Soft)
    } else {
        None
    }
}

pub open spec fn phonation_str(p: PhonationVolume) -> Seq<char> {
    match p {
        PhonationVolume::Soft => "soft"@,
    }
}

impl PhonationVolume {
    pub fn from_text(s: &str) -> (r: Option<PhonationVolume>)
        ensures
            r == phonation_of(lower_of(s@)),
    {
        let low = lowercase(s);
        if str_eq(low.as_str(), "soft") {
            Some(PhonationVolume::Soft)
        } else {
            None
        }
    }

    pub fn to_text(&self) -> (r: String)
        ensures
            r@ == phonation_str(*self),
    {
        match self {
            PhonationVolume::Soft => "soft".to_owned(),
        }
    }
}

// ---------------------------------------------------------------------------
// Tag name resolution
// ---------------------------------------------------------------------------

/// The tags that carry closing semantics. Self-closing tags (the pause and
/// the single breath) have no closing kind.
#[derive(Clone, Copy, Debug, PartialEq, Eq, Structural)]
pub enum PossibleClosingTags {
    LangTag,
    Mark,
    Paragraph,
    Phoneme,
    Prosody,
    Sentence,
    SayAs,
    Sub,
    Word,
    AmazonEffect,
    AmazonAutoBreaths,
    AmazonDomain,
}

pub open spec fn close_tag_of(n: Seq<char>) -> Option<PossibleClosingTags> {
    if n == "lang"@ {
        Some(PossibleClosingTags::LangTag)
    } else if n == "mark"@ {
        Some(PossibleClosingTags::Mark)
    } else if n == "p"@ {
        Some(PossibleClosingTags::Paragraph)
    } else if n == "phoneme"@ {
        Some(PossibleClosingTags::Phoneme)
    } else if n == "prosody"@ {
        Some(PossibleClosingTags::Prosody)
    } else if n == "s"@ {
        Some(PossibleClosingTags::Sentence)
    } else if n == "say-as"@ {
        Some(PossibleClosingTags::SayAs)
    } else if n == "sub"@ {
        Some(PossibleClosingTags::Sub)
    } else if n == "w"@ {
        Some(PossibleClosingTags::Word)
    } else if n == "amazon:effect"@ {
        Some(PossibleClosingTags::AmazonEffect)
    } else if n == "amazon:auto-breaths"@ {
        Some(PossibleClosingTags::AmazonAutoBreaths)
    } else if n == "amazon:domain"@ {
        Some(PossibleClosingTags::AmazonDomain)
    } else {
        None
    }
}

/// The element name closed by each closing kind.
pub open spec fn close_tag_name(t: PossibleClosingTags) -> Seq<char> {
    match t {
        PossibleClosingTags::LangTag => "lang"@,
        PossibleClosingTags::Mark => "mark"@,
        PossibleClosingTags::Paragraph => "p"@,
        PossibleClosingTags::Phoneme => "phoneme"@,
        PossibleClosingTags::Prosody => "prosody"@,
        PossibleClosingTags::Sentence => "s"@,
        PossibleClosingTags::SayAs => "say-as"@,
        PossibleClosingTags::Sub => "sub"@,
        PossibleClosingTags::Word => "w"@,
        PossibleClosingTags::AmazonEffect => "amazon:effect"@,
        PossibleClosingTags::AmazonAutoBreaths => "amazon:auto-breaths"@,
        PossibleClosingTags::AmazonDomain => "amazon:domain"@,
    }
}

impl PossibleClosingTags {
    pub fn from_text(s: &str) -> (r: Option<PossibleClosingTags>)
        ensures
            r == close_tag_of(lower_of(s@)),
    {
        let low = lowercase(s);
        if str_eq(low.as_str(), "lang") {
            Some(PossibleClosingTags::LangTag)
        } else if str_eq(low.as_str(), "mark") {
            Some(PossibleClosingTags::Mark)
        } else if str_eq(low.as_str(), "p") {
            Some(PossibleClosingTags::Paragraph)
        } else if str_eq(low.as_str(), "phoneme") {
            Some(PossibleClosingTags::Phoneme)
        } else if str_eq(low.as_str(), "prosody") {
            Some(PossibleClosingTags::Prosody)
        } else if str_eq(low.as_str(), "s") {
            Some(PossibleClosingTags::Sentence)
        } else if str_eq(low.as_str(), "say-as") {
            Some(PossibleClosingTags::SayAs)
        } else if str_eq(low.as_str(), "sub") {
            Some(PossibleClosingTags::Sub)
        } else if str_eq(low.as_str(), "w") {
            Some(PossibleClosingTags::Word)
        } else if str_eq(low.as_str(), "amazon:effect") {
            Some(PossibleClosingTags::AmazonEffect)
        } else if str_eq(low.as_str(), "amazon:auto-breaths") {
            Some(PossibleClosingTags::AmazonAutoBreaths)
        } else if str_eq(low.as_str(), "amazon:domain") {
            Some(PossibleClosingTags::AmazonDomain)
        } else {
            None
        }
    }
}

/// Every tag that can open (or stand alone in) a document.
#[derive(Clone, Copy, Debug, PartialEq, Eq, Structural)]
pub enum PossibleOpenTags {
    Break,
    LangTag,
    Mark,
    Paragraph,
    Phoneme,
    Prosody,
    Sentence,
    SayAs,
    Sub,
    Word,
    AmazonEffect,
    AmazonAutoBreaths,
    AmazonBreath,
    AmazonDomain,
}

pub open spec fn open_tag_of(n: Seq<char>) -> Option<PossibleOpenTags> {
    if n == "break"@ {
        Some(PossibleOpenTags::Break)
    } else if n == "lang"@ {
        Some(PossibleOpenTags::LangTag)
    } else if n == "mark"@ {
        Some(PossibleOpenTags::Mark)
    } else if n == "p"@ {
        Some(PossibleOpenTags::Paragraph)
    } else if n == "phoneme"@ {
        Some(PossibleOpenTags::Phoneme)
    } else if n == "prosody"@ {
        Some(PossibleOpenTags::Prosody)
    } else if n == "s"@ {
        Some(PossibleOpenTags::Sentence)
    } else if n == "say-as"@ {
        Some(PossibleOpenTags::SayAs)
    } else if n == "sub"@ {
        Some(PossibleOpenTags::Sub)
    } else if n == "w"@ {
        Some(PossibleOpenTags::Word)
    } else if n == "amazon:effect"@ {
        Some(PossibleOpenTags::AmazonEffect)
    } else if n == "amazon:auto-breaths"@ {
        Some(PossibleOpenTags::AmazonAutoBreaths)
    } else if n == "amazon:breath"@ {
        Some(PossibleOpenTags::AmazonBreath)
    } else if n == "amazon:domain"@ {
        Some(PossibleOpenTags::AmazonDomain)
    } else {
        None
    }
}

impl PossibleOpenTags {
    pub fn from_text(s: &str) -> (r: Option<PossibleOpenTags>)
        ensures
            r == open_tag_of(lower_of(s@)),
    {
        let low = lowercase(s);
        if str_eq(low.as_str(), "break") {
            Some(PossibleOpenTags::Break)
        } else if str_eq(low.as_str(), "lang") {
            Some(PossibleOpenTags::LangTag)
        } else if str_eq(low.as_str(), "mark") {
            Some(PossibleOpenTags::Mark)
        } else if str_eq(low.as_str(), "p") {
            Some(PossibleOpenTags::Paragraph)
        } else if str_eq(low.as_str(), "phoneme") {
            Some(PossibleOpenTags::Phoneme)
        } else if str_eq(low.as_str(), "prosody") {
            Some(PossibleOpenTags::Prosody)
        } else if str_eq(low.as_str(), "s") {
            Some(PossibleOpenTags::Sentence)
        } else if str_eq(low.as_str(), "say-as") {
            Some(PossibleOpenTags::SayAs)
        } else if str_eq(low.as_str(), "sub") {
            Some(PossibleOpenTags::Sub)
        } else if str_eq(low.as_str(), "w") {
            Some(PossibleOpenTags::Word)
        } else if str_eq(low.as_str(), "amazon:effect") {
            Some(PossibleOpenTags::AmazonEffect)
        } else if str_eq(low.as_str(), "amazon:auto-breaths") {
            Some(PossibleOpenTags::AmazonAutoBreaths)
        } else if str_eq(low.as_str(), "amazon:breath") {
            Some(PossibleOpenTags::AmazonBreath)
        } else if str_eq(low.as_str(), "amazon:domain") {
            Some(PossibleOpenTags::AmazonDomain)
        } else {
            None
        }
    }
}

} // verus!
