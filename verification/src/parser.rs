//! The two-stage conversion pipeline: a scanning tokenizer that splits the
//! input into start tags, end tags and literal text runs, and an
//! interpreter that resolves each tag against the vocabulary and emits the
//! corresponding markup.
//!
//! The parser is deliberately permissive: an unknown tag, an unknown
//! attribute, a value outside its closed set or a missing required
//! attribute silently drops the tag or attribute and processing continues.
//! The only fatal condition is a tag marker that is never terminated.

use vstd::prelude::*;

use crate::ssml_constants::{
    amazon_domain_of, amazon_effect_of, break_strength_of, break_time_of, breath_duration_of,
    breath_frequency_of, breath_volume_of, close_tag_of, close_tag_name, open_tag_of,
    phoneme_alphabet_of, phonation_of, prosody_rate_of, word_role_of,
};
use crate::ssml_constants::{
    AmazonDomainNames, AmazonEffect, AutoBreathFrequency, BreakStrength, BreakTime,
    BreathDuration, BreathVolumes, PhonationVolume, PhonemeAlphabet, PossibleClosingTags,
    PossibleOpenTags, ProsodyRate, WordRole,
};
use crate::strutil::{find1_from, find2_from, lower_of};
use crate::strutil::{
    find1, find2, lemma_find1_shift, lemma_find1_spec, lemma_find2_shift, lemma_find2_spec,
    lowercase, str_eq, substr_copy,
};
use crate::xml_writer::{
    amazon_breath_text, amazon_domain_open_text, amazon_effect_open_text,
    auto_breaths_open_text, break_text, close_elem_text, decl_text, escape_text, lang_open_text,
    mark_open_text, open_elem_text, phoneme_open_text, phonation_open_text, prosody_open_text,
    say_as_open_text, speak_open_text, sub_open_text, vocal_tract_open_text, w_open_text,
    XmlWriter,
};
use crate::SsmlError;

verus! {

// ---------------------------------------------------------------------------
// Tag parameters
// ---------------------------------------------------------------------------

/// The mapping an ordered run of key/value insertions builds up: a later
/// entry with the same key wins.
pub open spec fn map_of(entries: Seq<(Seq<char>, Seq<char>)>) -> Map<Seq<char>, Seq<char>>
    decreases entries.len(),
{
    if entries.len() == 0 {
        Map::empty()
    } else {
        map_of(entries.drop_last()).insert(entries.last().0, entries.last().1)
    }
}

proof fn lemma_map_of_absent(es: Seq<(Seq<char>, Seq<char>)>, key: Seq<char>, n: int)
    requires
        0 <= n <= es.len(),
        forall|j: int| n <= j < es.len() ==> (#[trigger] es[j]).0 != key,
    ensures
        map_of(es).contains_key(key) == map_of(es.take(n)).contains_key(key),
        map_of(es).contains_key(key) ==> map_of(es)[key] == map_of(es.take(n))[key],
    decreases es.len() - n,
{
    if n == es.len() {
        assert(es.take(n) =~= es);
    } else {
        lemma_map_of_absent(es, key, n + 1);
        assert(es.take(n + 1).drop_last() =~= es.take(n));
        assert(es.take(n + 1).last() == es[n]);
    }
}

proof fn lemma_map_of_found(es: Seq<(Seq<char>, Seq<char>)>, key: Seq<char>, i: int)
    requires
        0 <= i < es.len(),
        es[i].0 == key,
        forall|j: int| i < j < es.len() ==> (#[trigger] es[j]).0 != key,
    ensures
        map_of(es).contains_key(key),
        map_of(es)[key] == es[i].1,
{
    lemma_map_of_absent(es, key, i + 1);
    assert(es.take(i + 1).drop_last() =~= es.take(i));
    assert(es.take(i + 1).last() == es[i]);
}

/// An ordered key/value parameter mapping with last-write-wins insertion.
/// Its view is the resulting map; lookup order never shows in the view.
#[derive(Clone, Debug)]
pub struct TagParams {
    entries: Vec<(String, String)>,
}

impl TagParams {
    /// The entries in insertion order, by their character content.
    pub closed spec fn entry_seq(&self) -> Seq<(Seq<char>, Seq<char>)> {
        Seq::new(self.entries@.len(), |i: int| (self.entries@[i].0@, self.entries@[i].1@))
    }
}

impl View for TagParams {
    type V = Map<Seq<char>, Seq<char>>;

    closed spec fn view(&self) -> Map<Seq<char>, Seq<char>> {
        map_of(self.entry_seq())
    }
}

impl TagParams {
    /// An empty parameter mapping.
    pub fn new() -> (r: TagParams)
        ensures
            r@ == Map::<Seq<char>, Seq<char>>::empty(),
            r.entry_seq() == Seq::<(Seq<char>, Seq<char>)>::empty(),
    {
        let r = TagParams { entries: Vec::new() };
        proof {
            assert(r.entry_seq() =~= Seq::<(Seq<char>, Seq<char>)>::empty());
        }
        r
    }

    /// Records one key/value pair; a later insertion of the same key
    /// replaces the earlier value.
    pub fn insert(&mut self, k: String, v: String)
        ensures
            final(self).entry_seq() == old(self).entry_seq().push((k@, v@)),
            final(self)@ == old(self)@.insert(k@, v@),
    {
        let ghost prev = self.entry_seq();
        let ghost kk = k@;
        let ghost vv = v@;
        self.entries.push((k, v));
        proof {
            assert(self.entry_seq() =~= prev.push((kk, vv)));
            assert(self.entry_seq().drop_last() =~= prev);
        }
    }

    /// Looks a key up; the value handed back is the last one inserted for
    /// that key.
    #[verifier::loop_isolation(false)]
    pub fn get(&self, k: &str) -> (r: Option<String>)
        ensures
            match r {
                Some(v) => self@.contains_key(k@) && v@ == self@[k@],
                None => !self@.contains_key(k@),
            },
    {
        let n = self.entries.len();
        let mut i = n;
        while i > 0
            invariant
                i <= n,
                forall|j: int| i <= j < n ==> (#[trigger] self.entry_seq()[j]).0 != k@,
            decreases i,
        {
            i = i - 1;
            if str_eq(self.entries[i].0.as_str(), k) {
                let out = self.entries[i].1.clone();
                proof {
                    lemma_map_of_found(self.entry_seq(), k@, i as int);
                }
                return Some(out);
            }
        }
        proof {
            lemma_map_of_absent(self.entry_seq(), k@, 0);
            assert(self.entry_seq().take(0) =~= Seq::<(Seq<char>, Seq<char>)>::empty());
        }
        None
    }

    /// Whether a key is present.
    pub fn contains_key(&self, k: &str) -> (r: bool)
        ensures
            r == self@.contains_key(k@),
    {
        match self.get(k) {
            Some(_) => true,
            None => false,
        }
    }
}

// ---------------------------------------------------------------------------
// Raw items
// ---------------------------------------------------------------------------

/// A start tag as scanned: its raw name and its parameters.
#[derive(Clone, Debug)]
pub struct StartTag {
    pub tag_key: String,
    pub params: TagParams,
}

/// An end tag as scanned: its raw name, used verbatim.
#[derive(Clone, Debug)]
pub struct EndTag {
    pub tag_key: String,
}

/// One scanned item. The tokenizer fills exactly one of the three fields;
/// the interpreter handles each present part independently, in the order
/// start tag, end tag, text.
#[derive(Clone, Debug)]
pub struct OneItem {
    pub start_tag: Option<StartTag>,
    pub end_tag: Option<EndTag>,
    pub data: Option<String>,
}

/// The mathematical content of a start tag.
pub struct StartTagV {
    pub name: Seq<char>,
    pub params: Map<Seq<char>, Seq<char>>,
}

/// The mathematical content of one scanned item.
pub struct OneItemV {
    pub start: Option<StartTagV>,
    pub end: Option<Seq<char>>,
    pub text: Option<Seq<char>>,
}

impl View for StartTag {
    type V = StartTagV;

    open spec fn view(&self) -> StartTagV {
        StartTagV { name: self.tag_key@, params: self.params@ }
    }
}

impl View for EndTag {
    type V = Seq<char>;

    open spec fn view(&self) -> Seq<char> {
        self.tag_key@
    }
}

impl View for OneItem {
    type V = OneItemV;

    open spec fn view(&self) -> OneItemV {
        OneItemV {
            start: match self.start_tag {
                Some(st) => Some(st@),
                None => None,
            },
            end: match self.end_tag {
                Some(et) => Some(et@),
                None => None,
            },
            text: match self.data {
                Some(d) => Some(d@),
                None => None,
            },
        }
    }
}

/// The views of a run of scanned items.
pub open spec fn items_view(items: Seq<OneItem>) -> Seq<OneItemV> {
    items.map_values(|it: OneItem| it@)
}

// ---------------------------------------------------------------------------
// Tag grammar
// ---------------------------------------------------------------------------

/// Splits on the pipe character; no pipe yields the single whole segment.
pub open spec fn split_segments(s: Seq<char>) -> Seq<Seq<char>>
    decreases s.len(),
    via split_segments_dec
{
    match find1_from(s, '|', 0) {
        None => seq![s],
        Some(j) => seq![s.take(j)] + split_segments(s.skip(j + 1)),
    }
}

#[via_fn]
proof fn split_segments_dec(s: Seq<char>) {
    lemma_find1_spec(s, '|', 0);
}

/// The key/value pair a parameter segment yields: the text before the
/// first equals sign, and the text between the first and the second (or
/// the end). A segment with no equals sign yields nothing.
pub open spec fn seg_kv(seg: Seq<char>) -> Option<(Seq<char>, Seq<char>)> {
    match find1_from(seg, '=', 0) {
        None => None,
        Some(e) => {
            let rest = seg.skip(e + 1);
            let v = match find1_from(rest, '=', 0) {
                None => rest,
                Some(e2) => rest.take(e2),
            };
            Some((seg.take(e), v))
        },
    }
}

/// The parameter entries a run of segments yields, in order. A segment
/// with no derivable pair terminates parsing early: the rest is discarded.
pub open spec fn params_entries(segs: Seq<Seq<char>>) -> Seq<(Seq<char>, Seq<char>)>
    decreases segs.len(),
{
    if segs.len() == 0 {
        Seq::empty()
    } else {
        match seg_kv(segs[0]) {
            None => Seq::empty(),
            Some(kv) => seq![kv] + params_entries(segs.drop_first()),
        }
    }
}

/// What a start-tag body means: with no pipe the whole body is the name
/// and there are no parameters; otherwise the name is everything before
/// the first pipe and the remaining segments yield the parameters.
pub open spec fn parse_start_body(body: Seq<char>) -> StartTagV {
    match find1_from(body, '|', 0) {
        None => StartTagV { name: body, params: Map::empty() },
        Some(j) => StartTagV {
            name: body.take(j),
            params: map_of(params_entries(split_segments(body.skip(j + 1)))),
        },
    }
}

/// Extracts the key/value pair of one parameter segment.
fn segment_kv(seg: &str) -> (r: Option<(String, String)>)
    ensures
        match r {
            Some(kv) => seg_kv(seg@) == Some((kv.0@, kv.1@)),
            None => seg_kv(seg@) is None,
        },
{
    let n = seg.unicode_len();
    match find1(seg, '=', 0) {
        None => None,
        Some(e) => {
            proof {
                lemma_find1_spec(seg@, '=', 0);
            }
            let k = substr_copy(seg, 0, e);
            let rest = substr_copy(seg, e + 1, n);
            proof {
                assert(rest@ =~= seg@.skip(e + 1));
                assert(k@ =~= seg@.take(e as int));
            }
            let v = match find1(rest.as_str(), '=', 0) {
                None => rest,
                Some(e2) => {
                    proof {
                        lemma_find1_spec(rest@, '=', 0);
                    }
                    let taken = substr_copy(rest.as_str(), 0, e2);
                    proof {
                        assert(taken@ =~= seg@.skip(e + 1).take(e2 as int));
                    }
                    taken
                },
            };
            Some((k, v))
        },
    }
}

/// Parses a start-tag body into its name and parameters.
#[verifier::loop_isolation(false)]
pub fn parse_tag_body(body: &str) -> (st: StartTag)
    ensures
        st@ == parse_start_body(body@),
{
    let n = body.unicode_len();
    match find1(body, '|', 0) {
        None => {
            let st = StartTag { tag_key: body.to_owned(), params: TagParams::new() };
            proof {
                assert(st@.params =~= parse_start_body(body@).params);
            }
            st
        },
        Some(j) => {
            proof {
                lemma_find1_spec(body@, '|', 0);
            }
            let name = substr_copy(body, 0, j);
            let mut params = TagParams::new();
            let ghost all_entries = params_entries(split_segments(body@.skip(j + 1)));
            let mut p: usize = j + 1;
            let mut done = false;
            while !done
                invariant
                    j + 1 <= p <= n,
                    n == body@.len(),
                    !done ==> all_entries == params.entry_seq() + params_entries(
                        split_segments(body@.skip(p as int)),
                    ),
                    done ==> all_entries == params.entry_seq(),
                decreases n - p + (if done {
                    0int
                } else {
                    1int
                }),
            {
                let ghost tail = body@.skip(p as int);
                let (seg_end, has_more) = match find1(body, '|', p) {
                    Some(q) => (q, true),
                    None => (n, false),
                };
                proof {
                    lemma_find1_spec(body@, '|', p as int);
                }
                let seg = substr_copy(body, p, seg_end);
                proof {
                    lemma_find1_shift(body@, '|', p as int, p as int);
                    if has_more {
                        assert(find1_from(tail, '|', 0) == Some(seg_end - p));
                        assert(tail.take(seg_end - p) =~= seg@);
                        assert(tail.skip(seg_end - p + 1) =~= body@.skip(seg_end + 1));
                        assert(split_segments(tail) == seq![seg@] + split_segments(
                            body@.skip(seg_end + 1),
                        ));
                    } else {
                        assert(find1_from(tail, '|', 0) is None);
                        assert(tail =~= seg@);
                        assert(split_segments(tail) == seq![seg@]);
                    }
                }
                match segment_kv(seg.as_str()) {
                    None => {
                        proof {
                            let segs = split_segments(tail);
                            assert(segs[0] == seg@);
                            assert(params_entries(segs) =~= Seq::<(Seq<char>, Seq<char>)>::empty());
                            assert(params.entry_seq() + params_entries(segs) =~= params.entry_seq());
                        }
                        done = true;
                    },
                    Some((k, v)) => {
                        let ghost kv = (k@, v@);
                        let ghost segs = split_segments(tail);
                        params.insert(k, v);
                        proof {
                            assert(segs[0] == seg@);
                            assert(seg_kv(seg@) == Some(kv));
                            if has_more {
                                assert(segs.drop_first() =~= split_segments(
                                    body@.skip(seg_end + 1),
                                ));
                            } else {
                                assert(segs.drop_first() =~= Seq::<Seq<char>>::empty());
                                assert(params_entries(segs.drop_first()) =~= Seq::<
                                    (Seq<char>, Seq<char>),
                                >::empty());
                            }
                            assert(params_entries(segs) =~= seq![kv] + params_entries(
                                segs.drop_first(),
                            ));
                        }
                        if has_more {
                            p = seg_end + 1;
                            proof {
                                assert(all_entries =~= params.entry_seq() + params_entries(
                                    split_segments(body@.skip(p as int)),
                                ));
                            }
                        } else {
                            done = true;
                            proof {
                                assert(all_entries =~= params.entry_seq());
                            }
                        }
                    },
                }
            }
            let st = StartTag { tag_key: name, params };
            proof {
                assert(st@.name =~= parse_start_body(body@).name);
            }
            st
        },
    }
}

// ---------------------------------------------------------------------------
// Tokenizer
// ---------------------------------------------------------------------------

/// The outcome of scanning: the ordered items, or, for a tag marker that is
/// never terminated, the remainder of the input from that marker on.
pub enum ScanResult {
    Items(Seq<OneItemV>),
    Fail(Seq<char>),
}

/// Scans the input into start tags, end tags and literal runs, in priority
/// order: an end-tag marker `${/`, a start-tag marker `${`, then a literal
/// run up to the next marker. A marker commits: without a closing `}` the
/// whole scan fails.
pub open spec fn scan(s: Seq<char>) -> ScanResult
    decreases s.len(),
    via scan_dec
{
    if s.len() == 0 {
        ScanResult::Items(Seq::empty())
    } else if s.len() >= 3 && s[0] == '$' && s[1] == '{' && s[2] == '/' {
        match find1_from(s, '}', 3) {
            None => ScanResult::Fail(s),
            Some(j) => match scan(s.skip(j + 1)) {
                ScanResult::Items(rest) => ScanResult::Items(
                    seq![OneItemV { start: None, end: Some(s.subrange(3, j)), text: None }] + rest,
                ),
                ScanResult::Fail(f) => ScanResult::Fail(f),
            },
        }
    } else if s.len() >= 2 && s[0] == '$' && s[1] == '{' {
        match find1_from(s, '}', 2) {
            None => ScanResult::Fail(s),
            Some(j) => match scan(s.skip(j + 1)) {
                ScanResult::Items(rest) => ScanResult::Items(
                    seq![
                        OneItemV {
                            start: Some(parse_start_body(s.subrange(2, j))),
                            end: None,
                            text: None,
                        },
                    ] + rest,
                ),
                ScanResult::Fail(f) => ScanResult::Fail(f),
            },
        }
    } else {
        match find2_from(s, '$', '{', 1) {
            None => ScanResult::Items(
                seq![OneItemV { start: None, end: None, text: Some(s) }],
            ),
            Some(j) => match scan(s.skip(j)) {
                ScanResult::Items(rest) => ScanResult::Items(
                    seq![OneItemV { start: None, end: None, text: Some(s.take(j)) }] + rest,
                ),
                ScanResult::Fail(f) => ScanResult::Fail(f),
            },
        }
    }
}

#[via_fn]
proof fn scan_dec(s: Seq<char>) {
    lemma_find1_spec(s, '}', 3);
    lemma_find1_spec(s, '}', 2);
    lemma_find2_spec(s, '$', '{', 1);
}

/// Tokenization of a whole input: an input without a tag marker is one
/// literal run; otherwise it is scanned.
pub open spec fn tokenize(s: Seq<char>) -> ScanResult {
    if find2_from(s, '$', '{', 0) is Some {
        scan(s)
    } else {
        ScanResult::Items(seq![OneItemV { start: None, end: None, text: Some(s) }])
    }
}

/// Scans the input into raw items, or fails on the first unterminated tag
/// marker with the remainder of the input from that marker on.
#[verifier::loop_isolation(false)]
pub fn tokenize_text(data: &str) -> (r: Result<Vec<OneItem>, SsmlError>)
    ensures
        match r {
            Ok(v) => tokenize(data@) == ScanResult::Items(items_view(v@)),
            Err(e) => {
                &&& tokenize(data@) matches ScanResult::Fail(f)
                &&& e matches SsmlError::MalformedTag { remainder } && remainder@ == f
            },
        },
{
    let n = data.unicode_len();
    match find2(data, '$', '{', 0) {
        None => {
            let mut items: Vec<OneItem> = Vec::new();
            items.push(OneItem { start_tag: None, end_tag: None, data: Some(data.to_owned()) });
            proof {
                assert(items_view(items@) =~= seq![
                    OneItemV { start: None, end: None, text: Some(data@) },
                ]);
            }
            Ok(items)
        },
        Some(_) => {
            let mut items: Vec<OneItem> = Vec::new();
            let mut p: usize = 0;
            proof {
                assert(data@.skip(0) =~= data@);
                assert(items_view(items@) =~= Seq::<OneItemV>::empty());
                match scan(data@) {
                    ScanResult::Items(rest) => {
                        assert(items_view(items@) + rest =~= rest);
                    },
                    ScanResult::Fail(_) => {},
                }
            }
            while p < n
                invariant
                    p <= n,
                    match scan(data@.skip(p as int)) {
                        ScanResult::Items(rest) => scan(data@) == ScanResult::Items(
                            items_view(items@) + rest,
                        ),
                        ScanResult::Fail(f) => scan(data@) == ScanResult::Fail(f),
                    },
                decreases n - p,
            {
                let ghost pre_view = items_view(items@);
                match scan_step(data, p, n) {
                    Ok((item, q)) => {
                        let ghost itemv = item@;
                        proof {
                            lemma_step_items(data@, p as int, q as int, itemv, pre_view);
                        }
                        items.push(item);
                        proof {
                            assert(items_view(items@) =~= pre_view.push(itemv));
                        }
                        p = q;
                    },
                    Err(e) => {
                        return Err(e);
                    },
                }
            }
            proof {
                assert(data@.skip(n as int) =~= Seq::<char>::empty());
                assert(scan(data@.skip(n as int)) == ScanResult::Items(Seq::<OneItemV>::empty()));
                assert(items_view(items@) + Seq::<OneItemV>::empty() =~= items_view(items@));
            }
            Ok(items)
        },
    }
}

/// Scans one item beginning at position `p`, handing back the item and the
/// position just after it, or the fatal unterminated-marker error.
fn scan_step(data: &str, p: usize, n: usize) -> (r: Result<(OneItem, usize), SsmlError>)
    requires
        p < n,
        n == data@.len(),
    ensures
        match r {
            Ok(iq) => {
                &&& p < iq.1 <= n
                &&& scan(data@.skip(p as int)) == (match scan(data@.skip(iq.1 as int)) {
                    ScanResult::Items(rest) => ScanResult::Items(seq![iq.0@] + rest),
                    ScanResult::Fail(f) => ScanResult::Fail(f),
                })
            },
            Err(e) => {
                &&& scan(data@.skip(p as int)) == ScanResult::Fail(data@.skip(p as int))
                &&& e matches SsmlError::MalformedTag { remainder } && remainder@ == data@.skip(
                    p as int,
                )
            },
        },
{
    let ghost tail = data@.skip(p as int);
    proof {
        assert(tail.len() == n - p);
        assert forall|k: int| 0 <= k < tail.len() implies tail[k] == data@[p + k] by {}
    }
    let c0 = data.get_char(p);
    let is_marker = c0 == '$' && p + 1 < n && data.get_char(p + 1) == '{';
    if is_marker {
        let is_end = p + 2 < n && data.get_char(p + 2) == '/';
        if is_end {
            proof {
                lemma_find1_shift(data@, '}', p as int, p + 3);
                lemma_find1_spec(data@, '}', p + 3);
            }
            match find1(data, '}', p + 3) {
                None => {
                    let rem = substr_copy(data, p, n);
                    proof {
                        assert(rem@ =~= tail);
                        assert(scan(tail) == ScanResult::Fail(tail));
                    }
                    Err(SsmlError::MalformedTag { remainder: rem })
                },
                Some(j) => {
                    let name = substr_copy(data, p + 3, j);
                    let item = OneItem {
                        start_tag: None,
                        end_tag: Some(EndTag { tag_key: name }),
                        data: None,
                    };
                    proof {
                        assert(item@.end matches Some(nm) && nm =~= tail.subrange(3, j - p));
                        assert(tail.skip(j - p + 1) =~= data@.skip(j + 1));
                    }
                    Ok((item, j + 1))
                },
            }
        } else {
            proof {
                lemma_find1_shift(data@, '}', p as int, p + 2);
                lemma_find1_spec(data@, '}', p + 2);
            }
            match find1(data, '}', p + 2) {
                None => {
                    let rem = substr_copy(data, p, n);
                    proof {
                        assert(rem@ =~= tail);
                        assert(scan(tail) == ScanResult::Fail(tail));
                    }
                    Err(SsmlError::MalformedTag { remainder: rem })
                },
                Some(j) => {
                    let body = substr_copy(data, p + 2, j);
                    let st = parse_tag_body(body.as_str());
                    let item = OneItem { start_tag: Some(st), end_tag: None, data: None };
                    proof {
                        assert(body@ =~= tail.subrange(2, j - p));
                        assert(tail.skip(j - p + 1) =~= data@.skip(j + 1));
                    }
                    Ok((item, j + 1))
                },
            }
        }
    } else {
        proof {
            lemma_find2_shift(data@, '$', '{', p as int, p + 1);
            lemma_find2_spec(data@, '$', '{', p + 1);
        }
        match find2(data, '$', '{', p + 1) {
            None => {
                let txt = substr_copy(data, p, n);
                let item = OneItem { start_tag: None, end_tag: None, data: Some(txt) };
                proof {
                    assert(item@.text matches Some(t) && t =~= tail);
                    assert(scan(tail) == ScanResult::Items(seq![item@]));
                    assert(data@.skip(n as int) =~= Seq::<char>::empty());
                    assert(scan(data@.skip(n as int)) == ScanResult::Items(
                        Seq::<OneItemV>::empty(),
                    ));
                    assert(seq![item@] + Seq::<OneItemV>::empty() =~= seq![item@]);
                }
                Ok((item, n))
            },
            Some(j) => {
                let txt = substr_copy(data, p, j);
                let item = OneItem { start_tag: None, end_tag: None, data: Some(txt) };
                proof {
                    assert(item@.text matches Some(t) && t =~= tail.take(j - p));
                    assert(tail.skip(j - p) =~= data@.skip(j as int));
                }
                Ok((item, j))
            },
        }
    }
}

// ---------------------------------------------------------------------------
// Interpretation
// ---------------------------------------------------------------------------

/// Parameter lookup as a partial function.
pub open spec fn lookup(params: Map<Seq<char>, Seq<char>>, k: Seq<char>) -> Option<Seq<char>> {
    if params.contains_key(k) {
        Some(params[k])
    } else {
        None
    }
}

/// Reverses the tokenizer's escape convention in literal text: each
/// occurrence of a dollar sign, a backslash and an opening brace becomes
/// the bare two-character opener.
pub open spec fn unescape_text(s: Seq<char>) -> Seq<char>
    decreases s.len(),
{
    if s.len() == 0 {
        Seq::empty()
    } else if s.len() >= 3 && s[0] == '$' && s[1] == '\\' && s[2] == '{' {
        seq!['$', '{'] + unescape_text(s.skip(3))
    } else {
        seq![s[0]] + unescape_text(s.skip(1))
    }
}

/// What a recognized pause tag emits: both attributes are optional and an
/// attribute that fails validation is simply omitted.
pub open spec fn emit_break_tag(params: Map<Seq<char>, Seq<char>>) -> Seq<char> {
    let strength = match lookup(params, "strength"@) {
        Some(v) => break_strength_of(lower_of(v)),
        None => None,
    };
    let time = match lookup(params, "time"@) {
        Some(v) => break_time_of(v),
        None => None,
    };
    break_text(strength, time)
}

/// What a recognized language-switch tag emits: nothing without its
/// required language attribute.
pub open spec fn emit_lang_tag(params: Map<Seq<char>, Seq<char>>) -> Seq<char> {
    match lookup(params, "lang"@) {
        None => Seq::empty(),
        Some(l) => lang_open_text(
            l,
            match lookup(params, "onlangfailure"@) {
                Some(f) => f,
                None => "processorchoice"@,
            },
        ),
    }
}

/// What a recognized marker tag emits: nothing without its required name.
pub open spec fn emit_mark_tag(params: Map<Seq<char>, Seq<char>>) -> Seq<char> {
    match lookup(params, "name"@) {
        None => Seq::empty(),
        Some(nm) => mark_open_text(nm),
    }
}

/// What a recognized phoneme tag emits: nothing unless both required
/// attributes are present and the alphabet is recognized.
pub open spec fn emit_phoneme_tag(params: Map<Seq<char>, Seq<char>>) -> Seq<char> {
    match (lookup(params, "alphabet"@), lookup(params, "ph"@)) {
        (Some(av), Some(ph)) => match phoneme_alphabet_of(lower_of(av)) {
            Some(a) => phoneme_open_text(a, ph),
            None => Seq::empty(),
        },
        _ => Seq::empty(),
    }
}

/// What a recognized prosody tag emits: whichever of its attributes are
/// present and valid; with none of the three, nothing.
pub open spec fn emit_prosody_tag(params: Map<Seq<char>, Seq<char>>) -> Seq<char> {
    let volume = lookup(params, "volume"@);
    let rate = match lookup(params, "rate"@) {
        Some(v) => prosody_rate_of(lower_of(v)),
        None => None,
    };
    let pitch = lookup(params, "pitch"@);
    if volume is None && rate is None && pitch is None {
        Seq::empty()
    } else {
        prosody_open_text(volume, rate, pitch)
    }
}

/// What a recognized interpret-as tag emits: nothing without its required
/// attribute.
pub open spec fn emit_say_as_tag(params: Map<Seq<char>, Seq<char>>) -> Seq<char> {
    match lookup(params, "interpret-as"@) {
        None => Seq::empty(),
        Some(ia) => say_as_open_text(ia),
    }
}

/// What a recognized substitution tag emits: nothing without its required
/// alias.
pub open spec fn emit_sub_tag(params: Map<Seq<char>, Seq<char>>) -> Seq<char> {
    match lookup(params, "alias"@) {
        None => Seq::empty(),
        Some(al) => sub_open_text(al),
    }
}

/// What a recognized word tag emits: nothing unless its required role is
/// present and recognized.
pub open spec fn emit_w_tag(params: Map<Seq<char>, Seq<char>>) -> Seq<char> {
    match lookup(params, "role"@) {
        None => Seq::empty(),
        Some(v) => match word_role_of(lower_of(v)) {
            Some(r) => w_open_text(r),
            None => Seq::empty(),
        },
    }
}

/// What a recognized vendor effect tag emits. The tag has three mutually
/// exclusive modes checked in fixed priority order: the named effect, the
/// length factor, then the phonation setting; only the first present mode
/// counts, and a present mode whose value fails validation emits nothing.
pub open spec fn emit_effect_tag(params: Map<Seq<char>, Seq<char>>) -> Seq<char> {
    match lookup(params, "name"@) {
        Some(v) => match amazon_effect_of(lower_of(v)) {
            Some(e) => amazon_effect_open_text(e),
            None => Seq::empty(),
        },
        None => match lookup(params, "vocal-tract-length"@) {
            Some(f) => vocal_tract_open_text(f),
            None => match lookup(params, "phonation"@) {
                Some(v) => match phonation_of(lower_of(v)) {
                    Some(p) => phonation_open_text(p),
                    None => Seq::empty(),
                },
                None => Seq::empty(),
            },
        },
    }
}

/// What a recognized automatic-breaths tag emits: each absent attribute
/// takes its default, and a present attribute that fails validation drops
/// the whole tag.
pub open spec fn emit_auto_breaths_tag(params: Map<Seq<char>, Seq<char>>) -> Seq<char> {
    let vol = match lookup(params, "volume"@) {
        Some(v) => breath_volume_of(lower_of(v)),
        None => Some(BreathVolumes::Def),
    };
    let freq = match lookup(params, "frequency"@) {
        Some(v) => breath_frequency_of(lower_of(v)),
        None => Some(AutoBreathFrequency::Def),
    };
    let dur = match lookup(params, "duration"@) {
        Some(v) => breath_duration_of(lower_of(v)),
        None => Some(BreathDuration::Def),
    };
    match (vol, freq, dur) {
        (Some(v), Some(f), Some(d)) => auto_breaths_open_text(v, f, d),
        _ => Seq::empty(),
    }
}

/// What a recognized single-breath tag emits, with the same defaulting as
/// the automatic-breaths tag.
pub open spec fn emit_breath_tag(params: Map<Seq<char>, Seq<char>>) -> Seq<char> {
    let vol = match lookup(params, "volume"@) {
        Some(v) => breath_volume_of(lower_of(v)),
        None => Some(BreathVolumes::Def),
    };
    let dur = match lookup(params, "duration"@) {
        Some(v) => breath_duration_of(lower_of(v)),
        None => Some(BreathDuration::Def),
    };
    match (vol, dur) {
        (Some(v), Some(d)) => amazon_breath_text(v, d),
        _ => Seq::empty(),
    }
}

/// What a recognized vendor domain tag emits: nothing unless its required
/// name is present and recognized.
pub open spec fn emit_domain_tag(params: Map<Seq<char>, Seq<char>>) -> Seq<char> {
    match lookup(params, "name"@) {
        None => Seq::empty(),
        Some(v) => match amazon_domain_of(lower_of(v)) {
            Some(d) => amazon_domain_open_text(d),
            None => Seq::empty(),
        },
    }
}

/// What a start tag emits: nothing when its name is not in the vocabulary,
/// else what its kind prescribes.
pub open spec fn emit_start(st: StartTagV) -> Seq<char> {
    match open_tag_of(lower_of(st.name)) {
        None => Seq::empty(),
        Some(kind) => match kind {
            PossibleOpenTags::Break => emit_break_tag(st.params),
            PossibleOpenTags::LangTag => emit_lang_tag(st.params),
            PossibleOpenTags::Mark => emit_mark_tag(st.params),
            PossibleOpenTags::Paragraph => open_elem_text("p"@),
            PossibleOpenTags::Phoneme => emit_phoneme_tag(st.params),
            PossibleOpenTags::Prosody => emit_prosody_tag(st.params),
            PossibleOpenTags::Sentence => open_elem_text("s"@),
            PossibleOpenTags::SayAs => emit_say_as_tag(st.params),
            PossibleOpenTags::Sub => emit_sub_tag(st.params),
            PossibleOpenTags::Word => emit_w_tag(st.params),
            PossibleOpenTags::AmazonEffect => emit_effect_tag(st.params),
            PossibleOpenTags::AmazonAutoBreaths => emit_auto_breaths_tag(st.params),
            PossibleOpenTags::AmazonBreath => emit_breath_tag(st.params),
            PossibleOpenTags::AmazonDomain => emit_domain_tag(st.params),
        },
    }
}

/// What an end tag emits: nothing when its name carries no closing
/// semantics, else the matching closing tag. No check is made that the
/// element was ever opened.
pub open spec fn emit_end(name: Seq<char>) -> Seq<char> {
    match close_tag_of(lower_of(name)) {
        None => Seq::empty(),
        Some(k) => close_elem_text(close_tag_name(k)),
    }
}

/// What one item emits: its present parts in the order start tag, end tag,
/// literal text; literal text is unescaped and then markup-escaped.
pub open spec fn emit_item(it: OneItemV) -> Seq<char> {
    (match it.start {
        Some(st) => emit_start(st),
        None => Seq::empty(),
    }) + (match it.end {
        Some(nm) => emit_end(nm),
        None => Seq::empty(),
    }) + (match it.text {
        Some(t) => escape_text(unescape_text(t)),
        None => Seq::empty(),
    })
}

/// What a run of items emits, in document order.
pub open spec fn emit_items(items: Seq<OneItemV>) -> Seq<char>
    decreases items.len(),
{
    if items.len() == 0 {
        Seq::empty()
    } else {
        emit_items(items.drop_last()) + emit_item(items.last())
    }
}

/// The full document: declaration, root opening with its defaults, the
/// items' emission, root closing.
pub open spec fn document_text(items: Seq<OneItemV>) -> Seq<char> {
    decl_text("1.0"@) + speak_open_text("en-US"@, "processorchoice"@) + emit_items(items)
        + close_elem_text("speak"@)
}

/// The whole conversion: the rendered document, or nothing when
/// tokenization fails.
pub open spec fn ssml_of(s: Seq<char>) -> Option<Seq<char>> {
    match tokenize(s) {
        ScanResult::Items(items) => Some(document_text(items)),
        ScanResult::Fail(_) => None,
    }
}

/// The input remainder reported when tokenization fails.
pub open spec fn fail_remainder(s: Seq<char>) -> Seq<char> {
    match tokenize(s) {
        ScanResult::Fail(f) => f,
        ScanResult::Items(_) => Seq::empty(),
    }
}

/// Reverses the tokenizer's escape convention in a literal run.
#[verifier::loop_isolation(false)]
fn unescape(s: &str) -> (r: String)
    ensures
        r@ == unescape_text(s@),
{
    let n = s.unicode_len();
    let mut out = String::new();
    let mut i: usize = 0;
    proof {
        assert(s@.skip(0) =~= s@);
        assert(out@ + unescape_text(s@) =~= unescape_text(s@));
    }
    while i < n
        invariant
            i <= n,
            unescape_text(s@) == out@ + unescape_text(s@.skip(i as int)),
        decreases n - i,
    {
        let ghost tail = s@.skip(i as int);
        let ghost out0 = out@;
        proof {
            assert forall|k: int| 0 <= k < tail.len() implies tail[k] == s@[i + k] by {}
        }
        if i + 1 < n && i + 2 < n && s.get_char(i) == '$' && s.get_char(i + 1) == '\\'
            && s.get_char(i + 2) == '{' {
            out.append("${");
            proof {
                reveal_strlit("${");
                assert(tail.skip(3) =~= s@.skip(i + 3));
                assert(out@ =~= out0 + seq!['$', '{']);
                assert(out0 + (seq!['$', '{'] + unescape_text(s@.skip(i + 3))) =~= out@
                    + unescape_text(s@.skip(i + 3)));
            }
            i = i + 3;
        } else {
            let ch = s.substring_char(i, i + 1);
            out.append(ch);
            proof {
                assert(ch@ =~= seq![tail[0]]);
                assert(tail.skip(1) =~= s@.skip(i + 1));
                assert(unescape_text(tail) == seq![tail[0]] + unescape_text(s@.skip(i + 1)));
                assert(out0 + (seq![tail[0]] + unescape_text(s@.skip(i + 1))) =~= out@
                    + unescape_text(s@.skip(i + 1)));
            }
            i = i + 1;
        }
    }
    proof {
        assert(s@.skip(n as int) =~= Seq::<char>::empty());
        assert(out@ + unescape_text(Seq::<char>::empty()) =~= out@);
    }
    out
}

fn process_break(w: &mut XmlWriter, st: &StartTag)
    ensures
        final(w)@ == old(w)@ + emit_break_tag(st@.params),
{
    let strength = match st.params.get("strength") {
        Some(v) => BreakStrength::from_text(v.as_str()),
        None => None,
    };
    let time = match st.params.get("time") {
        Some(v) => BreakTime::from_text(v.as_str()),
        None => None,
    };
    let _ = w.ssml_break(strength, time);
}

fn process_lang(w: &mut XmlWriter, st: &StartTag)
    ensures
        final(w)@ == old(w)@ + emit_lang_tag(st@.params),
{
    match st.params.get("lang") {
        None => {},
        Some(l) => {
            let olf = st.params.get("onlangfailure");
            let _ = w.start_ssml_lang(l, olf);
        },
    }
}

fn process_mark(w: &mut XmlWriter, st: &StartTag)
    ensures
        final(w)@ == old(w)@ + emit_mark_tag(st@.params),
{
    match st.params.get("name") {
        None => {},
        Some(nm) => {
            let _ = w.start_ssml_mark(nm);
        },
    }
}

fn process_phoneme(w: &mut XmlWriter, st: &StartTag)
    ensures
        final(w)@ == old(w)@ + emit_phoneme_tag(st@.params),
{
    match st.params.get("alphabet") {
        None => {},
        Some(av) => match st.params.get("ph") {
            None => {},
            Some(ph) => match PhonemeAlphabet::from_text(av.as_str()) {
                None => {},
                Some(a) => {
                    let _ = w.start_ssml_phoneme(a, ph);
                },
            },
        },
    }
}

fn process_prosody(w: &mut XmlWriter, st: &StartTag)
    ensures
        final(w)@ == old(w)@ + emit_prosody_tag(st@.params),
{
    let volume = st.params.get("volume");
    let rate = match st.params.get("rate") {
        Some(v) => ProsodyRate::from_text(v.as_str()),
        None => None,
    };
    let pitch = st.params.get("pitch");
    let _ = w.start_ssml_prosody(volume, rate, pitch);
}

fn process_say_as(w: &mut XmlWriter, st: &StartTag)
    ensures
        final(w)@ == old(w)@ + emit_say_as_tag(st@.params),
{
    match st.params.get("interpret-as") {
        None => {},
        Some(ia) => {
            let _ = w.start_ssml_say_as(ia);
        },
    }
}

fn process_sub(w: &mut XmlWriter, st: &StartTag)
    ensures
        final(w)@ == old(w)@ + emit_sub_tag(st@.params),
{
    match st.params.get("alias") {
        None => {},
        Some(al) => {
            let _ = w.start_ssml_sub(al);
        },
    }
}

fn process_w_tag(w: &mut XmlWriter, st: &StartTag)
    ensures
        final(w)@ == old(w)@ + emit_w_tag(st@.params),
{
    match st.params.get("role") {
        None => {},
        Some(v) => match WordRole::from_text(v.as_str()) {
            None => {},
            Some(r) => {
                let _ = w.start_ssml_w(r);
            },
        },
    }
}

fn process_effect(w: &mut XmlWriter, st: &StartTag)
    ensures
        final(w)@ == old(w)@ + emit_effect_tag(st@.params),
{
    match st.params.get("name") {
        Some(v) => match AmazonEffect::from_text(v.as_str()) {
            Some(e) => {
                let _ = w.start_ssml_amazon_effect(e);
            },
            None => {},
        },
        None => match st.params.get("vocal-tract-length") {
            Some(f) => {
                let _ = w.start_ssml_vocal_tract_length(f);
            },
            None => match st.params.get("phonation") {
                Some(v) => match PhonationVolume::from_text(v.as_str()) {
                    Some(p) => {
                        let _ = w.start_ssml_phonation(p);
                    },
                    None => {},
                },
                None => {},
            },
        },
    }
}

fn process_auto_breaths(w: &mut XmlWriter, st: &StartTag)
    ensures
        final(w)@ == old(w)@ + emit_auto_breaths_tag(st@.params),
{
    let vol = match st.params.get("volume") {
        Some(v) => BreathVolumes::from_text(v.as_str()),
        None => Some(BreathVolumes::Def),
    };
    let freq = match st.params.get("frequency") {
        Some(v) => AutoBreathFrequency::from_text(v.as_str()),
        None => Some(AutoBreathFrequency::Def),
    };
    let dur = match st.params.get("duration") {
        Some(v) => BreathDuration::from_text(v.as_str()),
        None => Some(BreathDuration::Def),
    };
    match (vol, freq, dur) {
        (Some(v), Some(f), Some(d)) => {
            let _ = w.start_ssml_auto_breaths(v, f, d);
        },
        _ => {},
    }
}

fn process_breath(w: &mut XmlWriter, st: &StartTag)
    ensures
        final(w)@ == old(w)@ + emit_breath_tag(st@.params),
{
    let vol = match st.params.get("volume") {
        Some(v) => BreathVolumes::from_text(v.as_str()),
        None => Some(BreathVolumes::Def),
    };
    let dur = match st.params.get("duration") {
        Some(v) => BreathDuration::from_text(v.as_str()),
        None => Some(BreathDuration::Def),
    };
    match (vol, dur) {
        (Some(v), Some(d)) => {
            let _ = w.write_amazon_breath(v, d);
        },
        _ => {},
    }
}

fn process_domain(w: &mut XmlWriter, st: &StartTag)
    ensures
        final(w)@ == old(w)@ + emit_domain_tag(st@.params),
{
    match st.params.get("name") {
        None => {},
        Some(v) => match AmazonDomainNames::from_text(v.as_str()) {
            None => {},
            Some(d) => {
                let _ = w.start_ssml_amazon_domain(d);
            },
        },
    }
}

fn process_start(w: &mut XmlWriter, st: &StartTag)
    ensures
        final(w)@ == old(w)@ + emit_start(st@),
{
    match PossibleOpenTags::from_text(st.tag_key.as_str()) {
        None => {},
        Some(kind) => match kind {
            PossibleOpenTags::Break => process_break(w, st),
            PossibleOpenTags::LangTag => process_lang(w, st),
            PossibleOpenTags::Mark => process_mark(w, st),
            PossibleOpenTags::Paragraph => {
                let _ = w.start_ssml_paragraph();
            },
            PossibleOpenTags::Phoneme => process_phoneme(w, st),
            PossibleOpenTags::Prosody => process_prosody(w, st),
            PossibleOpenTags::Sentence => {
                let _ = w.start_ssml_sentence();
            },
            PossibleOpenTags::SayAs => process_say_as(w, st),
            PossibleOpenTags::Sub => process_sub(w, st),
            PossibleOpenTags::Word => process_w_tag(w, st),
            PossibleOpenTags::AmazonEffect => process_effect(w, st),
            PossibleOpenTags::AmazonAutoBreaths => process_auto_breaths(w, st),
            PossibleOpenTags::AmazonBreath => process_breath(w, st),
            PossibleOpenTags::AmazonDomain => process_domain(w, st),
        },
    }
}

fn process_end(w: &mut XmlWriter, et: &EndTag)
    ensures
        final(w)@ == old(w)@ + emit_end(et@),
{
    match PossibleClosingTags::from_text(et.tag_key.as_str()) {
        None => {},
        Some(kind) => {
            let _ = match kind {
                PossibleClosingTags::LangTag => w.end_ssml_lang(),
                PossibleClosingTags::Mark => w.end_ssml_mark(),
                PossibleClosingTags::Paragraph => w.end_ssml_paragraph(),
                PossibleClosingTags::Phoneme => w.end_ssml_phoneme(),
                PossibleClosingTags::Prosody => w.end_ssml_prosody(),
                PossibleClosingTags::Sentence => w.end_ssml_sentence(),
                PossibleClosingTags::SayAs => w.end_ssml_say_as(),
                PossibleClosingTags::Sub => w.end_ssml_sub(),
                PossibleClosingTags::Word => w.end_ssml_w(),
                PossibleClosingTags::AmazonEffect => w.end_ssml_amazon_effect(),
                PossibleClosingTags::AmazonAutoBreaths => w.end_ssml_amazon_auto_breaths(),
                PossibleClosingTags::AmazonDomain => w.end_ssml_amazon_domain(),
            };
        },
    }
}

/// Interprets one item: each present part in order, every emission
/// best-effort.
fn process_item(w: &mut XmlWriter, item: &OneItem)
    ensures
        final(w)@ == old(w)@ + emit_item(item@),
{
    let ghost d0 = w@;
    match &item.start_tag {
        Some(st) => process_start(w, st),
        None => {},
    }
    match &item.end_tag {
        Some(et) => process_end(w, et),
        None => {},
    }
    match &item.data {
        Some(t) => {
            let u = unescape(t.as_str());
            let _ = w.write_text(u.as_str());
        },
        None => {},
    }
    proof {
        assert(w@ =~= d0 + emit_item(item@));
    }
}

/// Parses text in the lightweight tag notation into SSML.
///
/// The conversion is permissive on purpose: unknown tags, unknown or
/// invalid attributes and missing required attributes are dropped silently,
/// nesting is never checked, and unclosed or unmatched tags are rendered
/// exactly as given. The one fatal condition is a tag marker without a
/// terminating brace, which fails the whole conversion.
#[verifier::loop_isolation(false)]
pub fn parse_as_ssml(data: &str) -> (r: Result<String, SsmlError>)
    ensures
        r is Ok <==> ssml_of(data@) is Some,
        r matches Ok(out) ==> ssml_of(data@) == Some(out@),
        r matches Err(e) ==> e matches SsmlError::MalformedTag { remainder } && remainder@
            == fail_remainder(data@),
{
    let items = match tokenize_text(data) {
        Ok(v) => v,
        Err(e) => {
            return Err(e);
        },
    };
    let ghost itemsv = items_view(items@);
    let mut w = match XmlWriter::new() {
        Ok(w) => w,
        Err(e) => {
            return Err(e);
        },
    };
    let _ = w.start_ssml_speak(None, None);
    let ghost header = decl_text("1.0"@) + speak_open_text("en-US"@, "processorchoice"@);
    let n = items.len();
    let mut i: usize = 0;
    proof {
        assert(itemsv.take(0) =~= Seq::<OneItemV>::empty());
        assert(w@ =~= header + emit_items(itemsv.take(0)));
    }
    while i < n
        invariant
            i <= n,
            n == items.len(),
            itemsv == items_view(items@),
            w@ == header + emit_items(itemsv.take(i as int)),
        decreases n - i,
    {
        let ghost before = w@;
        process_item(&mut w, &items[i]);
        proof {
            assert(itemsv[i as int] == items@[i as int]@);
            assert(itemsv.take(i + 1).drop_last() =~= itemsv.take(i as int));
            assert(itemsv.take(i + 1).last() == itemsv[i as int]);
            assert(w@ =~= header + emit_items(itemsv.take(i + 1)));
        }
        i = i + 1;
    }
    let _ = w.end_ssml_speak();
    let out = w.render();
    proof {
        assert(itemsv.take(n as int) =~= itemsv);
        assert(out@ =~= document_text(itemsv));
    }
    Ok(out)
}

// ---------------------------------------------------------------------------
// Laws
// ---------------------------------------------------------------------------

/// The escape convention's three-character sequence occurs at position `k`.
pub open spec fn escape_at(s: Seq<char>, k: int) -> bool {
    0 <= k && k + 3 <= s.len() && s[k] == '$' && s[k + 1] == '\\' && s[k + 2] == '{'
}

/// Unescaping leaves a string without the escape sequence unchanged.
pub proof fn lemma_unescape_id(s: Seq<char>)
    requires
        forall|k: int| !escape_at(s, k),
    ensures
        unescape_text(s) == s,
    decreases s.len(),
{
    if s.len() > 0 {
        assert(!escape_at(s, 0));
        assert forall|k: int| !escape_at(s.skip(1), k) by {
            if escape_at(s.skip(1), k) {
                assert(s.skip(1)[k] == s[k + 1]);
                assert(s.skip(1)[k + 1] == s[k + 2]);
                assert(s.skip(1)[k + 2] == s[k + 3]);
                assert(escape_at(s, k + 1));
            }
        }
        lemma_unescape_id(s.skip(1));
        assert(seq![s[0]] + s.skip(1) =~= s);
    }
}

/// No-tag passthrough: an input with no opener marker (and no occurrence
/// of the escape sequence, which would be rewritten to a bare opener) is
/// converted to the root-wrapped, text-escaped form of itself, unchanged
/// in content and order.
pub proof fn lemma_no_tag_passthrough(s: Seq<char>)
    requires
        find2_from(s, '$', '{', 0) is None,
        forall|k: int| !escape_at(s, k),
    ensures
        ssml_of(s) == Some(
            decl_text("1.0"@) + speak_open_text("en-US"@, "processorchoice"@) + escape_text(s)
                + close_elem_text("speak"@),
        ),
{
    let item = OneItemV { start: None, end: None, text: Some(s) };
    assert(tokenize(s) == ScanResult::Items(seq![item]));
    lemma_unescape_id(s);
    let items = seq![item];
    assert(items.drop_last() =~= Seq::<OneItemV>::empty());
    assert(items.last() == item);
    assert(emit_items(Seq::<OneItemV>::empty()) == Seq::<char>::empty());
    assert(emit_items(items) =~= emit_item(item));
    assert(emit_item(item) =~= escape_text(s));
}

/// Unknown tags are inert: a start tag whose name resolves to no open
/// kind, or an end tag whose name resolves to no closing kind, emits
/// nothing at all.
pub proof fn lemma_unknown_tag_inert(st: StartTagV, end_name: Seq<char>)
    requires
        open_tag_of(lower_of(st.name)) is None,
        close_tag_of(lower_of(end_name)) is None,
    ensures
        emit_start(st) == Seq::<char>::empty(),
        emit_end(end_name) == Seq::<char>::empty(),
{
}

/// Missing required attributes drop the tag: a phoneme tag lacking either
/// of its two required attributes emits no element.
pub proof fn lemma_phoneme_requires_both(params: Map<Seq<char>, Seq<char>>)
    requires
        !params.contains_key("alphabet"@) || !params.contains_key("ph"@),
    ensures
        emit_phoneme_tag(params) == Seq::<char>::empty(),
{
}

/// One scan step: if the suffix at `p` yields `itemv` followed by the
/// suffix at `q`, the whole-input invariant carries from `p` to `q`.
proof fn lemma_step_items(s: Seq<char>, p: int, q: int, itemv: OneItemV, acc: Seq<OneItemV>)
    requires
        0 <= p < q <= s.len(),
        scan(s.skip(p)) == match scan(s.skip(q)) {
            ScanResult::Items(rest) => ScanResult::Items(seq![itemv] + rest),
            ScanResult::Fail(f) => ScanResult::Fail(f),
        },
        match scan(s.skip(p)) {
            ScanResult::Items(rest) => scan(s) == ScanResult::Items(acc + rest),
            ScanResult::Fail(f) => scan(s) == ScanResult::Fail(f),
        },
    ensures
        match scan(s.skip(q)) {
            ScanResult::Items(rest) => scan(s) == ScanResult::Items(acc.push(itemv) + rest),
            ScanResult::Fail(f) => scan(s) == ScanResult::Fail(f),
        },
{
    match scan(s.skip(q)) {
        ScanResult::Items(rest) => {
            assert(acc + (seq![itemv] + rest) =~= acc.push(itemv) + rest);
        },
        ScanResult::Fail(_) => {},
    }
}

} // verus!
