//! Small verified string utilities: character search, substring copies,
//! equality, and the one trusted lowercasing primitive the vocabulary
//! lookups rely on.

use vstd::prelude::*;

verus! {

/// True when the two-character pattern `c0 c1` occurs in `s` at position `i`.
pub open spec fn pat2_at(s: Seq<char>, i: int, c0: char, c1: char) -> bool {
    &&& 0 <= i
    &&& i + 2 <= s.len()
    &&& s[i] == c0
    &&& s[i + 1] == c1
}

/// Position of the first occurrence of the pattern `c0 c1` at or after `i`.
pub open spec fn find2_from(s: Seq<char>, c0: char, c1: char, i: int) -> Option<int>
    recommends
        0 <= i,
    decreases s.len() - i,
{
    if i < 0 || i + 2 > s.len() {
        None
    } else if s[i] == c0 && s[i + 1] == c1 {
        Some(i)
    } else {
        find2_from(s, c0, c1, i + 1)
    }
}

/// Position of the first occurrence of the character `c` at or after `i`.
pub open spec fn find1_from(s: Seq<char>, c: char, i: int) -> Option<int>
    recommends
        0 <= i,
    decreases s.len() - i,
{
    if i < 0 || i >= s.len() {
        None
    } else if s[i] == c {
        Some(i)
    } else {
        find1_from(s, c, i + 1)
    }
}

proof fn lemma_find2_found(s: Seq<char>, c0: char, c1: char, from: int, j: int)
    requires
        0 <= from <= j,
        pat2_at(s, j, c0, c1),
        forall|k: int| from <= k < j ==> !pat2_at(s, k, c0, c1),
    ensures
        find2_from(s, c0, c1, from) == Some(j),
    decreases j - from,
{
    if from < j {
        assert(!pat2_at(s, from, c0, c1));
        lemma_find2_found(s, c0, c1, from + 1, j);
    }
}

proof fn lemma_find2_none(s: Seq<char>, c0: char, c1: char, from: int)
    requires
        0 <= from,
        forall|k: int| from <= k ==> !pat2_at(s, k, c0, c1),
    ensures
        find2_from(s, c0, c1, from) is None,
    decreases s.len() - from,
{
    if from + 2 <= s.len() {
        assert(!pat2_at(s, from, c0, c1));
        lemma_find2_none(s, c0, c1, from + 1);
    }
}

proof fn lemma_find1_found(s: Seq<char>, c: char, from: int, j: int)
    requires
        0 <= from <= j,
        j < s.len(),
        s[j] == c,
        forall|k: int| from <= k < j ==> s[k] != c,
    ensures
        find1_from(s, c, from) == Some(j),
    decreases j - from,
{
    if from < j {
        lemma_find1_found(s, c, from + 1, j);
    }
}

proof fn lemma_find1_none(s: Seq<char>, c: char, from: int)
    requires
        0 <= from,
        forall|k: int| from <= k < s.len() ==> s[k] != c,
    ensures
        find1_from(s, c, from) is None,
    decreases s.len() - from,
{
    if from < s.len() {
        lemma_find1_none(s, c, from + 1);
    }
}

/// Facts every caller of the find functions needs: the hit is in range and
/// carries the pattern, and nothing before it does.
pub proof fn lemma_find2_spec(s: Seq<char>, c0: char, c1: char, from: int)
    requires
        0 <= from,
    ensures
        match find2_from(s, c0, c1, from) {
            Some(j) => {
                &&& from <= j
                &&& pat2_at(s, j, c0, c1)
                &&& forall|k: int| from <= k < j ==> !pat2_at(s, k, c0, c1)
            },
            None => forall|k: int| from <= k ==> !pat2_at(s, k, c0, c1),
        },
    decreases s.len() - from,
{
    if from + 2 > s.len() {
        assert forall|k: int| from <= k implies !pat2_at(s, k, c0, c1) by {}
    } else if s[from] == c0 && s[from + 1] == c1 {
    } else {
        lemma_find2_spec(s, c0, c1, from + 1);
    }
}

pub proof fn lemma_find1_spec(s: Seq<char>, c: char, from: int)
    requires
        0 <= from,
    ensures
        match find1_from(s, c, from) {
            Some(j) => {
                &&& from <= j < s.len()
                &&& s[j] == c
                &&& forall|k: int| from <= k < j ==> s[k] != c
            },
            None => forall|k: int| from <= k < s.len() ==> s[k] != c,
        },
    decreases s.len() - from,
{
    if from >= s.len() {
    } else if s[from] == c {
    } else {
        lemma_find1_spec(s, c, from + 1);
    }
}

/// Finds the first occurrence of the two-character pattern `c0 c1` in `s`
/// at or after char position `from`.
#[verifier::loop_isolation(false)]
pub fn find2(s: &str, c0: char, c1: char, from: usize) -> (r: Option<usize>)
    requires
        from <= s@.len(),
    ensures
        match r {
            Some(j) => from <= j && find2_from(s@, c0, c1, from as int) == Some(j as int),
            None => find2_from(s@, c0, c1, from as int) is None,
        },
{
    let n = s.unicode_len();
    let mut i = from;
    while i < n && i + 1 < n
        invariant
            from <= i <= n,
            n == s@.len(),
            forall|k: int| from <= k < i ==> !pat2_at(s@, k, c0, c1),
        decreases n - i,
    {
        let a = s.get_char(i);
        let b = s.get_char(i + 1);
        if a == c0 && b == c1 {
            proof {
                lemma_find2_found(s@, c0, c1, from as int, i as int);
            }
            return Some(i);
        }
        i = i + 1;
    }
    proof {
        assert forall|k: int| from <= k implies !pat2_at(s@, k, c0, c1) by {
            if k + 2 <= s@.len() {
                assert(k < i);
            }
        }
        lemma_find2_none(s@, c0, c1, from as int);
    }
    None
}

/// Finds the first occurrence of the character `c` in `s` at or after
/// char position `from`.
#[verifier::loop_isolation(false)]
pub fn find1(s: &str, c: char, from: usize) -> (r: Option<usize>)
    requires
        from <= s@.len(),
    ensures
        match r {
            Some(j) => from <= j && find1_from(s@, c, from as int) == Some(j as int),
            None => find1_from(s@, c, from as int) is None,
        },
{
    let n = s.unicode_len();
    let mut i = from;
    while i < n
        invariant
            from <= i <= n,
            n == s@.len(),
            forall|k: int| from <= k < i ==> s@[k] != c,
        decreases n - i,
    {
        if s.get_char(i) == c {
            proof {
                lemma_find1_found(s@, c, from as int, i as int);
            }
            return Some(i);
        }
        i = i + 1;
    }
    proof {
        lemma_find1_none(s@, c, from as int);
    }
    None
}

/// A search in a suffix finds the same character, shifted.
pub proof fn lemma_find1_shift(s: Seq<char>, c: char, d: int, from: int)
    requires
        0 <= d <= from,
        d <= s.len(),
    ensures
        match find1_from(s, c, from) {
            Some(j) => find1_from(s.skip(d), c, from - d) == Some(j - d),
            None => find1_from(s.skip(d), c, from - d) is None,
        },
{
    lemma_find1_spec(s, c, from);
    let t = s.skip(d);
    match find1_from(s, c, from) {
        Some(j) => {
            assert(t[j - d] == s[j]);
            assert forall|k: int| from - d <= k < j - d implies t[k] != c by {
                assert(t[k] == s[k + d]);
            }
            lemma_find1_found(t, c, from - d, j - d);
        },
        None => {
            assert forall|k: int| from - d <= k < t.len() implies t[k] != c by {
                assert(t[k] == s[k + d]);
            }
            lemma_find1_none(t, c, from - d);
        },
    }
}

/// A search in a suffix finds the same two-character pattern, shifted.
pub proof fn lemma_find2_shift(s: Seq<char>, c0: char, c1: char, d: int, from: int)
    requires
        0 <= d <= from,
        d <= s.len(),
    ensures
        match find2_from(s, c0, c1, from) {
            Some(j) => find2_from(s.skip(d), c0, c1, from - d) == Some(j - d),
            None => find2_from(s.skip(d), c0, c1, from - d) is None,
        },
{
    lemma_find2_spec(s, c0, c1, from);
    let t = s.skip(d);
    match find2_from(s, c0, c1, from) {
        Some(j) => {
            assert(t[j - d] == s[j] && t[j - d + 1] == s[j + 1]);
            assert forall|k: int| from - d <= k < j - d implies !pat2_at(t, k, c0, c1) by {
                if k + 2 <= t.len() {
                    assert(t[k] == s[k + d] && t[k + 1] == s[k + d + 1]);
                    assert(!pat2_at(s, k + d, c0, c1));
                }
            }
            lemma_find2_found(t, c0, c1, from - d, j - d);
        },
        None => {
            assert forall|k: int| from - d <= k implies !pat2_at(t, k, c0, c1) by {
                if k + 2 <= t.len() {
                    assert(t[k] == s[k + d] && t[k + 1] == s[k + d + 1]);
                    assert(!pat2_at(s, k + d, c0, c1));
                }
            }
            lemma_find2_none(t, c0, c1, from - d);
        },
    }
}

/// Copies the character range `[from, to)` of `s` into an owned string.
pub fn substr_copy(s: &str, from: usize, to: usize) -> (r: String)
    requires
        from <= to <= s@.len(),
    ensures
        r@ == s@.subrange(from as int, to as int),
{
    s.substring_char(from, to).to_owned()
}

/// Compares two string slices by their character content.
pub fn str_eq(a: &str, b: &str) -> (r: bool)
    ensures
        r == (a@ == b@),
{
    let sa = a.to_owned();
    let sb = b.to_owned();
    sa == sb
}

/// What `str::to_lowercase` returns: a pure function of the characters alone
/// (Unicode default case conversion, no locale involved).
pub uninterp spec fn lower_of(s: Seq<char>) -> Seq<char>;

/// Relies on `str::to_lowercase`: the result depends only on the input
/// characters, so naming it as `lower_of` is sound; the empty string
/// lowercases to the empty string.
#[verifier::external_body]
pub fn lowercase(s: &str) -> (r: String)
    ensures
        r@ == lower_of(s@),
        s@.len() == 0 ==> r@.len() == 0,
{
    s.to_lowercase()
}

} // verus!
