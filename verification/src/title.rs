//! A document's title, taken from the graph's name in the DOT source.
//!
//! The title of a draft is the word after the first `digraph` or `graph`
//! keyword, when that keyword is one of the source's first two words and no
//! `{` opens before the candidate word ends. Words and the `{` test are read
//! at the byte level: a word is a run of ASCII letters, digits and `_`, and
//! the keyword is matched without regard to ASCII case.

use vstd::prelude::*;

verus! {

/// A byte that can stand in a word: an ASCII letter, digit or underscore.
pub open spec fn is_word_byte(b: u8) -> bool {
    (48 <= b && b <= 57) || (65 <= b && b <= 90) || (97 <= b && b <= 122) || b == 95
}

/// An ASCII upper-case letter folded to lower case.
pub open spec fn lower(b: u8) -> u8 {
    if 65 <= b && b <= 90 {
        (b + 32) as u8
    } else {
        b
    }
}

/// The first index at or after `i` that holds a word byte; the length when
/// none does.
pub open spec fn next_word_start(s: Seq<u8>, i: int) -> int
    decreases s.len() - i,
{
    if i < 0 || i >= s.len() {
        s.len() as int
    } else if is_word_byte(s[i]) {
        i
    } else {
        next_word_start(s, i + 1)
    }
}

/// The first index at or after `i` that holds no word byte; the length when
/// the word runs to the end.
pub open spec fn word_end(s: Seq<u8>, i: int) -> int
    decreases s.len() - i,
{
    if i < 0 || i >= s.len() {
        s.len() as int
    } else if is_word_byte(s[i]) {
        word_end(s, i + 1)
    } else {
        i
    }
}

/// Byte `j` of the keyword `digraph`; bytes 2 to 6 spell `graph`.
pub open spec fn digraph_byte(j: int) -> u8 {
    if j == 0 { 100 }       // d
    else if j == 1 { 105 }  // i
    else if j == 2 { 103 }  // g
    else if j == 3 { 114 }  // r
    else if j == 4 { 97 }   // a
    else if j == 5 { 112 }  // p
    else { 104 }            // h
}

/// The word at `a..b` of `s` is `digraph`, without regard to ASCII case.
pub open spec fn word_is_digraph(s: Seq<u8>, a: int, b: int) -> bool {
    b - a == 7 && (forall|q: int| a <= q < b ==> #[trigger] lower(s[q]) == digraph_byte(q - a))
}

/// The word at `a..b` of `s` is `graph`, without regard to ASCII case.
pub open spec fn word_is_graph(s: Seq<u8>, a: int, b: int) -> bool {
    b - a == 5 && (forall|q: int| a <= q < b ==> #[trigger] lower(s[q]) == digraph_byte(q - a + 2))
}

/// Where the graph keyword ends: the end of the first of the source's first
/// two words that is `digraph`, else of the first that is `graph`; `-1`
/// when neither is.
pub open spec fn spec_keyword_end(s: Seq<u8>) -> int {
    let a1 = next_word_start(s, 0);
    let b1 = word_end(s, a1);
    let a2 = next_word_start(s, b1);
    let b2 = word_end(s, a2);
    if word_is_digraph(s, a1, b1) {
        b1
    } else if word_is_digraph(s, a2, b2) {
        b2
    } else if word_is_graph(s, a1, b1) {
        b1
    } else if word_is_graph(s, a2, b2) {
        b2
    } else {
        -1
    }
}

/// A `{` stands somewhere before index `e`.
pub open spec fn brace_before(s: Seq<u8>, e: int) -> bool {
    exists|p: int| 0 <= p < e && s[p] == 123
}

/// The title the DOT source gives its graph: the word after the keyword,
/// unless there is none or a `{` opens before that word ends.
pub open spec fn spec_parse_title(s: Seq<u8>) -> Seq<u8> {
    let kb = spec_keyword_end(s);
    if kb < 0 {
        Seq::empty()
    } else {
        let ta = next_word_start(s, kb);
        let tb = word_end(s, ta);
        if ta >= s.len() {
            Seq::empty()
        } else if brace_before(s, tb) {
            Seq::empty()
        } else {
            s.subrange(ta, tb)
        }
    }
}

fn is_word_byte_at(b: u8) -> (r: bool)
    ensures
        r == is_word_byte(b),
{
    (48 <= b && b <= 57) || (65 <= b && b <= 90) || (97 <= b && b <= 122) || b == 95
}

fn lower_byte(b: u8) -> (r: u8)
    ensures
        r == lower(b),
{
    if 65 <= b && b <= 90 {
        b + 32
    } else {
        b
    }
}

fn digraph_byte_at(j: usize) -> (r: u8)
    requires
        j < 7,
    ensures
        r == digraph_byte(j as int),
{
    match j {
        0 => 100,
        1 => 105,
        2 => 103,
        3 => 114,
        4 => 97,
        5 => 112,
        _ => 104,
    }
}

fn find_word_start(s: &[u8], i: usize) -> (r: usize)
    requires
        i <= s@.len(),
    ensures
        r == next_word_start(s@, i as int),
        i <= r <= s@.len(),
{
    let n = s.len();
    let mut k = i;
    while k < n && !(48 <= s[k] && s[k] <= 57 || 65 <= s[k] && s[k] <= 90 || 97 <= s[k] && s[k]
        <= 122 || s[k] == 95)
        invariant
            n == s@.len(),
            i <= k <= n,
            next_word_start(s@, i as int) == next_word_start(s@, k as int),
        decreases n - k,
    {
        k += 1;
    }
    k
}

fn find_word_end(s: &[u8], i: usize) -> (r: usize)
    requires
        i <= s@.len(),
    ensures
        r == word_end(s@, i as int),
        i <= r <= s@.len(),
{
    let n = s.len();
    let mut k = i;
    while k < n && (48 <= s[k] && s[k] <= 57 || 65 <= s[k] && s[k] <= 90 || 97 <= s[k] && s[k]
        <= 122 || s[k] == 95)
        invariant
            n == s@.len(),
            i <= k <= n,
            word_end(s@, i as int) == word_end(s@, k as int),
        decreases n - k,
    {
        k += 1;
    }
    k
}

/// Whether the word `a..b` is the last `count` bytes of `digraph`: the
/// whole keyword for `count == 7`, `graph` for `count == 5`.
fn word_is_keyword(s: &[u8], a: usize, b: usize, count: usize) -> (r: bool)
    requires
        a <= b <= s@.len(),
        count == 7 || count == 5,
    ensures
        count == 7 ==> r == word_is_digraph(s@, a as int, b as int),
        count == 5 ==> r == word_is_graph(s@, a as int, b as int),
{
    if b - a != count {
        return false;
    }
    let ghost off = 7 - count;
    let mut j: usize = 0;
    while j < count
        invariant
            a + count <= s@.len(),
            b - a == count,
            count == 7 || count == 5,
            off == 7 - count,
            j <= count,
            forall|q: int| a <= q < a + j ==> #[trigger] lower(s@[q]) == digraph_byte(q - a + off),
        decreases count - j,
    {
        if lower_byte(s[a + j]) != digraph_byte_at(j + (7 - count)) {
            assert(lower(s@[a + j]) != digraph_byte(a + j - a + off));
            return false;
        }
        j += 1;
    }
    true
}

/// The title of the DOT source `contents`, or nothing when its graph is
/// unnamed.
pub fn parse_title(contents: &[u8]) -> (r: Vec<u8>)
    ensures
        r@ == spec_parse_title(contents@),
{
    let a1 = find_word_start(contents, 0);
    let b1 = find_word_end(contents, a1);
    let a2 = find_word_start(contents, b1);
    let b2 = find_word_end(contents, a2);
    let kb: usize;
    if word_is_keyword(contents, a1, b1, 7) {
        kb = b1;
    } else if word_is_keyword(contents, a2, b2, 7) {
        kb = b2;
    } else if word_is_keyword(contents, a1, b1, 5) {
        kb = b1;
    } else if word_is_keyword(contents, a2, b2, 5) {
        kb = b2;
    } else {
        assert(spec_keyword_end(contents@) == -1);
        return Vec::new();
    }
    assert(kb == spec_keyword_end(contents@));
    let ta = find_word_start(contents, kb);
    let tb = find_word_end(contents, ta);
    if ta == contents.len() {
        return Vec::new();
    }
    let mut p: usize = 0;
    while p < tb
        invariant
            spec_keyword_end(contents@) == kb as int,
            ta == next_word_start(contents@, kb as int),
            tb == word_end(contents@, ta as int),
            ta < contents@.len(),
            tb <= contents@.len(),
            p <= tb,
            forall|q: int| 0 <= q < p ==> contents@[q] != 123,
        decreases tb - p,
    {
        if contents[p] == 123 {
            assert(brace_before(contents@, tb as int)) by {
                assert(0 <= p < tb && contents@[p as int] == 123);
            }
            return Vec::new();
        }
        p += 1;
    }
    assert(!brace_before(contents@, tb as int));
    let mut out: Vec<u8> = Vec::new();
    let mut i = ta;
    while i < tb
        invariant
            ta <= i <= tb <= contents@.len(),
            out@ =~= contents@.subrange(ta as int, i as int),
        decreases tb - i,
    {
        out.push(contents[i]);
        assert(out@ =~= contents@.subrange(ta as int, i + 1));
        i += 1;
    }
    assert(out@ =~= contents@.subrange(ta as int, tb as int));
    out
}

/// A document's title: the stem of its file's name when it has a file, the
/// graph's name in the source when it is a draft.
pub fn document_title(path: Option<&Vec<u8>>, contents: &Vec<u8>) -> (r: Vec<u8>)
    ensures
        match path {
            Some(p) => r@ == crate::paths::spec_file_stem(p@),
            None => r@ == spec_parse_title(contents@),
        },
{
    match path {
        Some(p) => crate::paths::file_stem_of(p.as_slice()),
        None => parse_title(contents.as_slice()),
    }
}

} // verus!
