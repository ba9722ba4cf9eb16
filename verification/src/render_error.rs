//! Classifying the messages the external renderer emits when drawing fails.
//!
//! A message that contains the marker `syntax error in line ` followed by a
//! run of decimal digits reports a syntax error in the DOT source; the first
//! such occurrence carries the one-based source line. Every other message is
//! a general failure that is only reported to the user.

use vstd::prelude::*;

verus! {

/// What the editor does with a renderer error message.
#[derive(Debug, Clone, Copy, PartialEq, Eq, Structural)]
pub enum RenderErrorAction {
    /// A syntax error: mark this zero-based buffer line in the gutter.
    MarkLine(u32),
    /// A syntax error whose reported line number is no buffer line:
    /// zero, or too large for a line index.
    LineOutOfRange,
    /// Any other failure: only tell the user that drawing failed.
    Notify,
}

pub open spec fn is_ascii_digit(b: u8) -> bool {
    48 <= b && b <= 57
}

/// The marker the renderer prints ahead of the line number:
/// byte `j` of `"syntax error in line "`.
pub open spec fn marker_byte(j: int) -> u8 {
    if j == 0 { 115 }       // s
    else if j == 1 { 121 }  // y
    else if j == 2 { 110 }  // n
    else if j == 3 { 116 }  // t
    else if j == 4 { 97 }   // a
    else if j == 5 { 120 }  // x
    else if j == 6 { 32 }   //
    else if j == 7 { 101 }  // e
    else if j == 8 { 114 }  // r
    else if j == 9 { 114 }  // r
    else if j == 10 { 111 } // o
    else if j == 11 { 114 } // r
    else if j == 12 { 32 }  //
    else if j == 13 { 105 } // i
    else if j == 14 { 110 } // n
    else if j == 15 { 32 }  //
    else if j == 16 { 108 } // l
    else if j == 17 { 105 } // i
    else if j == 18 { 110 } // n
    else if j == 19 { 101 } // e
    else { 32 }             //
}

/// The marker followed by at least one digit stands at index `i` of `s`.
pub open spec fn match_at(s: Seq<u8>, i: int) -> bool {
    &&& 0 <= i
    &&& i + 22 <= s.len()
    &&& (forall|j: int| 0 <= j < 21 ==> s[i + j] == marker_byte(j))
    &&& is_ascii_digit(s[i + 21])
}

/// The marker with a digit stands somewhere before index `n`.
pub open spec fn match_before(s: Seq<u8>, n: int) -> bool {
    exists|i: int| i < n && match_at(s, i)
}

/// The marker with a digit stands somewhere in `s`.
pub open spec fn has_match(s: Seq<u8>) -> bool {
    exists|i: int| match_at(s, i)
}

/// The index of the leftmost occurrence of the marker with a digit.
pub open spec fn first_match(s: Seq<u8>) -> int {
    choose|i: int| match_at(s, i) && !match_before(s, i)
}

/// The end (exclusive) of the run of digits that starts at index `j`.
pub open spec fn digit_run_end(s: Seq<u8>, j: int) -> int
    decreases s.len() - j,
{
    if j < 0 || j >= s.len() {
        j
    } else if is_ascii_digit(s[j]) {
        digit_run_end(s, j + 1)
    } else {
        j
    }
}

/// The decimal value of the digits of `s` at indices `a..b`.
pub open spec fn digits_value(s: Seq<u8>, a: int, b: int) -> int
    decreases b - a,
{
    if a >= b {
        0
    } else {
        digits_value(s, a, b - 1) * 10 + s[b - 1] - 48
    }
}

/// The one-based line number reported by the first syntax-error marker.
/// Meaningful only when `has_match(s)`.
pub open spec fn reported_line(s: Seq<u8>) -> int {
    digits_value(s, first_match(s) + 21, digit_run_end(s, first_match(s) + 21))
}

/// The action an error message calls for: the first marker's line number,
/// moved to a zero-based line, or a plain notification.
pub open spec fn classify_spec(s: Seq<u8>) -> RenderErrorAction {
    if !has_match(s) {
        RenderErrorAction::Notify
    } else if 1 <= reported_line(s) && reported_line(s) <= u32::MAX {
        RenderErrorAction::MarkLine((reported_line(s) - 1) as u32)
    } else {
        RenderErrorAction::LineOutOfRange
    }
}

/// Every byte of a digit run is a digit.
proof fn lemma_digit_run_all_digits(s: Seq<u8>, a: int, j: int)
    requires
        0 <= a,
        a <= j < digit_run_end(s, a),
    ensures
        is_ascii_digit(s[j]),
    decreases j - a,
{
    if a < s.len() && is_ascii_digit(s[a]) {
        if j > a {
            lemma_digit_run_all_digits(s, a + 1, j);
        }
    }
}

/// A digit run ends no earlier than it starts and within the sequence.
proof fn lemma_digit_run_end_bounds(s: Seq<u8>, a: int)
    requires
        0 <= a <= s.len(),
    ensures
        a <= digit_run_end(s, a) <= s.len(),
    decreases s.len() - a,
{
    if a < s.len() && is_ascii_digit(s[a]) {
        lemma_digit_run_end_bounds(s, a + 1);
    }
}

/// The value of a digit run is never negative.
proof fn lemma_digits_value_nonneg(s: Seq<u8>, a: int, b: int)
    requires
        forall|j: int| a <= j < b ==> is_ascii_digit(s[j]),
    ensures
        digits_value(s, a, b) >= 0,
    decreases b - a,
{
    if a < b {
        lemma_digits_value_nonneg(s, a, b - 1);
    }
}

/// Reading more digits never shrinks the value.
proof fn lemma_digits_value_grows(s: Seq<u8>, a: int, k: int, b: int)
    requires
        a <= k <= b,
        forall|j: int| a <= j < b ==> is_ascii_digit(s[j]),
    ensures
        digits_value(s, a, b) >= digits_value(s, a, k),
    decreases b - k,
{
    if k < b {
        lemma_digits_value_grows(s, a, k, b - 1);
        lemma_digits_value_nonneg(s, a, b - 1);
    }
}

fn marker_byte_at(j: usize) -> (r: u8)
    requires
        j < 21,
    ensures
        r == marker_byte(j as int),
{
    match j {
        0 => 115,
        1 => 121,
        2 => 110,
        3 => 116,
        4 => 97,
        5 => 120,
        6 => 32,
        7 => 101,
        8 => 114,
        9 => 114,
        10 => 111,
        11 => 114,
        12 => 32,
        13 => 105,
        14 => 110,
        15 => 32,
        16 => 108,
        17 => 105,
        18 => 110,
        19 => 101,
        _ => 32,
    }
}

fn marker_at(msg: &[u8], i: usize) -> (r: bool)
    requires
        i + 22 <= msg@.len(),
    ensures
        r == match_at(msg@, i as int),
{
    let n = msg.len();
    let mut j: usize = 0;
    while j < 21
        invariant
            n == msg@.len(),
            i + 22 <= n,
            j <= 21,
            forall|q: int| 0 <= q < j ==> msg@[i + q] == marker_byte(q),
        decreases 21 - j,
    {
        if msg[i + j] != marker_byte_at(j) {
            return false;
        }
        j += 1;
    }
    let b = msg[i + 21];
    48 <= b && b <= 57
}

/// What to do with the renderer error message `msg`: mark the zero-based
/// line that the first `syntax error in line N` marker reports, or notify
/// the user of a general failure.
pub fn classify_render_error(msg: &[u8]) -> (r: RenderErrorAction)
    ensures
        r == classify_spec(msg@),
{
    let n = msg.len();
    if n < 22 {
        assert(!has_match(msg@));
        return RenderErrorAction::Notify;
    }
    let mut i: usize = 0;
    while i <= n - 22
        invariant
            n == msg@.len(),
            22 <= n,
            i <= n - 21,
            !match_before(msg@, i as int),
        decreases n - i,
    {
        if marker_at(msg, i) {
            proof {
                assert(match_at(msg@, i as int) && !match_before(msg@, i as int));
                let fm = first_match(msg@);
                assert(match_at(msg@, fm) && !match_before(msg@, fm)) by {
                    assert(match_at(msg@, i as int) && !match_before(msg@, i as int));
                }
                assert(fm == i as int) by {
                    if fm < i as int {
                        assert(match_before(msg@, i as int));
                    }
                    if fm > i as int {
                        assert(match_before(msg@, fm));
                    }
                }
            }
            let ghost a = i + 21;
            let mut k: usize = i + 21;
            while k < n && 48 <= msg[k] && msg[k] <= 57
                invariant
                    n == msg@.len(),
                    a == i + 21,
                    a <= k <= n,
                    digit_run_end(msg@, a as int) == digit_run_end(msg@, k as int),
                decreases n - k,
            {
                k += 1;
            }
            assert(digit_run_end(msg@, k as int) == k as int);
            assert(digit_run_end(msg@, a as int) == k as int);
            proof {
                lemma_digit_run_end_bounds(msg@, a as int);
                assert forall|j: int| a <= j < k implies is_ascii_digit(msg@[j]) by {
                    lemma_digit_run_all_digits(msg@, a as int, j);
                }
            }
            let mut p: usize = i + 21;
            let mut v: u64 = 0;
            let mut over = false;
            while p < k
                invariant
                    n == msg@.len(),
                    a == i + 21,
                    a <= p <= k <= n,
                    digit_run_end(msg@, a as int) == k as int,
                    forall|j: int| a <= j < k ==> is_ascii_digit(msg@[j]),
                    !over ==> v == digits_value(msg@, a as int, p as int) && v <= u32::MAX,
                    over ==> digits_value(msg@, a as int, p as int) > u32::MAX,
                decreases k - p,
            {
                let d = msg[p] - 48;
                proof {
                    assert(digits_value(msg@, a as int, p + 1)
                        == digits_value(msg@, a as int, p as int) * 10 + msg@[p as int] - 48);
                }
                if !over {
                    let nv = v * 10 + (d as u64);
                    if nv > u32::MAX as u64 {
                        over = true;
                    }
                    v = nv;
                } else {
                    proof {
                        lemma_digits_value_nonneg(msg@, a as int, p as int);
                    }
                }
                p += 1;
            }
            assert(reported_line(msg@) == digits_value(msg@, a as int, k as int));
            if over {
                return RenderErrorAction::LineOutOfRange;
            } else if v == 0 {
                return RenderErrorAction::LineOutOfRange;
            } else {
                return RenderErrorAction::MarkLine((v - 1) as u32);
            }
        }
        i += 1;
    }
    assert(!has_match(msg@)) by {
        assert forall|m: int| !match_at(msg@, m) by {
            if match_at(msg@, m) {
                if m < i as int {
                    assert(match_before(msg@, i as int));
                } else {
                    assert(m + 22 <= n);
                }
            }
        }
    }
    RenderErrorAction::Notify
}

} // verus!
