//! Small verified text helpers: string equality, prefix matching, decimal
//! rendering of integers, and path base names. The session-cache codec and
//! the session-id builder are written on top of these.

use vstd::prelude::*;
use vstd::string::StrSliceExecFns;
use vstd::string::StringExecFns;

verus! {

/// Exec equality on string slices, tied to their views.
pub fn str_eq(a: &str, b: &str) -> (r: bool)
    ensures
        r == (a@ == b@),
{
    let sa = String::from_str(a);
    let sb = String::from_str(b);
    sa == sb
}

/// Whether `pat` occurs in `s` starting at character position `pos`.
pub open spec fn matches_at(s: Seq<char>, pos: int, pat: Seq<char>) -> bool {
    &&& 0 <= pos
    &&& pos + pat.len() <= s.len()
    &&& s.subrange(pos, pos + pat.len()) == pat
}

/// Compares the characters of `s` from `pos` on with `pat`.
pub fn match_at(s: &str, pos: usize, pat: &str) -> (r: bool)
    requires
        pos <= s@.len(),
    ensures
        r == matches_at(s@, pos as int, pat@),
{
    let n = s.unicode_len();
    let m = pat.unicode_len();
    if m > n - pos {
        assert(!matches_at(s@, pos as int, pat@));
        return false;
    }
    let mut j: usize = 0;
    while j < m
        invariant
            0 <= j <= m,
            m == pat@.len(),
            n == s@.len(),
            pos + m <= n,
            forall|k: int| 0 <= k < j ==> s@[pos + k] == pat@[k],
        decreases m - j,
    {
        if s.get_char(pos + j) != pat.get_char(j) {
            assert(s@.subrange(pos as int, pos + m) != pat@) by {
                assert(s@.subrange(pos as int, pos + m)[j as int] != pat@[j as int]);
            }
            return false;
        }
        j = j + 1;
    }
    assert(s@.subrange(pos as int, pos + m) =~= pat@);
    true
}

/// Digit characters and their values.
pub open spec fn is_digit(c: char) -> bool {
    48 <= c as u32 <= 57
}

pub open spec fn digit_val(c: char) -> int {
    c as u32 - 48
}

pub open spec fn digit_char(d: int) -> char {
    if d == 0 {
        '0'
    } else if d == 1 {
        '1'
    } else if d == 2 {
        '2'
    } else if d == 3 {
        '3'
    } else if d == 4 {
        '4'
    } else if d == 5 {
        '5'
    } else if d == 6 {
        '6'
    } else if d == 7 {
        '7'
    } else if d == 8 {
        '8'
    } else {
        '9'
    }
}

pub proof fn lemma_digit_char_val(d: int)
    requires
        0 <= d <= 9,
    ensures
        is_digit(digit_char(d)),
        digit_val(digit_char(d)) == d,
{
}

/// The canonical decimal rendering of a non-negative integer: no sign, no
/// leading zero (except for 0 itself).
pub open spec fn dec_of(n: int) -> Seq<char>
    recommends
        n >= 0,
    decreases n,
{
    if n <= 9 {
        seq![digit_char(if n < 0 { 0int } else { n })]
    } else {
        dec_of(n / 10) + seq![digit_char(n % 10)]
    }
}

/// The canonical decimal rendering of an integer, with a leading minus
/// sign when negative.
pub open spec fn dec_signed(n: int) -> Seq<char> {
    if n < 0 {
        "-"@ + dec_of(-n)
    } else {
        dec_of(n)
    }
}

/// The value denoted by a sequence of digit characters.
pub open spec fn val_of(d: Seq<char>) -> int
    decreases d.len(),
{
    if d.len() == 0 {
        0
    } else {
        val_of(d.drop_last()) * 10 + digit_val(d.last())
    }
}

/// The canonical rendering is made of digits, is never empty, denotes the
/// number it renders, and that number bounds the value of every prefix.
pub proof fn lemma_dec_of(n: int)
    requires
        n >= 0,
    ensures
        dec_of(n).len() >= 1,
        forall|i: int| 0 <= i < dec_of(n).len() ==> is_digit(#[trigger] dec_of(n)[i]),
        val_of(dec_of(n)) == n,
    decreases n,
{
    if n <= 9 {
        lemma_digit_char_val(n);
        assert(dec_of(n) =~= seq![digit_char(n)]);
        assert(dec_of(n).drop_last() =~= Seq::<char>::empty());
        assert(val_of(Seq::<char>::empty()) == 0);
        assert(val_of(dec_of(n)) == val_of(dec_of(n).drop_last()) * 10 + digit_val(
            dec_of(n).last(),
        ));
    } else {
        lemma_dec_of(n / 10);
        lemma_digit_char_val(n % 10);
        assert(dec_of(n).drop_last() =~= dec_of(n / 10));
        assert(dec_of(n).last() == digit_char(n % 10));
        assert(val_of(dec_of(n)) == val_of(dec_of(n).drop_last()) * 10 + digit_val(
            dec_of(n).last(),
        ));
        assert((n / 10) * 10 + n % 10 == n);
    }
}

/// Every prefix of a digit sequence denotes at most the whole sequence's
/// value.
pub proof fn lemma_val_of_prefix(d: Seq<char>, i: int)
    requires
        0 <= i <= d.len(),
        forall|k: int| 0 <= k < d.len() ==> is_digit(#[trigger] d[k]),
    ensures
        0 <= val_of(d.subrange(0, i)) <= val_of(d),
    decreases d.len() - i,
{
    lemma_val_of_nonneg(d.subrange(0, i));
    if i == d.len() {
        assert(d.subrange(0, i) =~= d);
    } else {
        lemma_val_of_prefix(d, i + 1);
        let p = d.subrange(0, i + 1);
        assert(p.drop_last() =~= d.subrange(0, i));
        assert(val_of(p) == val_of(d.subrange(0, i)) * 10 + digit_val(d[i]));
        assert(is_digit(d[i]));
    }
}

pub proof fn lemma_val_of_nonneg(d: Seq<char>)
    requires
        forall|k: int| 0 <= k < d.len() ==> is_digit(#[trigger] d[k]),
    ensures
        val_of(d) >= 0,
    decreases d.len(),
{
    if d.len() > 0 {
        lemma_val_of_nonneg(d.drop_last());
        assert(is_digit(d.last()));
    }
}

/// One digit as a string slice.
fn digit_str(d: u64) -> (r: &'static str)
    requires
        d <= 9,
    ensures
        r@ =~= seq![digit_char(d as int)],
{
    if d == 0 {
        proof {
            reveal_strlit("0");
        }
        "0"
    } else if d == 1 {
        proof {
            reveal_strlit("1");
        }
        "1"
    } else if d == 2 {
        proof {
            reveal_strlit("2");
        }
        "2"
    } else if d == 3 {
        proof {
            reveal_strlit("3");
        }
        "3"
    } else if d == 4 {
        proof {
            reveal_strlit("4");
        }
        "4"
    } else if d == 5 {
        proof {
            reveal_strlit("5");
        }
        "5"
    } else if d == 6 {
        proof {
            reveal_strlit("6");
        }
        "6"
    } else if d == 7 {
        proof {
            reveal_strlit("7");
        }
        "7"
    } else if d == 8 {
        proof {
            reveal_strlit("8");
        }
        "8"
    } else {
        proof {
            reveal_strlit("9");
        }
        "9"
    }
}

/// Renders `n` in canonical decimal.
pub fn u64_to_dec(n: u64) -> (r: String)
    ensures
        r@ == dec_of(n as int),
    decreases n,
{
    if n <= 9 {
        String::from_str(digit_str(n))
    } else {
        let mut s = u64_to_dec(n / 10);
        s.append(digit_str(n % 10));
        assert(s@ =~= dec_of(n as int));
        s
    }
}

/// Renders `n` in canonical decimal, minus sign included.
pub fn i64_to_dec(n: i64) -> (r: String)
    ensures
        r@ == dec_signed(n as int),
{
    if n >= 0 {
        u64_to_dec(n as u64)
    } else {
        let mut s = String::from_str("-");
        let mag: u64 = ((-(n + 1)) as u64) + 1;
        assert(mag as int == -(n as int));
        let m = u64_to_dec(mag);
        s.append(m.as_str());
        s
    }
}

/// Renders a `u32` in canonical decimal.
pub fn u32_to_dec(n: u32) -> (r: String)
    ensures
        r@ == dec_of(n as int),
{
    u64_to_dec(n as u64)
}

/// Where the run of digit characters starting at `i` ends.
pub open spec fn digits_end(s: Seq<char>, i: int) -> int
    decreases s.len() - i,
{
    if 0 <= i < s.len() && is_digit(s[i]) {
        digits_end(s, i + 1)
    } else {
        i
    }
}

pub proof fn lemma_digits_end(s: Seq<char>, i: int)
    requires
        0 <= i <= s.len(),
    ensures
        i <= digits_end(s, i) <= s.len(),
        forall|k: int| i <= k < digits_end(s, i) ==> is_digit(#[trigger] s[k]),
        digits_end(s, i) < s.len() ==> !is_digit(s[digits_end(s, i)]),
    decreases s.len() - i,
{
    if i < s.len() && is_digit(s[i]) {
        lemma_digits_end(s, i + 1);
    }
}

/// Reads the run of digits starting at `start`; returns its value and the
/// position after it. `None` when there is no digit at `start` or the run's
/// value exceeds `u64::MAX`.
pub fn parse_digits(s: &str, start: usize) -> (r: Option<(u64, usize)>)
    requires
        start <= s@.len(),
    ensures
        ({
            let e = digits_end(s@, start as int);
            if e == start {
                r is None
            } else if val_of(s@.subrange(start as int, e)) <= u64::MAX {
                r == Some((val_of(s@.subrange(start as int, e)) as u64, e as usize))
            } else {
                r is None
            }
        }),
{
    proof {
        lemma_digits_end(s@, start as int);
    }
    let n = s.unicode_len();
    let ghost e = digits_end(s@, start as int);
    let mut i: usize = start;
    let mut acc: u128 = 0;
    while i < n && is_digit_at(s, i)
        invariant
            start <= i <= n,
            n == s@.len(),
            e == digits_end(s@, start as int),
            start <= i <= e,
            acc == val_of(s@.subrange(start as int, i as int)),
            acc <= u64::MAX as u128 * 10 + 9,
        decreases n - i,
    {
        proof {
            lemma_digits_end(s@, start as int);
            assert(i < e) by {
                assert(is_digit(s@[i as int]));
            }
            lemma_digits_end_step(s@, start as int, i as int);
        }
        if acc > u64::MAX as u128 {
            proof {
                assert(s@.subrange(start as int, start as int) =~= Seq::<char>::empty());
                assert(i > start);
                lemma_val_of_prefix_extends(s@, start as int, i as int, e);
            }
            return None;
        }
        let c = s.get_char(i);
        let d: u128 = (c as u32 - 48) as u128;
        proof {
            assert(s@.subrange(start as int, i + 1).drop_last() =~= s@.subrange(
                start as int,
                i as int,
            ));
        }
        acc = acc * 10 + d;
        i = i + 1;
    }
    proof {
        lemma_digits_end_stop(s@, start as int, i as int, n as int);
    }
    if i == start {
        return None;
    }
    if acc > u64::MAX as u128 {
        return None;
    }
    Some((acc as u64, i))
}

/// Inside the digit run, each position of a digit keeps the run's end.
proof fn lemma_digits_end_step(s: Seq<char>, start: int, i: int)
    requires
        0 <= start <= i,
        i < digits_end(s, start),
    ensures
        is_digit(s[i]),
        digits_end(s, i) == digits_end(s, start),
        i + 1 <= digits_end(s, start),
    decreases i - start,
{
    assert(start < s.len() && is_digit(s[start]) && digits_end(s, start) == digits_end(
        s,
        start + 1,
    )) by {
        assert(digits_end(s, start) != start);
    }
    if start < i {
        lemma_digits_end_step(s, start + 1, i);
    }
}

/// A run of digits bounded by a non-digit (or the end) is exactly what
/// `digits_end` spans.
pub proof fn lemma_digits_end_of_run(s: Seq<char>, i: int, len: int)
    requires
        0 <= i,
        0 <= len,
        i + len <= s.len(),
        forall|k: int| i <= k < i + len ==> is_digit(#[trigger] s[k]),
        i + len == s.len() || !is_digit(s[i + len]),
    ensures
        digits_end(s, i) == i + len,
    decreases len,
{
    if len > 0 {
        assert(is_digit(s[i]));
        lemma_digits_end_of_run(s, i + 1, len - 1);
    }
}

/// Whether the character at position `i` is a decimal digit.
pub fn is_digit_at(s: &str, i: usize) -> (r: bool)
    requires
        i < s@.len(),
    ensures
        r == is_digit(s@[i as int]),
{
    let c = s.get_char(i);
    (c as u32) >= 48 && (c as u32) <= 57
}

/// A loop that stopped scanning digits stopped exactly at the run's end.
proof fn lemma_digits_end_stop(s: Seq<char>, start: int, i: int, n: int)
    requires
        0 <= start <= i <= n,
        n == s.len(),
        i <= digits_end(s, start),
        i == n || !is_digit(s[i]),
    ensures
        i == digits_end(s, start),
{
    lemma_digits_end(s, start);
}

/// When the value of the scanned prefix already exceeds `u64::MAX`, so
/// does the whole run's value.
proof fn lemma_val_of_prefix_extends(s: Seq<char>, start: int, i: int, e: int)
    requires
        0 <= start <= i <= e <= s.len(),
        e == digits_end(s, start),
        val_of(s.subrange(start, i)) > u64::MAX,
    ensures
        val_of(s.subrange(start, e)) > u64::MAX,
{
    lemma_digits_end(s, start);
    let whole = s.subrange(start, e);
    assert(forall|k: int| 0 <= k < whole.len() ==> is_digit(#[trigger] whole[k]));
    lemma_val_of_prefix(whole, i - start);
    assert(whole.subrange(0, i - start) =~= s.subrange(start, i));
}

/// The longest suffix of `s` that holds no `/`: the base name of a path.
pub fn base_name(s: &str) -> (r: String)
    ensures
        r@.len() <= s@.len(),
        r@ == s@.subrange(s@.len() - r@.len(), s@.len() as int),
        forall|k: int| 0 <= k < r@.len() ==> r@[k] != '/',
        r@.len() < s@.len() ==> s@[s@.len() - r@.len() - 1] == '/',
{
    let n = s.unicode_len();
    let mut cut: usize = 0;
    let mut i: usize = 0;
    while i < n
        invariant
            0 <= cut <= i <= n,
            n == s@.len(),
            forall|k: int| cut <= k < i ==> s@[k] != '/',
            cut > 0 ==> s@[cut - 1] == '/',
        decreases n - i,
    {
        if s.get_char(i) == '/' {
            cut = i + 1;
        }
        i = i + 1;
    }
    let tail = s.substring_char(cut, n);
    String::from_str(tail)
}

/// Whether `x` occurs in the vector.
pub fn contains_u32(v: &Vec<u32>, x: u32) -> (r: bool)
    ensures
        r == v@.contains(x),
{
    let mut i: usize = 0;
    while i < v.len()
        invariant
            0 <= i <= v@.len(),
            forall|k: int| 0 <= k < i ==> v@[k] != x,
        decreases v@.len() - i,
    {
        if v[i] == x {
            return true;
        }
        i = i + 1;
    }
    false
}

/// Whether a string with the view of `x` occurs in the vector.
pub fn contains_string(v: &Vec<String>, x: &str) -> (r: bool)
    ensures
        r == (exists|k: int| 0 <= k < v@.len() && (#[trigger] v@[k])@ == x@),
{
    let mut i: usize = 0;
    while i < v.len()
        invariant
            0 <= i <= v@.len(),
            forall|k: int| 0 <= k < i ==> (#[trigger] v@[k])@ != x@,
        decreases v@.len() - i,
    {
        if str_eq(v[i].as_str(), x) {
            return true;
        }
        i = i + 1;
    }
    false
}

} // verus!
