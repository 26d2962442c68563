//! Character-level utilities shared by the parsers and the classification
//! engine: case folding, whitespace, trimming, line splitting, digit
//! parsing and rendering, and substring search.
//!
//! All logic works on `Vec<char>` so that every step is visible to the
//! verifier; conversion from `&str` is itself verified through vstd's
//! string specifications.

use vstd::prelude::*;
use vstd::string::StrSliceExecFns;

verus! {

/// ASCII upper-case letter.
pub open spec fn is_upper(c: char) -> bool {
    'A' <= c && c <= 'Z'
}

/// Case-insensitive character equality: equal outright, or equal after
/// folding an ASCII upper-case letter to lower case.
pub open spec fn ci_eq(a: char, b: char) -> bool {
    ||| a == b
    ||| (is_upper(a) && a as int + 32 == b as int)
    ||| (is_upper(b) && b as int + 32 == a as int)
}

/// Whitespace as the vocabulary patterns understand it.
pub open spec fn is_ws(c: char) -> bool {
    c == ' ' || c == '\t' || c == '\n' || c == '\r'
}

/// A word character: an ASCII letter, digit, or underscore.
pub open spec fn is_word_char(c: char) -> bool {
    ('a' <= c && c <= 'z') || ('A' <= c && c <= 'Z') || ('0' <= c && c <= '9') || c == '_'
}

/// ASCII decimal digit.
pub open spec fn is_digit(c: char) -> bool {
    '0' <= c && c <= '9'
}

/// Numeric value of an ASCII decimal digit.
pub open spec fn digit_val(c: char) -> int {
    c as int - 48
}

/// Number of bytes in the UTF-8 encoding of a character sequence; this is
/// what `str::len` reports for the corresponding string.
pub open spec fn byte_len(s: Seq<char>) -> nat {
    vstd::utf8::encode_utf8(s).len()
}

pub fn char_ci_eq(a: char, b: char) -> (r: bool)
    ensures
        r == ci_eq(a, b),
{
    a == b || (('A' <= a && a <= 'Z') && (a as u32) + 32 == (b as u32)) || (('A' <= b && b <= 'Z')
        && (b as u32) + 32 == (a as u32))
}

pub fn char_is_ws(c: char) -> (r: bool)
    ensures
        r == is_ws(c),
{
    c == ' ' || c == '\t' || c == '\n' || c == '\r'
}

pub fn char_is_word(c: char) -> (r: bool)
    ensures
        r == is_word_char(c),
{
    ('a' <= c && c <= 'z') || ('A' <= c && c <= 'Z') || ('0' <= c && c <= '9') || c == '_'
}

pub fn char_is_digit(c: char) -> (r: bool)
    ensures
        r == is_digit(c),
{
    '0' <= c && c <= '9'
}

/// The characters of a string slice, in order.
pub fn chars_of(s: &str) -> (r: Vec<char>)
    ensures
        r@ == s@,
{
    let n: usize = s.unicode_len();
    let mut r: Vec<char> = Vec::new();
    let mut i: usize = 0;
    while i < n
        invariant
            i <= n,
            n == s@.len(),
            r@ == s@.take(i as int),
        decreases n - i,
    {
        r.push(s.get_char(i));
        assert(s@.take(i as int).push(s@[i as int]) =~= s@.take(i as int + 1));
        i = i + 1;
    }
    assert(s@.take(n as int) =~= s@);
    r
}

/// Relies on `String`'s `FromIterator<char>` implementation: collecting
/// characters yields the string holding exactly those characters in order.
#[verifier::external_body]
pub fn string_from_chars(v: &Vec<char>) -> (r: String)
    ensures
        r@ == v@,
{
    v.iter().collect()
}

/// Copy of the range `[a, b)` of a character vector.
pub fn subvec(v: &Vec<char>, a: usize, b: usize) -> (r: Vec<char>)
    requires
        a <= b <= v@.len(),
    ensures
        r@ == v@.subrange(a as int, b as int),
{
    let mut r: Vec<char> = Vec::new();
    let mut i: usize = a;
    while i < b
        invariant
            a <= i <= b <= v@.len(),
            r@ == v@.subrange(a as int, i as int),
        decreases b - i,
    {
        r.push(v[i]);
        assert(v@.subrange(a as int, i as int).push(v@[i as int]) =~= v@.subrange(
            a as int,
            i as int + 1,
        ));
        i = i + 1;
    }
    r
}

/// The word `w` occurs at position `i` of `text`, compared case
/// insensitively character by character.
pub open spec fn lit_at(text: Seq<char>, w: Seq<char>, i: int) -> bool {
    &&& 0 <= i
    &&& i + w.len() <= text.len()
    &&& forall|k: int| 0 <= k < w.len() ==> ci_eq(text[i + k], #[trigger] w[k])
}

pub fn lit_match_at(text: &Vec<char>, w: &Vec<char>, i: usize) -> (r: bool)
    ensures
        r == lit_at(text@, w@, i as int),
{
    if i > text.len() || w.len() > text.len() - i {
        return false;
    }
    let mut k: usize = 0;
    while k < w.len()
        invariant
            i + w@.len() <= text@.len(),
            text@.len() <= usize::MAX,
            k <= w@.len(),
            forall|j: int| 0 <= j < k ==> ci_eq(text@[i + j], #[trigger] w@[j]),
        decreases w@.len() - k,
    {
        let idx: usize = i + k;
        if !char_ci_eq(text[idx], w[k]) {
            assert(!ci_eq(text@[i as int + k as int], w@[k as int]));
            return false;
        }
        k = k + 1;
    }
    true
}

/// First index at or after `i` holding `c`, or the length if there is none.
pub open spec fn find_char_from(s: Seq<char>, c: char, i: int) -> int
    decreases s.len() - i,
{
    if 0 <= i && i < s.len() {
        if s[i] == c {
            i
        } else {
            find_char_from(s, c, i + 1)
        }
    } else {
        s.len() as int
    }
}

pub proof fn lemma_find_char_from(s: Seq<char>, c: char, i: int)
    requires
        0 <= i <= s.len(),
    ensures
        i <= find_char_from(s, c, i) <= s.len(),
        find_char_from(s, c, i) < s.len() ==> s[find_char_from(s, c, i)] == c,
        forall|k: int| i <= k < find_char_from(s, c, i) ==> s[k] != c,
    decreases s.len() - i,
{
    if i < s.len() && s[i] != c {
        lemma_find_char_from(s, c, i + 1);
    }
}

pub fn find_char(v: &Vec<char>, c: char, i: usize) -> (r: usize)
    requires
        i <= v@.len(),
    ensures
        r == find_char_from(v@, c, i as int),
{
    let mut j: usize = i;
    while j < v.len()
        invariant
            i <= j <= v@.len(),
            find_char_from(v@, c, i as int) == find_char_from(v@, c, j as int),
        decreases v@.len() - j,
    {
        if v[j] == c {
            return j;
        }
        j = j + 1;
    }
    j
}

/// First index at or after `i` holding a character that is not whitespace,
/// or the length if all the rest is whitespace.
pub open spec fn skip_ws(s: Seq<char>, i: int) -> int
    decreases s.len() - i,
{
    if 0 <= i && i < s.len() && is_ws(s[i]) {
        skip_ws(s, i + 1)
    } else {
        i
    }
}

pub proof fn lemma_skip_ws(s: Seq<char>, i: int)
    requires
        0 <= i <= s.len(),
    ensures
        i <= skip_ws(s, i) <= s.len(),
        forall|k: int| i <= k < skip_ws(s, i) ==> is_ws(s[k]),
        skip_ws(s, i) < s.len() ==> !is_ws(s[skip_ws(s, i)]),
    decreases s.len() - i,
{
    if i < s.len() && is_ws(s[i]) {
        lemma_skip_ws(s, i + 1);
    }
}

pub fn skip_ws_exec(v: &Vec<char>, i: usize) -> (r: usize)
    requires
        i <= v@.len(),
    ensures
        r == skip_ws(v@, i as int),
{
    let mut j: usize = i;
    while j < v.len() && char_is_ws(v[j])
        invariant
            i <= j <= v@.len(),
            skip_ws(v@, i as int) == skip_ws(v@, j as int),
        decreases v@.len() - j,
    {
        j = j + 1;
    }
    j
}

/// End of the trailing whitespace run that finishes at index `i`
/// (exclusive): the least index `b <= i` such that everything in `[b, i)`
/// is whitespace and `s[b - 1]` is not.
pub open spec fn skip_ws_rev(s: Seq<char>, i: int) -> int
    decreases i,
{
    if 0 < i && i <= s.len() && is_ws(s[i - 1]) {
        skip_ws_rev(s, i - 1)
    } else {
        i
    }
}

pub proof fn lemma_skip_ws_rev(s: Seq<char>, i: int)
    requires
        0 <= i <= s.len(),
    ensures
        0 <= skip_ws_rev(s, i) <= i,
        forall|k: int| skip_ws_rev(s, i) <= k < i ==> is_ws(s[k]),
        skip_ws_rev(s, i) > 0 ==> !is_ws(s[skip_ws_rev(s, i) - 1]),
    decreases i,
{
    if 0 < i && is_ws(s[i - 1]) {
        lemma_skip_ws_rev(s, i - 1);
    }
}

pub fn skip_ws_rev_exec(v: &Vec<char>, i: usize) -> (r: usize)
    requires
        i <= v@.len(),
    ensures
        r == skip_ws_rev(v@, i as int),
{
    let mut j: usize = i;
    while j > 0 && char_is_ws(v[j - 1])
        invariant
            j <= i <= v@.len(),
            skip_ws_rev(v@, i as int) == skip_ws_rev(v@, j as int),
        decreases j,
    {
        j = j - 1;
    }
    j
}

/// The views of a vector of character vectors.
pub open spec fn seq_views(ss: Seq<Vec<char>>) -> Seq<Seq<char>> {
    Seq::new(ss.len(), |i: int| ss[i]@)
}

/// All characters in `[a, b)` are decimal digits.
pub open spec fn all_digits(s: Seq<char>, a: int, b: int) -> bool {
    forall|k: int| a <= k < b ==> is_digit(#[trigger] s[k])
}

/// Value of the decimal digit string `s[a..b)`.
pub open spec fn digits_val(s: Seq<char>, a: int, b: int) -> int
    decreases b - a,
{
    if a >= b {
        0
    } else {
        digits_val(s, a, b - 1) * 10 + digit_val(s[b - 1])
    }
}

pub proof fn lemma_digits_val_bounds(s: Seq<char>, a: int, b: int)
    requires
        a <= b,
        all_digits(s, a, b),
    ensures
        digits_val(s, a, b) >= 0,
        forall|j: int| a <= j <= b ==> #[trigger] digits_val(s, a, j) <= digits_val(s, a, b),
    decreases b - a,
{
    if a < b {
        lemma_digits_val_bounds(s, a, b - 1);
        assert forall|j: int| a <= j <= b implies #[trigger] digits_val(s, a, j) <= digits_val(
            s,
            a,
            b,
        ) by {
            if j < b {
                assert(digits_val(s, a, j) <= digits_val(s, a, b - 1));
                assert(digits_val(s, a, b - 1) <= digits_val(s, a, b - 1) * 10);
                assert(0 <= digit_val(s[b - 1]));
            }
        }
    }
}

/// Parse the digit run `v[a..b)` as a `u64`; `None` when the value does
/// not fit.
pub fn parse_u64(v: &Vec<char>, a: usize, b: usize) -> (r: Option<u64>)
    requires
        a <= b <= v@.len(),
        all_digits(v@, a as int, b as int),
    ensures
        match r {
            Some(x) => x as int == digits_val(v@, a as int, b as int),
            None => digits_val(v@, a as int, b as int) > u64::MAX,
        },
{
    proof {
        lemma_digits_val_bounds(v@, a as int, b as int);
    }
    let mut acc: u64 = 0;
    let mut k: usize = a;
    while k < b
        invariant
            a <= k <= b <= v@.len(),
            all_digits(v@, a as int, b as int),
            acc as int == digits_val(v@, a as int, k as int),
            forall|j: int| a <= j <= b ==> #[trigger] digits_val(v@, a as int, j) <= digits_val(
                v@,
                a as int,
                b as int,
            ),
        decreases b - k,
    {
        let c = v[k];
        assert(is_digit(v@[k as int]));
        let d: u64 = (c as u32 as u64) - 48;
        assert(d as int == digit_val(v@[k as int]));
        let shifted = match acc.checked_mul(10) {
            Some(x) => x,
            None => {
                proof {
                    assert(digits_val(v@, a as int, k as int + 1) == acc as int * 10 + d);
                    assert(digits_val(v@, a as int, k as int + 1) <= digits_val(
                        v@,
                        a as int,
                        b as int,
                    ));
                }
                return None;
            },
        };
        let next = match shifted.checked_add(d) {
            Some(x) => x,
            None => {
                proof {
                    assert(digits_val(v@, a as int, k as int + 1) == acc as int * 10 + d);
                    assert(digits_val(v@, a as int, k as int + 1) <= digits_val(
                        v@,
                        a as int,
                        b as int,
                    ));
                }
                return None;
            },
        };
        acc = next;
        k = k + 1;
    }
    Some(acc)
}

/// First index at or after `i` holding a character that is not a decimal
/// digit, or the length if only digits remain.
pub open spec fn skip_digits(s: Seq<char>, i: int) -> int
    decreases s.len() - i,
{
    if 0 <= i && i < s.len() && is_digit(s[i]) {
        skip_digits(s, i + 1)
    } else {
        i
    }
}

pub proof fn lemma_skip_digits(s: Seq<char>, i: int)
    requires
        0 <= i <= s.len(),
    ensures
        i <= skip_digits(s, i) <= s.len(),
        all_digits(s, i, skip_digits(s, i)),
        skip_digits(s, i) < s.len() ==> !is_digit(s[skip_digits(s, i)]),
    decreases s.len() - i,
{
    if i < s.len() && is_digit(s[i]) {
        lemma_skip_digits(s, i + 1);
    }
}

pub fn skip_digits_exec(v: &Vec<char>, i: usize) -> (r: usize)
    requires
        i <= v@.len(),
    ensures
        r == skip_digits(v@, i as int),
{
    let mut j: usize = i;
    while j < v.len() && char_is_digit(v[j])
        invariant
            i <= j <= v@.len(),
            skip_digits(v@, i as int) == skip_digits(v@, j as int),
        decreases v@.len() - j,
    {
        j = j + 1;
    }
    j
}

/// The decimal rendering of a non-negative number.
pub open spec fn dec_digits(n: int) -> Seq<char>
    decreases n,
{
    if n < 10 {
        seq![digit_char_spec(n)]
    } else {
        dec_digits(n / 10).push(digit_char_spec(n % 10))
    }
}

/// The character for one decimal digit.
pub open spec fn digit_char_spec(d: int) -> char {
    if d == 0 {
        '0'
    } else if d == 1 {
        '1'
    } else if d == 2 {
        '2'
    } else if d == 3 {
        '3'
    } else if d == 4 {
        '4'
    } else if d == 5 {
        '5'
    } else if d == 6 {
        '6'
    } else if d == 7 {
        '7'
    } else if d == 8 {
        '8'
    } else {
        '9'
    }
}

fn digit_char(d: u64) -> (c: char)
    requires
        d < 10,
    ensures
        c == digit_char_spec(d as int),
{
    if d == 0 {
        '0'
    } else if d == 1 {
        '1'
    } else if d == 2 {
        '2'
    } else if d == 3 {
        '3'
    } else if d == 4 {
        '4'
    } else if d == 5 {
        '5'
    } else if d == 6 {
        '6'
    } else if d == 7 {
        '7'
    } else if d == 8 {
        '8'
    } else {
        '9'
    }
}

fn push_decimal(out: &mut Vec<char>, n: u64)
    ensures
        final(out)@ == old(out)@ + dec_digits(n as int),
    decreases n,
{
    if n < 10 {
        out.push(digit_char(n));
        assert(out@ =~= old(out)@ + dec_digits(n as int));
    } else {
        push_decimal(out, n / 10);
        out.push(digit_char(n % 10));
        assert(out@ =~= old(out)@ + dec_digits(n as int));
    }
}

/// The decimal rendering of `n` as a string.
pub fn decimal_string(n: u64) -> (r: String)
    ensures
        r@ == dec_digits(n as int),
{
    let mut v: Vec<char> = Vec::new();
    push_decimal(&mut v, n);
    assert(v@ =~= dec_digits(n as int));
    string_from_chars(&v)
}

/// The pattern occurs at position `i`, compared exactly (case-sensitive).
pub open spec fn seq_match_at(text: Seq<char>, pat: Seq<char>, i: int) -> bool {
    &&& 0 <= i
    &&& i + pat.len() <= text.len()
    &&& forall|k: int| 0 <= k < pat.len() ==> text[i + k] == #[trigger] pat[k]
}

/// The pattern occurs somewhere in the text, compared exactly.
pub open spec fn contains_seq(text: Seq<char>, pat: Seq<char>) -> bool {
    exists|i: int| seq_match_at(text, pat, i)
}

pub fn seq_match_at_exec(text: &Vec<char>, pat: &Vec<char>, i: usize) -> (r: bool)
    requires
        i <= text@.len(),
    ensures
        r == seq_match_at(text@, pat@, i as int),
{
    let n = text.len();
    if pat.len() > n - i {
        return false;
    }
    let mut k: usize = 0;
    while k < pat.len()
        invariant
            i + pat@.len() <= text@.len(),
            text@.len() <= usize::MAX,
            k <= pat@.len(),
            forall|j: int| 0 <= j < k ==> text@[i + j] == #[trigger] pat@[j],
        decreases pat@.len() - k,
    {
        let idx: usize = i + k;
        if text[idx] != pat[k] {
            assert(text@[i as int + k as int] != pat@[k as int]);
            return false;
        }
        k = k + 1;
    }
    true
}

/// Exact (case-sensitive) substring search.
pub fn contains_chars(text: &Vec<char>, pat: &Vec<char>) -> (r: bool)
    ensures
        r == contains_seq(text@, pat@),
{
    let n = text.len();
    if pat.len() == 0 {
        assert(seq_match_at(text@, pat@, 0));
        return true;
    }
    let mut i: usize = 0;
    while i < n
        invariant
            i <= n,
            n == text@.len(),
            pat@.len() > 0,
            forall|i2: int| 0 <= i2 < i ==> !seq_match_at(text@, pat@, i2),
        decreases n - i,
    {
        if seq_match_at_exec(text, pat, i) {
            return true;
        }
        i = i + 1;
    }
    proof {
        if contains_seq(text@, pat@) {
            let i2 = choose|i2: int| seq_match_at(text@, pat@, i2);
            assert(i2 + pat@.len() <= text@.len());
            assert(false);
        }
    }
    false
}

/// Equality of two character vectors.
pub fn chars_eq(a: &Vec<char>, b: &Vec<char>) -> (r: bool)
    ensures
        r == (a@ == b@),
{
    if a.len() != b.len() {
        return false;
    }
    let mut i: usize = 0;
    while i < a.len()
        invariant
            a@.len() == b@.len(),
            i <= a@.len(),
            forall|k: int| 0 <= k < i ==> a@[k] == b@[k],
        decreases a@.len() - i,
    {
        if a[i] != b[i] {
            return false;
        }
        i = i + 1;
    }
    proof {
        assert(a@ =~= b@);
    }
    true
}

/// Equality of a character vector and a string slice.
pub fn chars_eq_str(v: &Vec<char>, s: &str) -> (r: bool)
    ensures
        r == (v@ == s@),
{
    let sc = chars_of(s);
    chars_eq(v, &sc)
}

/// A raw line with a final carriage return removed.
pub open spec fn strip_cr(s: Seq<char>) -> Seq<char> {
    if s.len() > 0 && s[s.len() - 1] == '\r' {
        s.drop_last()
    } else {
        s
    }
}

/// The lines of the text starting at position `i`: split on newline
/// characters, dropping each newline and a carriage return directly
/// before it; a final fragment without a newline is kept as it stands.
pub open spec fn spec_lines_from(s: Seq<char>, i: int) -> Seq<Seq<char>>
    decreases s.len() - i,
{
    if !(0 <= i < s.len()) {
        Seq::empty()
    } else {
        let nl = find_char_from(s, '\n', i);
        if nl == s.len() {
            seq![s.subrange(i, s.len() as int)]
        } else {
            proof {
                lemma_find_char_from(s, '\n', i);
            }
            seq![strip_cr(s.subrange(i, nl))] + spec_lines_from(s, nl + 1)
        }
    }
}

/// The lines of the whole text.
pub open spec fn spec_lines(s: Seq<char>) -> Seq<Seq<char>> {
    spec_lines_from(s, 0)
}

/// Split a text into its lines.
pub fn split_lines(v: &Vec<char>) -> (r: Vec<Vec<char>>)
    ensures
        seq_views(r@) == spec_lines(v@),
{
    let ghost tw = v@;
    let mut r: Vec<Vec<char>> = Vec::new();
    let mut pos: usize = 0;
    while pos < v.len()
        invariant
            pos <= tw.len(),
            tw == v@,
            spec_lines(tw) == seq_views(r@) + spec_lines_from(tw, pos as int),
        decreases tw.len() - pos,
    {
        proof {
            lemma_find_char_from(tw, '\n', pos as int);
        }
        let nl = find_char(v, '\n', pos);
        if nl == v.len() {
            let line = subvec(v, pos, nl);
            r.push(line);
            proof {
                assert(seq_views(r@) =~= seq_views(r@.drop_last()) + seq![tw.subrange(
                    pos as int,
                    tw.len() as int,
                )]);
                assert(seq_views(r@) + spec_lines_from(tw, tw.len() as int) =~= spec_lines(tw));
            }
            pos = v.len();
        } else {
            let mut line_end = nl;
            if line_end > pos && v[line_end - 1] == '\r' {
                line_end = line_end - 1;
            }
            let line = subvec(v, pos, line_end);
            proof {
                assert(line@ =~= strip_cr(tw.subrange(pos as int, nl as int)));
            }
            r.push(line);
            proof {
                assert(seq_views(r@) =~= seq_views(r@.drop_last()) + seq![strip_cr(
                    tw.subrange(pos as int, nl as int),
                )]);
                assert(seq_views(r@) + spec_lines_from(tw, nl as int + 1) =~= spec_lines(tw));
            }
            pos = nl + 1;
        }
    }
    proof {
        assert(seq_views(r@) + spec_lines_from(tw, pos as int) =~= seq_views(r@));
    }
    r
}

/// The sequence with leading and trailing whitespace removed.
pub open spec fn trim_spec(s: Seq<char>) -> Seq<char> {
    let a = skip_ws(s, 0);
    let b = skip_ws_rev(s, s.len() as int);
    if a <= b {
        s.subrange(a, b)
    } else {
        Seq::empty()
    }
}

pub fn trim_chars(v: &Vec<char>) -> (r: Vec<char>)
    ensures
        r@ == trim_spec(v@),
{
    proof {
        lemma_skip_ws(v@, 0);
        lemma_skip_ws_rev(v@, v@.len() as int);
    }
    let a = skip_ws_exec(v, 0);
    let b = skip_ws_rev_exec(v, v.len());
    if a <= b {
        subvec(v, a, b)
    } else {
        Vec::new()
    }
}

} // verus!
