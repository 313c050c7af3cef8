//! Character-sequence utilities behind the utility-class parser: whitespace
//! tokenizing, pattern removal, substring tests, and fixed-point decimal
//! parsing.
//!
//! Numeric values are held in thousandths of a unit ("millis"), so that
//! `"3.5"` parses to `3500`, `"40"` to `40000` and `"1e3"` to `1000000`.

use vstd::prelude::*;
use vstd::string::StrSliceExecFns;

verus! {

/// The characters of a string, as a vector.
#[verifier::loop_isolation(false)]
pub fn str_chars(s: &str) -> (v: Vec<char>)
    ensures
        v@ == s@,
{
    let n = s.unicode_len();
    let mut v: Vec<char> = Vec::new();
    let mut i: usize = 0;
    while i < n
        invariant
            n == s@.len(),
            i <= n,
            v@ == s@.take(i as int),
        decreases n - i,
    {
        v.push(s.get_char(i));
        proof {
            assert(v@ =~= s@.take(i + 1));
        }
        i = i + 1;
    }
    proof {
        assert(s@.take(n as int) =~= s@);
    }
    v
}

/// The pattern `p` occurs in `s` at position `i`.
pub open spec fn matches_at(s: Seq<char>, p: Seq<char>, i: int) -> bool {
    0 <= i && i + p.len() <= s.len() && s.subrange(i, i + p.len()) == p
}

#[verifier::loop_isolation(false)]
pub fn slice_matches_at(s: &[char], p: &[char], i: usize) -> (b: bool)
    requires
        i <= s@.len(),
    ensures
        b == matches_at(s@, p@, i as int),
{
    if s.len() - i < p.len() {
        return false;
    }
    let mut j: usize = 0;
    while j < p.len()
        invariant
            i + p@.len() <= s@.len(),
            j <= p@.len(),
            forall|k: int| 0 <= k < j ==> s@[i + k] == p@[k],
        decreases p@.len() - j,
    {
        if s[i + j] != p[j] {
            proof {
                assert(s@.subrange(i as int, i + p@.len())[j as int] != p@[j as int]);
            }
            return false;
        }
        j = j + 1;
    }
    proof {
        assert(s@.subrange(i as int, i + p@.len()) =~= p@);
    }
    true
}

/// `s` with every non-overlapping occurrence of the pattern `p` removed,
/// scanning left to right.
pub open spec fn spec_remove_all(s: Seq<char>, p: Seq<char>) -> Seq<char>
    decreases s.len(),
{
    if p.len() == 0 || s.len() == 0 {
        s
    } else if matches_at(s, p, 0) {
        spec_remove_all(s.skip(p.len() as int), p)
    } else {
        seq![s[0]] + spec_remove_all(s.skip(1), p)
    }
}

proof fn lemma_matches_at_shift(s: Seq<char>, p: Seq<char>, i: int)
    requires
        0 <= i <= s.len(),
    ensures
        matches_at(s, p, i) == matches_at(s.skip(i), p, 0),
{
    if i + p.len() <= s.len() {
        assert(s.skip(i).subrange(0, p.len() as int) =~= s.subrange(i, i + p.len()));
    }
}

#[verifier::loop_isolation(false)]
pub fn remove_all(s: &[char], p: &[char]) -> (r: Vec<char>)
    requires
        p@.len() > 0,
    ensures
        r@ == spec_remove_all(s@, p@),
{
    let mut out: Vec<char> = Vec::new();
    let mut i: usize = 0;
    proof {
        assert(s@.skip(0) =~= s@);
        assert(Seq::<char>::empty() + spec_remove_all(s@, p@) =~= spec_remove_all(s@, p@));
    }
    while i < s.len()
        invariant
            p@.len() > 0,
            i <= s@.len(),
            spec_remove_all(s@, p@) == out@ + spec_remove_all(s@.skip(i as int), p@),
        decreases s@.len() - i,
    {
        proof {
            lemma_matches_at_shift(s@, p@, i as int);
        }
        if slice_matches_at(s, p, i) {
            proof {
                assert(s@.skip(i as int).skip(p@.len() as int) =~= s@.skip(i + p@.len()));
            }
            i = i + p.len();
        } else {
            let ghost old_out = out@;
            out.push(s[i]);
            proof {
                assert(s@.skip(i as int)[0] == s@[i as int]);
                assert(s@.skip(i as int).skip(1) =~= s@.skip(i + 1));
                assert(out@ + spec_remove_all(s@.skip(i + 1), p@) =~= old_out + spec_remove_all(
                    s@.skip(i as int),
                    p@,
                ));
            }
            i = i + 1;
        }
    }
    proof {
        assert(s@.skip(s@.len() as int) =~= Seq::<char>::empty());
        assert(out@ + Seq::<char>::empty() =~= out@);
    }
    out
}

pub open spec fn contains_char(s: Seq<char>, c: char) -> bool {
    exists|i: int| 0 <= i < s.len() && s[i] == c
}

#[verifier::loop_isolation(false)]
pub fn slice_contains_char(s: &[char], c: char) -> (b: bool)
    ensures
        b == contains_char(s@, c),
{
    let mut i: usize = 0;
    while i < s.len()
        invariant
            i <= s@.len(),
            forall|j: int| 0 <= j < i ==> s@[j] != c,
        decreases s@.len() - i,
    {
        if s[i] == c {
            return true;
        }
        i = i + 1;
    }
    false
}

/// The pattern `p` occurs somewhere in `s`.
pub open spec fn contains_seq(s: Seq<char>, p: Seq<char>) -> bool {
    exists|i: int| matches_at(s, p, i)
}

#[verifier::loop_isolation(false)]
pub fn slice_contains_seq(s: &[char], p: &[char]) -> (b: bool)
    requires
        p@.len() > 0,
    ensures
        b == contains_seq(s@, p@),
{
    if p.len() > s.len() {
        return false;
    }
    let last = s.len() - p.len();
    let mut i: usize = 0;
    while i <= last
        invariant
            p@.len() <= s@.len(),
            last == s@.len() - p@.len(),
            i <= last + 1,
            forall|j: int| 0 <= j < i ==> !matches_at(s@, p@, j),
        decreases last + 1 - i,
    {
        if slice_matches_at(s, p, i) {
            return true;
        }
        i = i + 1;
    }
    false
}

/// `s` ends with the pattern `p`.
pub open spec fn ends_with(s: Seq<char>, p: Seq<char>) -> bool {
    p.len() <= s.len() && matches_at(s, p, s.len() - p.len())
}

pub fn slice_ends_with(s: &[char], p: &[char]) -> (b: bool)
    ensures
        b == ends_with(s@, p@),
{
    if p.len() > s.len() {
        return false;
    }
    slice_matches_at(s, p, s.len() - p.len())
}

/// `s` starts with the pattern `p`.
pub open spec fn starts_with(s: Seq<char>, p: Seq<char>) -> bool {
    matches_at(s, p, 0)
}

pub fn slice_starts_with(s: &[char], p: &[char]) -> (b: bool)
    ensures
        b == starts_with(s@, p@),
{
    slice_matches_at(s, p, 0)
}

pub fn slice_eq(s: &[char], p: &[char]) -> (b: bool)
    ensures
        b == (s@ == p@),
{
    if s.len() != p.len() {
        return false;
    }
    let b = slice_matches_at(s, p, 0);
    proof {
        assert(s@.subrange(0, p@.len() as int) =~= s@);
    }
    b
}

// --- whitespace tokenizing ---

/// The whitespace that separates utility-class tokens.
pub open spec fn is_space(c: char) -> bool {
    c == ' ' || c == '\t' || c == '\n' || c == '\r' || c == '\u{0b}' || c == '\u{0c}'
}

pub fn char_is_space(c: char) -> (b: bool)
    ensures
        b == is_space(c),
{
    c == ' ' || c == '\t' || c == '\n' || c == '\r' || c == '\u{0b}' || c == '\u{0c}'
}

/// The length of the leading run of non-space characters.
pub open spec fn token_len(s: Seq<char>) -> int
    decreases s.len(),
{
    if s.len() == 0 || is_space(s[0]) {
        0
    } else {
        1 + token_len(s.skip(1))
    }
}

proof fn lemma_token_len_bounds(s: Seq<char>)
    ensures
        0 <= token_len(s) <= s.len(),
    decreases s.len(),
{
    if s.len() == 0 || is_space(s[0]) {
    } else {
        lemma_token_len_bounds(s.skip(1));
    }
}

proof fn lemma_token_len_is(s: Seq<char>, n: int)
    requires
        0 <= n <= s.len(),
        forall|j: int| 0 <= j < n ==> !is_space(#[trigger] s[j]),
        n == s.len() || is_space(s[n]),
    ensures
        token_len(s) == n,
    decreases n,
{
    if n == 0 {
    } else {
        assert(!is_space(s[0]));
        assert forall|j: int| 0 <= j < n - 1 implies !is_space(#[trigger] s.skip(1)[j]) by {
            assert(s.skip(1)[j] == s[j + 1]);
        }
        if n - 1 < s.skip(1).len() {
            assert(s.skip(1)[n - 1] == s[n as int]);
        }
        lemma_token_len_is(s.skip(1), n - 1);
    }
}

/// The whitespace-separated tokens of `s`, in order.
pub open spec fn spec_tokens(s: Seq<char>) -> Seq<Seq<char>>
    decreases s.len(),
    via spec_tokens_decreases
{
    if s.len() == 0 {
        Seq::empty()
    } else if is_space(s[0]) {
        spec_tokens(s.skip(1))
    } else {
        seq![s.take(token_len(s))] + spec_tokens(s.skip(token_len(s)))
    }
}

#[via_fn]
proof fn spec_tokens_decreases(s: Seq<char>) {
    if s.len() > 0 && !is_space(s[0]) {
        lemma_token_len_bounds(s.skip(1));
        lemma_token_len_bounds(s);
    }
}

/// The views of a vector of character vectors.
pub open spec fn views_of(toks: Seq<Vec<char>>) -> Seq<Seq<char>> {
    toks.map_values(|t: Vec<char>| t@)
}

#[verifier::rlimit(60)]
#[verifier::loop_isolation(false)]
pub fn tokenize(s: &[char]) -> (toks: Vec<Vec<char>>)
    ensures
        views_of(toks@) == spec_tokens(s@),
{
    let mut toks: Vec<Vec<char>> = Vec::new();
    let mut i: usize = 0;
    proof {
        assert(views_of(toks@) =~= Seq::<Seq<char>>::empty());
        assert(s@.skip(0) =~= s@);
    }
    while i < s.len()
        invariant
            i <= s@.len(),
            spec_tokens(s@) == views_of(toks@) + spec_tokens(s@.skip(i as int)),
        decreases s@.len() - i,
    {
        if char_is_space(s[i]) {
            proof {
                assert(s@.skip(i as int)[0] == s@[i as int]);
                assert(s@.skip(i as int).skip(1) =~= s@.skip(i + 1));
            }
            i = i + 1;
        } else {
            let ghost start = i as int;
            let mut tok: Vec<char> = Vec::new();
            let mut done = false;
            proof {
                assert(tok@ =~= s@.subrange(start, start));
            }
            while !done && i < s.len()
                invariant
                    start <= i <= s@.len(),
                    start < s@.len(),
                    !is_space(s@[start]),
                    forall|j: int| start <= j < i ==> !is_space(#[trigger] s@[j]),
                    tok@ == s@.subrange(start, i as int),
                    done ==> i < s@.len() && is_space(s@[i as int]),
                decreases s@.len() - i + (if done { 0int } else { 1int }),
            {
                if char_is_space(s[i]) {
                    done = true;
                } else {
                    tok.push(s[i]);
                    proof {
                        assert(tok@ =~= s@.subrange(start, i + 1));
                    }
                    i = i + 1;
                }
            }
            proof {
                let sk = s@.skip(start);
                assert forall|j: int| 0 <= j < i - start implies !is_space(#[trigger] sk[j]) by {
                    assert(sk[j] == s@[start + j]);
                }
                if i - start < sk.len() {
                    assert(sk[i - start] == s@[i as int]);
                }
                lemma_token_len_is(sk, i - start);
                assert(sk.take(i - start) =~= s@.subrange(start, i as int));
                assert(sk.skip(i - start) =~= s@.skip(i as int));
                let ghost old_views = views_of(toks@);
                assert(spec_tokens(sk) == seq![tok@] + spec_tokens(s@.skip(i as int)));
                assert(views_of(toks@.push(tok)) =~= old_views + seq![tok@]);
                assert(old_views + (seq![tok@] + spec_tokens(s@.skip(i as int))) =~= (old_views
                    + seq![tok@]) + spec_tokens(s@.skip(i as int)));
            }
            toks.push(tok);
        }
    }
    proof {
        assert(s@.skip(s@.len() as int) =~= Seq::<char>::empty());
        assert(views_of(toks@) + Seq::<Seq<char>>::empty() =~= views_of(toks@));
    }
    toks
}

// --- fixed-point decimal parsing ---

pub open spec fn is_digit(c: char) -> bool {
    '0' <= c && c <= '9'
}

pub open spec fn digit_val(c: char) -> int {
    c as int - '0' as int
}

pub open spec fn all_digits(s: Seq<char>) -> bool {
    forall|i: int| 0 <= i < s.len() ==> is_digit(#[trigger] s[i])
}

/// The number written by a run of decimal digits, most significant first.
pub open spec fn digits_val(s: Seq<char>) -> int
    decreases s.len(),
{
    if s.len() == 0 {
        0
    } else {
        digits_val(s.drop_last()) * 10 + digit_val(s.last())
    }
}

proof fn lemma_digits_val_nonneg(s: Seq<char>)
    requires
        all_digits(s),
    ensures
        digits_val(s) >= 0,
    decreases s.len(),
{
    if s.len() > 0 {
        assert(all_digits(s.drop_last()));
        lemma_digits_val_nonneg(s.drop_last());
    }
}

proof fn lemma_digits_val_prefix_le(s: Seq<char>, i: int)
    requires
        all_digits(s),
        0 <= i <= s.len(),
    ensures
        digits_val(s.take(i)) <= digits_val(s),
    decreases s.len() - i,
{
    if i < s.len() {
        assert(s.take(i + 1).drop_last() =~= s.take(i));
        assert(s.take(i + 1).last() == s[i]);
        assert(all_digits(s.take(i)));
        lemma_digits_val_nonneg(s.take(i));
        lemma_digits_val_prefix_le(s, i + 1);
    } else {
        assert(s.take(i) =~= s);
    }
}

/// The position of the first `.` in `s`, or `s.len()` when there is none.
pub open spec fn first_dot(s: Seq<char>) -> int
    decreases s.len(),
{
    if s.len() == 0 {
        0
    } else if s[0] == '.' {
        0
    } else {
        1 + first_dot(s.skip(1))
    }
}

proof fn lemma_first_dot_is(s: Seq<char>, n: int)
    requires
        0 <= n <= s.len(),
        forall|j: int| 0 <= j < n ==> #[trigger] s[j] != '.',
        n == s.len() || s[n] == '.',
    ensures
        first_dot(s) == n,
    decreases n,
{
    if n == 0 {
    } else {
        assert(s[0] != '.');
        assert forall|j: int| 0 <= j < n - 1 implies #[trigger] s.skip(1)[j] != '.' by {
            assert(s.skip(1)[j] == s[j + 1]);
        }
        if n - 1 < s.skip(1).len() {
            assert(s.skip(1)[n - 1] == s[n as int]);
        }
        lemma_first_dot_is(s.skip(1), n - 1);
    }
}

/// The marker that begins an exponent part.
pub open spec fn is_exp_mark(c: char) -> bool {
    c == 'e' || c == 'E'
}

/// The position of the first `e` or `E` in `s`, or `s.len()` when there
/// is none.
pub open spec fn first_exp_mark(s: Seq<char>) -> int
    decreases s.len(),
{
    if s.len() == 0 {
        0
    } else if is_exp_mark(s[0]) {
        0
    } else {
        1 + first_exp_mark(s.skip(1))
    }
}

proof fn lemma_first_exp_mark_is(s: Seq<char>, n: int)
    requires
        0 <= n <= s.len(),
        forall|j: int| 0 <= j < n ==> !is_exp_mark(#[trigger] s[j]),
        n == s.len() || is_exp_mark(s[n]),
    ensures
        first_exp_mark(s) == n,
    decreases n,
{
    if n == 0 {
    } else {
        assert(!is_exp_mark(s[0]));
        assert forall|j: int| 0 <= j < n - 1 implies !is_exp_mark(#[trigger] s.skip(1)[j]) by {
            assert(s.skip(1)[j] == s[j + 1]);
        }
        if n - 1 < s.skip(1).len() {
            assert(s.skip(1)[n - 1] == s[n as int]);
        }
        lemma_first_exp_mark_is(s.skip(1), n - 1);
    }
}

/// Ten to the `n`.
pub open spec fn pow10(n: nat) -> int
    decreases n,
{
    if n == 0 {
        1
    } else {
        10 * pow10((n - 1) as nat)
    }
}

proof fn lemma_pow10_pos(n: nat)
    ensures
        pow10(n) >= 1,
    decreases n,
{
    if n > 0 {
        lemma_pow10_pos((n - 1) as nat);
    }
}

proof fn lemma_pow10_monotone(m: nat, n: nat)
    requires
        m <= n,
    ensures
        pow10(m) <= pow10(n),
    decreases n,
{
    if m < n {
        lemma_pow10_monotone(m, (n - 1) as nat);
        lemma_pow10_pos((n - 1) as nat);
    }
}

/// A digit string's value stays below ten to its length.
proof fn lemma_digits_val_below_pow10(s: Seq<char>)
    requires
        all_digits(s),
    ensures
        digits_val(s) < pow10(s.len()),
    decreases s.len(),
{
    if s.len() > 0 {
        assert(all_digits(s.drop_last()));
        lemma_digits_val_below_pow10(s.drop_last());
    }
}

/// The digits of an exponent part, after its optional sign.
pub open spec fn exp_digits(p: Seq<char>) -> Seq<char> {
    if p.len() > 0 && (p[0] == '-' || p[0] == '+') {
        p.skip(1)
    } else {
        p
    }
}

/// A well-formed exponent part: an optional sign and one to nine digits.
pub open spec fn exp_wf(p: Seq<char>) -> bool {
    1 <= exp_digits(p).len() <= 9 && all_digits(exp_digits(p))
}

/// The value of a well-formed exponent part.
pub open spec fn exp_val(p: Seq<char>) -> int {
    if p.len() > 0 && p[0] == '-' {
        -digits_val(exp_digits(p))
    } else {
        digits_val(exp_digits(p))
    }
}

/// The thousandths written by the digit string `s` when the decimal point
/// stands `q` places in: zero when no digit is left of the point, and the
/// digits right of it dropped.
pub open spec fn shifted_millis(s: Seq<char>, q: int) -> int {
    if q <= 0 {
        0
    } else if q < s.len() {
        digits_val(s.take(q))
    } else {
        digits_val(s) * pow10((q - s.len()) as nat)
    }
}

/// The smallest rejected size: a billion whole units, in thousandths.
pub open spec fn max_millis() -> int {
    1000000000000
}

/// An unsigned fixed-point decimal with an optional exponent: digits with
/// at most one `.` and at least one digit, up to twelve digits on each
/// side of the point, then optionally `e` or `E` with a signed exponent of
/// up to nine digits. The value is in thousandths, truncated past the
/// third decimal place; values of a billion units and beyond are
/// rejected.
pub open spec fn spec_parse_unsigned_millis(s: Seq<char>) -> Option<int> {
    let m = first_exp_mark(s);
    let mant = s.take(m);
    let d = first_dot(mant);
    let ip = mant.take(d);
    let fp = if d < mant.len() {
        mant.skip(d + 1)
    } else {
        Seq::<char>::empty()
    };
    if !all_digits(ip) || !all_digits(fp) || (ip.len() == 0 && fp.len() == 0) || ip.len() > 12
        || fp.len() > 12 || (m < s.len() && !exp_wf(s.skip(m + 1))) {
        None
    } else {
        let e = if m < s.len() {
            exp_val(s.skip(m + 1))
        } else {
            0
        };
        let v = shifted_millis(ip + fp, ip.len() + e + 3);
        if v >= max_millis() {
            None
        } else {
            Some(v)
        }
    }
}

/// A signed fixed-point decimal: an optional `+` or `-` sign before the
/// unsigned form.
pub open spec fn spec_parse_millis(s: Seq<char>) -> Option<int> {
    if s.len() > 0 && (s[0] == '-' || s[0] == '+') {
        match spec_parse_unsigned_millis(s.skip(1)) {
            Some(v) => Some(if s[0] == '-' { -v } else { v }),
            None => None,
        }
    } else {
        spec_parse_unsigned_millis(s)
    }
}

fn char_digit(c: char) -> (r: Option<u8>)
    ensures
        r is Some <==> is_digit(c),
        r is Some ==> r->0 == digit_val(c),
{
    if '0' <= c && c <= '9' {
        Some(c as u8 - '0' as u8)
    } else {
        None
    }
}

/// Reads a run of digits as a number, `None` when some character is no
/// digit or the value reaches `max_millis()`.
#[verifier::loop_isolation(false)]
fn digits_value(s: &[char]) -> (r: Option<u64>)
    ensures
        r is Some <==> all_digits(s@) && digits_val(s@) < max_millis(),
        r is Some ==> r->0 == digits_val(s@),
{
    let mut acc: u64 = 0;
    let mut i: usize = 0;
    proof {
        assert(s@.take(0) =~= Seq::<char>::empty());
    }
    while i < s.len()
        invariant
            i <= s@.len(),
            all_digits(s@.take(i as int)),
            0 <= acc < max_millis(),
            acc == digits_val(s@.take(i as int)),
        decreases s@.len() - i,
    {
        match char_digit(s[i]) {
            Some(d) => {
                proof {
                    assert(s@.take(i + 1).drop_last() =~= s@.take(i as int));
                    assert(s@.take(i + 1).last() == s@[i as int]);
                    assert(all_digits(s@.take(i + 1)));
                }
                let next = acc * 10 + (d as u64);
                if next >= 1000000000000 {
                    proof {
                        if all_digits(s@) {
                            lemma_digits_val_prefix_le(s@, i + 1);
                            assert(s@.take(s@.len() as int) =~= s@);
                        }
                    }
                    return None;
                }
                acc = next;
                i = i + 1;
            },
            None => {
                proof {
                    assert(!all_digits(s@));
                }
                return None;
            },
        }
    }
    proof {
        assert(s@.take(s@.len() as int) =~= s@);
    }
    Some(acc)
}

/// Parses a signed fixed-point decimal into thousandths.
#[verifier::loop_isolation(false)]
pub fn parse_millis(s: &[char]) -> (r: Option<i64>)
    ensures
        r is Some <==> spec_parse_millis(s@) is Some,
        r is Some ==> r->0 as int == spec_parse_millis(s@)->0,
{
    if s.len() > 0 && (s[0] == '-' || s[0] == '+') {
        let body = vstd::slice::slice_subrange(s, 1, s.len());
        proof {
            assert(body@ =~= s@.skip(1));
        }
        match parse_unsigned_millis(body) {
            Some(v) => Some(if s[0] == '-' { -v } else { v }),
            None => None,
        }
    } else {
        parse_unsigned_millis(s)
    }
}

#[verifier::loop_isolation(false)]
fn check_digits(s: &[char]) -> (b: bool)
    ensures
        b == all_digits(s@),
{
    let mut i: usize = 0;
    while i < s.len()
        invariant
            i <= s@.len(),
            forall|j: int| 0 <= j < i ==> is_digit(#[trigger] s@[j]),
        decreases s@.len() - i,
    {
        match char_digit(s[i]) {
            Some(_) => {
                i = i + 1;
            },
            None => {
                return false;
            },
        }
    }
    true
}

/// Reads an exponent part: an optional sign and one to nine digits.
#[verifier::loop_isolation(false)]
fn exponent_value(p: &[char]) -> (r: Option<i64>)
    ensures
        r is Some <==> exp_wf(p@),
        r is Some ==> r->0 as int == exp_val(p@),
        r is Some ==> -1000000000i64 < r->0 < 1000000000i64,
{
    let neg = p.len() > 0 && p[0] == '-';
    let signed = p.len() > 0 && (p[0] == '-' || p[0] == '+');
    let pd: &[char] = if signed {
        let b = vstd::slice::slice_subrange(p, 1, p.len());
        proof {
            assert(b@ =~= p@.skip(1));
        }
        b
    } else {
        p
    };
    proof {
        assert(pd@ == exp_digits(p@));
    }
    if pd.len() < 1 || pd.len() > 9 {
        return None;
    }
    match digits_value(pd) {
        Some(v) => {
            proof {
                lemma_digits_val_below_pow10(pd@);
                lemma_pow10_monotone(pd@.len() as nat, 9);
                reveal_with_fuel(pow10, 11);
                assert(pow10(9) == 1000000000);
            }
            if neg {
                Some(-(v as i64))
            } else {
                Some(v as i64)
            }
        },
        None => {
            proof {
                if all_digits(pd@) {
                    lemma_digits_val_below_pow10(pd@);
                    lemma_pow10_monotone(pd@.len() as nat, 9);
                    reveal_with_fuel(pow10, 11);
                    assert(pow10(9) == 1000000000);
                }
            }
            None
        },
    }
}

/// Places the decimal point `q` places into a digit string and reads the
/// whole part, `None` when the value reaches `max_millis()`.
#[verifier::loop_isolation(false)]
fn shifted_value(digits: &[char], q: i64) -> (r: Option<u64>)
    requires
        all_digits(digits@),
        digits@.len() <= 24,
    ensures
        r is Some <==> shifted_millis(digits@, q as int) < max_millis(),
        r is Some ==> r->0 as int == shifted_millis(digits@, q as int),
        r is Some ==> r->0 < 1000000000000,
{
    let n = digits.len();
    if q <= 0 {
        return Some(0);
    }
    if q < (n as i64) {
        let prefix = vstd::slice::slice_subrange(digits, 0, q as usize);
        proof {
            assert(prefix@ =~= digits@.take(q as int));
            assert(all_digits(prefix@));
        }
        return digits_value(prefix);
    }
    let k: i64 = q - (n as i64);
    let base = match digits_value(digits) {
        Some(b) => b,
        None => {
            proof {
                lemma_digits_val_nonneg(digits@);
                lemma_pow10_pos(k as nat);
                assert(digits_val(digits@) * pow10(k as nat) >= digits_val(digits@))
                    by (nonlinear_arith)
                    requires
                        digits_val(digits@) >= 0,
                        pow10(k as nat) >= 1,
                ;
            }
            return None;
        },
    };
    if base == 0 {
        proof {
            assert(digits_val(digits@) * pow10(k as nat) == 0) by (nonlinear_arith)
                requires
                    digits_val(digits@) == 0,
            ;
        }
        return Some(0);
    }
    let mut acc = base;
    let mut i: i64 = 0;
    proof {
        assert(pow10(0) == 1);
    }
    while i < k
        invariant
            0 <= i <= k,
            acc as int == (base as int) * pow10(i as nat),
            acc < 1000000000000,
        decreases k - i,
    {
        let next = acc * 10;
        proof {
            assert(pow10((i + 1) as nat) == 10 * pow10(i as nat));
            assert((base as int) * pow10((i + 1) as nat) == 10 * ((base as int) * pow10(
                i as nat,
            ))) by (nonlinear_arith)
                requires
                    pow10((i + 1) as nat) == 10 * pow10(i as nat),
            ;
        }
        if next >= 1000000000000 {
            proof {
                lemma_pow10_monotone((i + 1) as nat, k as nat);
                assert((base as int) * pow10((i + 1) as nat) <= (base as int) * pow10(k as nat))
                    by (nonlinear_arith)
                    requires
                        (base as int) >= 0,
                        pow10((i + 1) as nat) <= pow10(k as nat),
                ;
            }
            return None;
        }
        acc = next;
        i = i + 1;
    }
    Some(acc)
}

#[verifier::loop_isolation(false)]
fn parse_unsigned_millis(s: &[char]) -> (r: Option<i64>)
    ensures
        r is Some <==> spec_parse_unsigned_millis(s@) is Some,
        r is Some ==> r->0 as int == spec_parse_unsigned_millis(s@)->0,
        r is Some ==> 0 <= r->0 < 1000000000000i64,
{
    // Split off the exponent part at the first `e` or `E`.
    let mut m: usize = 0;
    let mut has_exp = false;
    while !has_exp && m < s.len()
        invariant
            0 <= m <= s@.len(),
            forall|j: int| 0 <= j < m ==> !is_exp_mark(#[trigger] s@[j]),
            has_exp ==> m < s@.len() && is_exp_mark(s@[m as int]),
        decreases s@.len() - m + (if has_exp { 0int } else { 1int }),
    {
        if s[m] == 'e' || s[m] == 'E' {
            has_exp = true;
        } else {
            m = m + 1;
        }
    }
    proof {
        lemma_first_exp_mark_is(s@, m as int);
    }
    let mant = vstd::slice::slice_subrange(s, 0, m);
    proof {
        assert(mant@ =~= s@.take(m as int));
    }
    // The exponent's value, when one is present and well formed.
    let e: i64;
    if m < s.len() {
        let p = vstd::slice::slice_subrange(s, m + 1, s.len());
        proof {
            assert(p@ =~= s@.skip(m + 1));
        }
        match exponent_value(p) {
            Some(v) => {
                e = v;
            },
            None => {
                return None;
            },
        }
    } else {
        e = 0;
    }
    // Split the mantissa at its decimal point.
    let mut d: usize = 0;
    let mut dotted = false;
    while !dotted && d < mant.len()
        invariant
            0 <= d <= mant@.len(),
            forall|j: int| 0 <= j < d ==> #[trigger] mant@[j] != '.',
            dotted ==> d < mant@.len() && mant@[d as int] == '.',
        decreases mant@.len() - d + (if dotted { 0int } else { 1int }),
    {
        if mant[d] == '.' {
            dotted = true;
        } else {
            d = d + 1;
        }
    }
    proof {
        lemma_first_dot_is(mant@, d as int);
    }
    let ip = vstd::slice::slice_subrange(mant, 0, d);
    proof {
        assert(ip@ =~= mant@.take(d as int));
    }
    let fp: &[char] = if d < mant.len() {
        let f = vstd::slice::slice_subrange(mant, d + 1, mant.len());
        proof {
            assert(f@ =~= mant@.skip(d + 1));
        }
        f
    } else {
        let f = vstd::slice::slice_subrange(mant, mant.len(), mant.len());
        proof {
            assert(f@ =~= Seq::<char>::empty());
        }
        f
    };
    if ip.len() == 0 && fp.len() == 0 {
        return None;
    }
    if ip.len() > 12 || fp.len() > 12 {
        return None;
    }
    if !check_digits(ip) {
        return None;
    }
    if !check_digits(fp) {
        return None;
    }
    // The whole digit string, with the decimal point `q` places in.
    let mut digits = vstd::slice::slice_to_vec(ip);
    let mut fpv = vstd::slice::slice_to_vec(fp);
    digits.append(&mut fpv);
    proof {
        assert(digits@ == ip@ + fp@);
        assert forall|j: int| 0 <= j < digits@.len() implies is_digit(#[trigger] digits@[j]) by {
            if j < ip@.len() {
                assert(digits@[j] == ip@[j]);
            } else {
                assert(digits@[j] == fp@[j - ip@.len()]);
            }
        }
    }
    let q: i64 = (ip.len() as i64) + e + 3;
    match shifted_value(digits.as_slice(), q) {
        Some(v) => Some(v as i64),
        None => None,
    }
}

/// The parsed value, or zero when the text is no valid number: malformed
/// sizes fall back to zero rather than failing.
pub open spec fn millis_or_default(s: Seq<char>) -> int {
    match spec_parse_millis(s) {
        Some(v) => v,
        None => 0,
    }
}

pub fn parse_millis_or_default(s: &[char]) -> (r: i64)
    ensures
        r as int == millis_or_default(s@),
{
    match parse_millis(s) {
        Some(v) => v,
        None => 0,
    }
}

} // verus!
