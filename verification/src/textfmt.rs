//! Verified text helpers: decimal rendering of integers, string equality,
//! path-string manipulation, and fixed-point parsing of decimal rate
//! literals (used to turn a coverage line-rate into a percentage).

use vstd::prelude::*;

verus! {

/// The numeric value of a decimal digit character; 10 for any other char.
pub open spec fn digit_val(c: char) -> nat {
    if c == '0' { 0 } else if c == '1' { 1 } else if c == '2' { 2 } else if c == '3' { 3 }
    else if c == '4' { 4 } else if c == '5' { 5 } else if c == '6' { 6 } else if c == '7' { 7 }
    else if c == '8' { 8 } else if c == '9' { 9 } else { 10 }
}

pub open spec fn is_digit_char(c: char) -> bool {
    digit_val(c) < 10
}

/// The decimal digit character for a value below ten.
pub open spec fn dec_digit(d: nat) -> char {
    if d == 0 { '0' } else if d == 1 { '1' } else if d == 2 { '2' } else if d == 3 { '3' }
    else if d == 4 { '4' } else if d == 5 { '5' } else if d == 6 { '6' } else if d == 7 { '7' }
    else if d == 8 { '8' } else { '9' }
}

/// The usual decimal rendering of a natural number, without leading
/// zeros (except for zero itself).
pub open spec fn dec_rep(n: nat) -> Seq<char>
    decreases n,
{
    if n < 10 {
        seq![dec_digit(n)]
    } else {
        dec_rep(n / 10).push(dec_digit(n % 10))
    }
}

/// The decimal rendering of an integer: a minus sign before the digits
/// when it is negative.
pub open spec fn dec_rep_int(n: int) -> Seq<char> {
    if n < 0 {
        seq!['-'] + dec_rep((-n) as nat)
    } else {
        dec_rep(n as nat)
    }
}

/// The digit character for `d`, as a string slice.
fn dec_digit_str(d: u64) -> (r: &'static str)
    requires
        d < 10,
    ensures
        r@ == seq![dec_digit(d as nat)],
{
    proof {
        reveal_strlit("0");
        reveal_strlit("1");
        reveal_strlit("2");
        reveal_strlit("3");
        reveal_strlit("4");
        reveal_strlit("5");
        reveal_strlit("6");
        reveal_strlit("7");
        reveal_strlit("8");
        reveal_strlit("9");
    }
    let r = if d == 0 { "0" } else if d == 1 { "1" } else if d == 2 { "2" } else if d == 3 { "3" }
    else if d == 4 { "4" } else if d == 5 { "5" } else if d == 6 { "6" } else if d == 7 { "7" }
    else if d == 8 { "8" } else { "9" };
    proof {
        assert(r@ =~= seq![dec_digit(d as nat)]);
    }
    r
}

/// Renders `n` in decimal.
pub fn u64_dec_string(n: u64) -> (r: String)
    ensures
        r@ == dec_rep(n as nat),
    decreases n,
{
    if n < 10 {
        let r = String::from_str(dec_digit_str(n));
        proof {
            assert(r@ =~= dec_rep(n as nat));
        }
        r
    } else {
        let mut s = u64_dec_string(n / 10);
        s.append(dec_digit_str(n % 10));
        proof {
            assert(s@ =~= dec_rep(n as nat));
        }
        s
    }
}

/// Renders `n` in decimal, with a minus sign when it is negative.
pub fn i32_dec_string(n: i32) -> (r: String)
    ensures
        r@ == dec_rep_int(n as int),
{
    if n >= 0 {
        u64_dec_string(n as u64)
    } else {
        let wide: i64 = n as i64;
        let mag: u64 = (-wide) as u64;
        assert(mag as int == -(n as int));
        let mut s = String::from_str("-");
        let digits = u64_dec_string(mag);
        s.append(digits.as_str());
        proof {
            reveal_strlit("-");
            assert(s@ =~= dec_rep_int(n as int));
        }
        s
    }
}

/// Whether two string slices hold the same characters.
pub fn str_eq(a: &str, b: &str) -> (r: bool)
    ensures
        r == (a@ == b@),
{
    let alen = a.unicode_len();
    let blen = b.unicode_len();
    if alen != blen {
        return false;
    }
    let mut i: usize = 0;
    while i < alen
        invariant
            alen == a@.len(),
            alen == b@.len(),
            i <= alen,
            forall|j: int| 0 <= j < i ==> a@[j] == b@[j],
        decreases alen - i,
    {
        if a.get_char(i) != b.get_char(i) {
            return false;
        }
        i = i + 1;
    }
    proof {
        assert(a@ =~= b@);
    }
    true
}

/// `base`, a path separator, then `child`.
pub open spec fn joined_path(base: Seq<char>, child: Seq<char>) -> Seq<char> {
    base + seq!['/'] + child
}

/// Joins a path and a child name with a separator.
pub fn join_path(base: &str, child: &str) -> (r: String)
    ensures
        r@ == joined_path(base@, child@),
{
    let mut s = String::from_str(base);
    s.append("/");
    s.append(child);
    proof {
        reveal_strlit("/");
        assert(s@ =~= joined_path(base@, child@));
    }
    s
}

/// The index of the last path separator in `s`, or -1 if there is none.
pub open spec fn last_slash(s: Seq<char>) -> int
    decreases s.len(),
{
    if s.len() == 0 {
        -1
    } else if s[s.len() - 1] == '/' {
        s.len() - 1
    } else {
        last_slash(s.drop_last())
    }
}

/// The parent of a path, in the way an upward walk over ancestors sees
/// it: everything before the last separator, the lone root `/` when the
/// only separator is the leading one, and nothing for a separator-free
/// or root path (the walk is over).
pub open spec fn parent_path_spec(s: Seq<char>) -> Option<Seq<char>> {
    let i = last_slash(s);
    if i < 0 {
        Option::None
    } else if i == 0 {
        if s.len() == 1 {
            Option::None
        } else {
            Option::Some(seq!['/'])
        }
    } else {
        Option::Some(s.take(i))
    }
}

/// A path's parent is strictly shorter than the path: the ancestor walk
/// terminates.
pub proof fn lemma_parent_path_shorter(s: Seq<char>)
    ensures
        parent_path_spec(s) matches Some(p) ==> p.len() < s.len(),
    decreases s.len(),
{
    if s.len() > 0 && s[s.len() - 1] != '/' {
        lemma_parent_path_shorter(s.drop_last());
        assert(last_slash(s) == last_slash(s.drop_last()));
        if last_slash(s) >= 0 {
            lemma_last_slash_in_range(s);
        }
    } else if s.len() > 0 {
        assert(last_slash(s) == s.len() - 1);
    }
}

/// The last separator's index lies inside the string when there is one.
pub proof fn lemma_last_slash_in_range(s: Seq<char>)
    ensures
        last_slash(s) >= 0 ==> last_slash(s) < s.len() && s[last_slash(s)] == '/',
        last_slash(s) < s.len(),
    decreases s.len(),
{
    if s.len() > 0 && s[s.len() - 1] != '/' {
        lemma_last_slash_in_range(s.drop_last());
    }
}

/// The parent of a path, as `parent_path_spec` describes it.
pub fn parent_path(s: &str) -> (r: Option<String>)
    ensures
        (r matches Some(p) ==> parent_path_spec(s@) matches Some(q) && p@ == q),
        (r is None ==> parent_path_spec(s@) is None),
{
    let len = s.unicode_len();
    proof {
        lemma_last_slash_in_range(s@);
    }
    let mut i: usize = len;
    while i > 0
        invariant
            len == s@.len(),
            i <= len,
            forall|j: int| i <= j < len ==> s@[j] != '/',
        decreases i,
    {
        if s.get_char(i - 1) == '/' {
            proof {
                assert(last_slash(s@) == i - 1) by {
                    lemma_last_slash_agrees(s@, i - 1);
                }
            }
            if i - 1 == 0 {
                if len == 1 {
                    return Option::None;
                }
                let root = String::from_str("/");
                proof {
                    reveal_strlit("/");
                    assert(root@ =~= seq!['/']);
                }
                return Option::Some(root);
            }
            let prefix = s.substring_char(0, i - 1);
            proof {
                assert(prefix@ =~= s@.take(i - 1));
            }
            return Option::Some(String::from_str(prefix));
        }
        i = i - 1;
    }
    proof {
        assert(last_slash(s@) < 0) by {
            lemma_no_slash(s@);
        }
    }
    Option::None
}

/// Ten to the power `n`.
pub open spec fn pow10(n: nat) -> nat
    decreases n,
{
    if n == 0 {
        1
    } else {
        10 * pow10((n - 1) as nat)
    }
}

/// The state of a left-to-right scan of a decimal rate literal
/// (`digits ['.' digits]`): whether the text so far is well formed,
/// whether the point was seen, how many digits were seen in all, and the
/// integer part and the first four fractional digits as values. Later
/// fractional digits are dropped (the value is truncated, not rounded),
/// and an integer part of more than twelve digits is rejected so that
/// the scaled value fits the machine.
pub struct RateScan {
    pub ok: bool,
    pub seen_dot: bool,
    pub digits: nat,
    pub int_len: nat,
    pub int_val: nat,
    pub frac_len: nat,
    pub frac_val: nat,
}

pub open spec fn rate_scan_init() -> RateScan {
    RateScan { ok: true, seen_dot: false, digits: 0, int_len: 0, int_val: 0, frac_len: 0, frac_val: 0 }
}

pub open spec fn rate_scan_fail() -> RateScan {
    RateScan { ok: false, seen_dot: false, digits: 0, int_len: 0, int_val: 0, frac_len: 0, frac_val: 0 }
}

pub open spec fn rate_scan_step(st: RateScan, c: char) -> RateScan {
    if !st.ok {
        st
    } else if is_digit_char(c) {
        if !st.seen_dot {
            if st.int_len >= 12 {
                rate_scan_fail()
            } else {
                RateScan {
                    ok: true,
                    seen_dot: false,
                    digits: st.digits + 1,
                    int_len: st.int_len + 1,
                    int_val: st.int_val * 10 + digit_val(c),
                    frac_len: st.frac_len,
                    frac_val: st.frac_val,
                }
            }
        } else if st.frac_len < 4 {
            RateScan {
                ok: true,
                seen_dot: true,
                digits: st.digits + 1,
                int_len: st.int_len,
                int_val: st.int_val,
                frac_len: st.frac_len + 1,
                frac_val: st.frac_val * 10 + digit_val(c),
            }
        } else {
            RateScan {
                ok: true,
                seen_dot: true,
                digits: st.digits + 1,
                int_len: st.int_len,
                int_val: st.int_val,
                frac_len: st.frac_len,
                frac_val: st.frac_val,
            }
        }
    } else if c == '.' {
        if st.seen_dot {
            rate_scan_fail()
        } else {
            RateScan {
                ok: true,
                seen_dot: true,
                digits: st.digits,
                int_len: st.int_len,
                int_val: st.int_val,
                frac_len: st.frac_len,
                frac_val: st.frac_val,
            }
        }
    } else {
        rate_scan_fail()
    }
}

pub open spec fn rate_scan(s: Seq<char>) -> RateScan
    decreases s.len(),
{
    if s.len() == 0 {
        rate_scan_init()
    } else {
        rate_scan_step(rate_scan(s.drop_last()), s.last())
    }
}

/// A rate literal's value scaled by ten thousand (so a rate of one is
/// 10000), or nothing when the text is not such a literal. The literal
/// must hold at least one digit and at most one point; fractional digits
/// beyond the fourth are truncated away.
pub open spec fn rate_scaled_spec(s: Seq<char>) -> Option<nat> {
    let st = rate_scan(s);
    if st.ok && st.digits >= 1 {
        Option::Some(st.int_val * 10000 + st.frac_val * pow10((4 - st.frac_len) as nat))
    } else {
        Option::None
    }
}

/// Bounds that every reachable scan state obeys.
pub open spec fn rate_scan_inv(st: RateScan) -> bool {
    st.int_len <= 12 && st.int_val < pow10(st.int_len) && st.frac_len <= 4 && st.frac_val
        < pow10(st.frac_len)
}

pub proof fn lemma_rate_scan_inv(s: Seq<char>)
    ensures
        rate_scan_inv(rate_scan(s)),
    decreases s.len(),
{
    if s.len() > 0 {
        lemma_rate_scan_inv(s.drop_last());
        let st = rate_scan(s.drop_last());
        let c = s.last();
        if st.ok && is_digit_char(c) && !st.seen_dot && st.int_len < 12 {
            assert(pow10(st.int_len + 1) == 10 * pow10(st.int_len));
            assert(st.int_val * 10 + digit_val(c) < 10 * pow10(st.int_len)) by (nonlinear_arith)
                requires
                    st.int_val < pow10(st.int_len),
                    digit_val(c) < 10,
            ;
        }
        if st.ok && is_digit_char(c) && st.seen_dot && st.frac_len < 4 {
            assert(pow10(st.frac_len + 1) == 10 * pow10(st.frac_len));
            assert(st.frac_val * 10 + digit_val(c) < 10 * pow10(st.frac_len)) by (nonlinear_arith)
                requires
                    st.frac_val < pow10(st.frac_len),
                    digit_val(c) < 10,
            ;
        }
    }
}

/// A scan that has failed on a prefix has failed on the whole.
proof fn lemma_rate_scan_sticky(s: Seq<char>, i: int)
    requires
        0 <= i <= s.len(),
        !rate_scan(s.take(i)).ok,
    ensures
        !rate_scan(s).ok,
    decreases s.len() - i,
{
    if i < s.len() {
        assert(s.take(i + 1).drop_last() =~= s.take(i));
        assert(s.take(i + 1).last() == s[i]);
        lemma_rate_scan_sticky(s, i + 1);
    } else {
        assert(s.take(i) =~= s);
    }
}

/// The numeric value of a digit character; 10 for any other char.
fn char_digit(c: char) -> (d: u64)
    ensures
        d == digit_val(c),
{
    if c == '0' { 0 } else if c == '1' { 1 } else if c == '2' { 2 } else if c == '3' { 3 }
    else if c == '4' { 4 } else if c == '5' { 5 } else if c == '6' { 6 } else if c == '7' { 7 }
    else if c == '8' { 8 } else if c == '9' { 9 } else { 10 }
}

fn pow10_small(n: u64) -> (r: u64)
    requires
        n <= 4,
    ensures
        r == pow10(n as nat),
{
    proof {
        reveal_with_fuel(pow10, 5);
    }
    if n == 0 { 1 } else if n == 1 { 10 } else if n == 2 { 100 } else if n == 3 { 1000 } else { 10000 }
}

/// Parses a decimal rate literal and returns its value scaled by ten
/// thousand, exactly as `rate_scaled_spec` gives it. The grammar is
/// deliberately narrow: plain digits with at most one point
/// (`digits ['.' digits]`, at least one digit in all). A sign, an
/// exponent, surrounding whitespace, or a non-finite spelling is not a
/// rate literal here, though a general floating-point parse would take
/// some of those; a rate read from a coverage report is always of the
/// plain form.
pub fn parse_rate_scaled(s: &str) -> (r: Option<u64>)
    ensures
        (r matches Some(v) ==> rate_scaled_spec(s@) matches Some(n) && v as nat == n),
        (r is None ==> rate_scaled_spec(s@) is None),
{
    let len = s.unicode_len();
    let mut i: usize = 0;
    let mut seen_dot: bool = false;
    let mut digits: usize = 0;
    let mut int_len: usize = 0;
    let mut int_val: u64 = 0;
    let mut frac_len: usize = 0;
    let mut frac_val: u64 = 0;
    while i < len
        invariant
            len == s@.len(),
            i <= len,
            digits <= i,
            rate_scan(s@.take(i as int)) == (RateScan {
                ok: true,
                seen_dot: seen_dot,
                digits: digits as nat,
                int_len: int_len as nat,
                int_val: int_val as nat,
                frac_len: frac_len as nat,
                frac_val: frac_val as nat,
            }),
            rate_scan_inv(rate_scan(s@.take(i as int))),
        decreases len - i,
    {
        let c = s.get_char(i);
        let ghost prev = rate_scan(s@.take(i as int));
        proof {
            assert(s@.take(i + 1).drop_last() =~= s@.take(i as int));
            assert(s@.take(i + 1).last() == s@[i as int]);
            lemma_rate_scan_inv(s@.take(i + 1));
            reveal_with_fuel(pow10, 13);
        }
        let d = char_digit(c);
        if d < 10 {
            if !seen_dot {
                if int_len >= 12 {
                    proof {
                        lemma_rate_scan_sticky(s@, i + 1);
                    }
                    return Option::None;
                }
                assert(int_val < pow10(12));
                int_val = int_val * 10 + d;
                int_len = int_len + 1;
                digits = digits + 1;
            } else if frac_len < 4 {
                assert(frac_val < pow10(4));
                frac_val = frac_val * 10 + d;
                frac_len = frac_len + 1;
                digits = digits + 1;
            } else {
                digits = digits + 1;
            }
        } else if c == '.' {
            if seen_dot {
                proof {
                    lemma_rate_scan_sticky(s@, i + 1);
                }
                return Option::None;
            }
            seen_dot = true;
        } else {
            proof {
                lemma_rate_scan_sticky(s@, i + 1);
            }
            return Option::None;
        }
        i = i + 1;
    }
    proof {
        assert(s@.take(len as int) =~= s@);
        reveal_with_fuel(pow10, 13);
    }
    if digits == 0 {
        return Option::None;
    }
    let scale = pow10_small(4 - (frac_len as u64));
    proof {
        reveal_with_fuel(pow10, 13);
        assert(int_val < 1000000000000);
        assert(frac_val < 10000) by {
            if frac_len == 0 {
            } else if frac_len == 1 {
            } else if frac_len == 2 {
            } else if frac_len == 3 {
            }
        }
        assert(scale <= 10000);
        assert(int_val * 10000 <= 9999999999990000) by (nonlinear_arith)
            requires
                int_val < 1000000000000,
        ;
        assert(frac_val * scale <= 100000000) by (nonlinear_arith)
            requires
                frac_val < 10000,
                scale <= 10000,
        ;
    }
    Option::Some(int_val * 10000 + frac_val * scale)
}

/// The rate scaled by ten thousand, rendered as a percentage with two
/// digits after the point: the whole percents in decimal, a point, then
/// the two remaining digits.
pub open spec fn percent_string_spec(scaled: nat) -> Seq<char> {
    dec_rep(scaled / 100) + seq!['.', dec_digit((scaled % 100) / 10), dec_digit(scaled % 100 % 10)]
}

/// Renders a scaled rate as a percentage with two decimal places.
pub fn percent_string(scaled: u64) -> (r: String)
    ensures
        r@ == percent_string_spec(scaled as nat),
{
    let mut s = u64_dec_string(scaled / 100);
    s.append(".");
    s.append(dec_digit_str((scaled % 100) / 10));
    s.append(dec_digit_str(scaled % 100 % 10));
    proof {
        reveal_strlit(".");
        assert(s@ =~= percent_string_spec(scaled as nat));
    }
    s
}

/// When `s[k]` is a separator and none follows it, `k` is the last
/// separator's index.
proof fn lemma_last_slash_agrees(s: Seq<char>, k: int)
    requires
        0 <= k < s.len(),
        s[k] == '/',
        forall|j: int| k < j < s.len() ==> s[j] != '/',
    ensures
        last_slash(s) == k,
    decreases s.len(),
{
    if s.len() - 1 > k {
        lemma_last_slash_agrees(s.drop_last(), k);
    }
}

/// A string without separators has no last separator.
proof fn lemma_no_slash(s: Seq<char>)
    requires
        forall|j: int| 0 <= j < s.len() ==> s[j] != '/',
    ensures
        last_slash(s) < 0,
    decreases s.len(),
{
    if s.len() > 0 {
        lemma_no_slash(s.drop_last());
    }
}

} // verus!
