//! Fixed-point amounts and their textual form.
//!
//! An amount is a `u64` holding the value multiplied by [`SCALE`], so four
//! decimal places are kept exactly. This module renders counters as decimal
//! strings and parses non-negative decimal literals such as `"50000.0"` into
//! the fixed-point representation.
use vstd::prelude::*;
use vstd::string::StrSliceExecFns;
use vstd::string::StringExecFns;

verus! {

/// Representation factor of fixed-point amounts: four decimal places.
pub const SCALE: u64 = 10000;

/// The decimal digit character for `d`.
pub open spec fn digit_char(d: int) -> char
    recommends
        0 <= d < 10,
{
    if d == 0 {
        '0'
    } else if d == 1 {
        '1'
    } else if d == 2 {
        '2'
    } else if d == 3 {
        '3'
    } else if d == 4 {
        '4'
    } else if d == 5 {
        '5'
    } else if d == 6 {
        '6'
    } else if d == 7 {
        '7'
    } else if d == 8 {
        '8'
    } else {
        '9'
    }
}

/// The decimal digit string of `n`, most significant digit first.
pub open spec fn decimal_digits(n: int) -> Seq<char>
    decreases n,
{
    if n < 10 {
        seq![digit_char(n)]
    } else {
        decimal_digits(n / 10).push(digit_char(n % 10))
    }
}

/// True for the ten decimal digit characters.
pub open spec fn is_digit(c: char) -> bool {
    c == '0' || c == '1' || c == '2' || c == '3' || c == '4' || c == '5' || c == '6' || c == '7'
        || c == '8' || c == '9'
}

/// The numeric value of a digit character; zero for any other character.
pub open spec fn digit_val(c: char) -> int {
    if c == '1' {
        1
    } else if c == '2' {
        2
    } else if c == '3' {
        3
    } else if c == '4' {
        4
    } else if c == '5' {
        5
    } else if c == '6' {
        6
    } else if c == '7' {
        7
    } else if c == '8' {
        8
    } else if c == '9' {
        9
    } else {
        0
    }
}

/// True when every character of `s` is a decimal digit.
pub open spec fn all_digits(s: Seq<char>) -> bool {
    forall|i: int| 0 <= i < s.len() ==> is_digit(#[trigger] s[i])
}

/// The numeric value of a digit string, most significant digit first.
pub open spec fn digits_val(s: Seq<char>) -> int
    decreases s.len(),
{
    if s.len() == 0 {
        0
    } else {
        digits_val(s.drop_last()) * 10 + digit_val(s.last())
    }
}

/// Ten to the power `k` (one for non-positive `k`).
pub open spec fn pow10(k: int) -> int
    decreases k,
{
    if k <= 0 {
        1
    } else {
        10 * pow10(k - 1)
    }
}

/// Index of the first `'.'` in `s`, or `s.len()` when there is none.
pub open spec fn dot_pos(s: Seq<char>) -> int
    decreases s.len(),
{
    if s.len() == 0 {
        0
    } else if s[0] == '.' {
        0
    } else {
        1 + dot_pos(s.drop_first())
    }
}

/// A well-formed non-negative fixed-point literal: one or more integer
/// digits, optionally followed by a dot and at most four fraction digits.
pub open spec fn valid_fixed_str(s: Seq<char>) -> bool {
    let p = dot_pos(s);
    &&& p >= 1
    &&& all_digits(s.subrange(0, p))
    &&& (p < s.len() ==> {
        let f = s.subrange(p + 1, s.len() as int);
        all_digits(f) && f.len() <= 4
    })
}

/// The scaled value of a well-formed literal, as an unbounded integer.
pub open spec fn fixed_val(s: Seq<char>) -> int {
    let p = dot_pos(s);
    let f = if p < s.len() {
        s.subrange(p + 1, s.len() as int)
    } else {
        Seq::<char>::empty()
    };
    digits_val(s.subrange(0, p)) * (SCALE as int) + digits_val(f) * pow10(4 - f.len())
}

/// What parsing a fixed-point literal yields: the scaled value when the
/// literal is well formed and representable, and nothing otherwise.
pub open spec fn parse_fixed_spec(s: Seq<char>) -> Option<u64> {
    if valid_fixed_str(s) && fixed_val(s) <= u64::MAX {
        Some(fixed_val(s) as u64)
    } else {
        None
    }
}

pub proof fn lemma_digits_val_nonneg(s: Seq<char>)
    ensures
        digits_val(s) >= 0,
    decreases s.len(),
{
    if s.len() > 0 {
        lemma_digits_val_nonneg(s.drop_last());
    }
}

/// The value of a digit string is below ten to its length.
pub proof fn lemma_digits_val_bound(s: Seq<char>)
    ensures
        digits_val(s) < pow10(s.len() as int),
    decreases s.len(),
{
    if s.len() > 0 {
        lemma_digits_val_bound(s.drop_last());
    }
}

/// A prefix of a digit string never exceeds the whole string's value.
proof fn lemma_digits_prefix_le(s: Seq<char>, i: int)
    requires
        0 <= i <= s.len(),
    ensures
        digits_val(s.subrange(0, i)) <= digits_val(s),
    decreases s.len() - i,
{
    if i < s.len() {
        lemma_digits_prefix_le(s, i + 1);
        assert(s.subrange(0, i + 1).drop_last() =~= s.subrange(0, i));
        assert(digits_val(s.subrange(0, i + 1)) == digits_val(s.subrange(0, i)) * 10 + digit_val(
            s.subrange(0, i + 1).last(),
        ));
        lemma_digits_val_nonneg(s.subrange(0, i));
    } else {
        assert(s.subrange(0, i) =~= s);
    }
}

/// The first dot really is the first: everything before it is not a dot.
proof fn lemma_dot_pos(s: Seq<char>)
    ensures
        0 <= dot_pos(s) <= s.len(),
        dot_pos(s) < s.len() ==> s[dot_pos(s)] == '.',
        forall|j: int| 0 <= j < dot_pos(s) ==> #[trigger] s[j] != '.',
    decreases s.len(),
{
    if s.len() > 0 && s[0] != '.' {
        lemma_dot_pos(s.drop_first());
        assert forall|j: int| 0 <= j < dot_pos(s) implies #[trigger] s[j] != '.' by {
            if j > 0 {
                assert(s.drop_first()[j - 1] == s[j]);
            }
        }
    }
}

fn digit_to_str(d: u64) -> (s: &'static str)
    requires
        d < 10,
    ensures
        s@ =~= seq![digit_char(d as int)],
{
    proof {
        reveal_strlit("0");
        reveal_strlit("1");
        reveal_strlit("2");
        reveal_strlit("3");
        reveal_strlit("4");
        reveal_strlit("5");
        reveal_strlit("6");
        reveal_strlit("7");
        reveal_strlit("8");
        reveal_strlit("9");
    }
    if d == 0 {
        "0"
    } else if d == 1 {
        "1"
    } else if d == 2 {
        "2"
    } else if d == 3 {
        "3"
    } else if d == 4 {
        "4"
    } else if d == 5 {
        "5"
    } else if d == 6 {
        "6"
    } else if d == 7 {
        "7"
    } else if d == 8 {
        "8"
    } else {
        "9"
    }
}

fn push_decimal(s: &mut String, n: u64)
    ensures
        final(s)@ == old(s)@ + decimal_digits(n as int),
    decreases n,
{
    if n >= 10 {
        assert(n as int / 10 < n as int) by {
            assert(n as int == (n as int / 10) * 10 + n as int % 10);
        }
        push_decimal(s, n / 10);
        s.append(digit_to_str(n % 10));
        assert(final(s)@ =~= old(s)@ + decimal_digits(n as int));
    } else {
        s.append(digit_to_str(n));
        assert(final(s)@ =~= old(s)@ + decimal_digits(n as int));
    }
}

/// Renders `n` in decimal, most significant digit first.
pub fn u64_to_string(n: u64) -> (s: String)
    ensures
        s@ == decimal_digits(n as int),
{
    let mut s = String::new();
    push_decimal(&mut s, n);
    proof {
        assert(s@ =~= decimal_digits(n as int));
    }
    s
}

fn digit_value(c: char) -> (d: u64)
    ensures
        d == digit_val(c),
        d < 10,
{
    if c == '1' {
        1
    } else if c == '2' {
        2
    } else if c == '3' {
        3
    } else if c == '4' {
        4
    } else if c == '5' {
        5
    } else if c == '6' {
        6
    } else if c == '7' {
        7
    } else if c == '8' {
        8
    } else if c == '9' {
        9
    } else {
        0
    }
}

fn is_digit_char(c: char) -> (r: bool)
    ensures
        r == is_digit(c),
{
    c == '0' || c == '1' || c == '2' || c == '3' || c == '4' || c == '5' || c == '6' || c == '7'
        || c == '8' || c == '9'
}

/// Reads the digits of `s` in `lo..hi` as a number, or reports that the
/// number does not fit in a `u64`.
fn digits_value_range(s: &str, lo: usize, hi: usize) -> (r: Option<u64>)
    requires
        0 <= lo <= hi <= s@.len(),
        all_digits(s@.subrange(lo as int, hi as int)),
    ensures
        ({
            let v = digits_val(s@.subrange(lo as int, hi as int));
            match r {
                Some(x) => x == v,
                None => v > u64::MAX,
            }
        }),
{
    let ghost whole = s@.subrange(lo as int, hi as int);
    let mut acc: u64 = 0;
    let mut i: usize = lo;
    while i < hi
        invariant
            lo <= i <= hi <= s@.len(),
            all_digits(whole),
            whole == s@.subrange(lo as int, hi as int),
            acc == digits_val(s@.subrange(lo as int, i as int)),
        decreases hi - i,
    {
        let c = s.get_char(i);
        let d = digit_value(c);
        proof {
            assert(s@.subrange(lo as int, i as int + 1).drop_last() =~= s@.subrange(
                lo as int,
                i as int,
            ));
            assert(s@.subrange(lo as int, i as int + 1).last() == s@[i as int]);
        }
        let next = match acc.checked_mul(10) {
            Some(t) => t.checked_add(d),
            None => None,
        };
        match next {
            Some(t) => {
                acc = t;
            },
            None => {
                proof {
                    assert(digits_val(s@.subrange(lo as int, i as int + 1)) > u64::MAX);
                    lemma_digits_prefix_le(whole, i + 1 - lo);
                    assert(whole.subrange(0, i + 1 - lo) =~= s@.subrange(lo as int, i as int + 1));
                }
                return None;
            },
        }
        i = i + 1;
    }
    Some(acc)
}

/// Parses a non-negative fixed-point literal with at most four fraction
/// digits into its scaled representation; rejects anything else.
pub fn parse_fixed(s: &str) -> (r: Option<u64>)
    ensures
        r == parse_fixed_spec(s@),
{
    proof {
        lemma_dot_pos(s@);
    }
    let n = s.unicode_len();
    // Find the first dot; any other character must be a digit.
    let mut p: usize = n;
    let mut i: usize = 0;
    while i < n
        invariant
            0 <= i <= n == s@.len(),
            p == n || (p < i && s@[p as int] == '.'),
            forall|j: int| 0 <= j < i && j != p ==> is_digit(#[trigger] s@[j]),
        decreases n - i,
    {
        let c = s.get_char(i);
        if c == '.' {
            if p == n {
                p = i;
            } else {
                // A second dot: the fraction part holds a non-digit.
                proof {
                    lemma_dot_pos(s@);
                    let d = dot_pos(s@);
                    assert(d <= p) by {
                        if d > p {
                            assert(s@[p as int] != '.');
                        }
                    }
                    assert(s@.subrange(d + 1, s@.len() as int)[i - d - 1] == s@[i as int]);
                    assert(!valid_fixed_str(s@));
                }
                return None;
            }
        } else if !is_digit_char(c) {
            // A character that is neither digit nor dot invalidates the
            // part it falls in, whichever that is.
            proof {
                lemma_dot_pos(s@);
                let d = dot_pos(s@);
                if d > i {
                    assert(s@.subrange(0, d)[i as int] == s@[i as int]);
                    assert(!all_digits(s@.subrange(0, d)));
                } else if d < i {
                    assert(s@.subrange(d + 1, s@.len() as int)[i - d - 1] == s@[i as int]);
                }
                assert(!valid_fixed_str(s@));
            }
            return None;
        }
        i = i + 1;
    }
    proof {
        if p < n {
            assert(dot_pos(s@) == p as int) by {
                let d = dot_pos(s@);
                if d < p {
                    assert(is_digit(s@[d]));
                } else if d > p {
                    assert(s@[p as int] != '.');
                }
            }
        } else {
            assert(dot_pos(s@) == s@.len()) by {
                let d = dot_pos(s@);
                if d < s@.len() {
                    assert(is_digit(s@[d]));
                }
            }
        }
    }
    // Validate the shape.
    if p == 0 {
        return None;
    }
    if p < n && n - p - 1 > 4 {
        proof {
            assert(s@.subrange(p as int + 1, s@.len() as int).len() > 4);
        }
        return None;
    }
    proof {
        assert(all_digits(s@.subrange(0, p as int)));
        if (p as int) < s@.len() {
            assert(all_digits(s@.subrange(p as int + 1, s@.len() as int)));
        }
        assert(valid_fixed_str(s@));
    }
    // Integer part.
    let int_val = match digits_value_range(s, 0, p) {
        Some(v) => v,
        None => {
            proof {
                lemma_int_overflow_rejects(s@);
            }
            return None;
        },
    };
    // Fraction part, scaled to four places.
    let frac_scaled: u64 = if p < n {
        let fv = match digits_value_range(s, p + 1, n) {
            Some(v) => v,
            None => {
                proof {
                    let f = s@.subrange(p as int + 1, s@.len() as int);
                    lemma_digits_val_bound(f);
                    lemma_pow10_small(f.len() as int);
                }
                return None;  // unreachable: at most four digits always fit
            },
        };
        let k = n - p - 1;
        proof {
            let f = s@.subrange(p as int + 1, s@.len() as int);
            lemma_digits_val_bound(f);
            lemma_pow10_small(f.len() as int);
        }
        let m: u64 = if k == 0 {
            10000
        } else if k == 1 {
            1000
        } else if k == 2 {
            100
        } else if k == 3 {
            10
        } else {
            1
        };
        fv * m
    } else {
        0
    };
    proof {
        let f = if dot_pos(s@) < s@.len() {
            s@.subrange(dot_pos(s@) + 1, s@.len() as int)
        } else {
            Seq::<char>::empty()
        };
        lemma_digits_val_nonneg(f);
        lemma_digits_val_bound(f);
        lemma_pow10_small(f.len() as int);
        assert(digits_val(f) * pow10(4 - f.len()) < 10000) by {
            lemma_frac_scaled_bound(f);
        }
    }
    match int_val.checked_mul(SCALE) {
        Some(base) => match base.checked_add(frac_scaled) {
            Some(total) => Some(total),
            None => None,
        },
        None => {
            proof {
                let f = if dot_pos(s@) < s@.len() {
                    s@.subrange(dot_pos(s@) + 1, s@.len() as int)
                } else {
                    Seq::<char>::empty()
                };
                lemma_digits_val_nonneg(f);
                lemma_pow10_pos(4 - f.len());
                assert(digits_val(f) * pow10(4 - f.len()) >= 0) by (nonlinear_arith)
                    requires
                        digits_val(f) >= 0,
                        pow10(4 - f.len()) > 0,
                ;
            }
            None
        },
    }
}

proof fn lemma_pow10_pos(k: int)
    ensures
        pow10(k) >= 1,
    decreases k,
{
    if k > 0 {
        lemma_pow10_pos(k - 1);
    }
}

/// Concrete powers of ten for the at-most-four fraction digits.
proof fn lemma_pow10_small(len: int)
    requires
        0 <= len <= 4,
    ensures
        len == 0 ==> pow10(len) == 1 && pow10(4 - len) == 10000,
        len == 1 ==> pow10(len) == 10 && pow10(4 - len) == 1000,
        len == 2 ==> pow10(len) == 100 && pow10(4 - len) == 100,
        len == 3 ==> pow10(len) == 1000 && pow10(4 - len) == 10,
        len == 4 ==> pow10(len) == 10000 && pow10(4 - len) == 1,
{
    assert(pow10(0) == 1);
    assert(pow10(1) == 10);
    assert(pow10(2) == 100);
    assert(pow10(3) == 1000);
    assert(pow10(4) == 10000);
}

/// A fraction of at most four digits, scaled out to four places, stays
/// below one whole unit.
proof fn lemma_frac_scaled_bound(f: Seq<char>)
    requires
        f.len() <= 4,
    ensures
        digits_val(f) * pow10(4 - f.len()) < 10000,
        digits_val(f) * pow10(4 - f.len()) >= 0,
{
    lemma_digits_val_nonneg(f);
    lemma_digits_val_bound(f);
    lemma_pow10_small(f.len() as int);
    let v = digits_val(f);
    let m = pow10(4 - f.len());
    let b = pow10(f.len() as int);
    assert(v * m <= (b - 1) * m) by (nonlinear_arith)
        requires
            v <= b - 1,
            m >= 0,
    ;
    assert((b - 1) * m == b * m - m) by (nonlinear_arith);
    assert(b * m == 10000) by {
        lemma_pow10_small(f.len() as int);
    }
    assert(v * m >= 0) by (nonlinear_arith)
        requires
            v >= 0,
            m >= 0,
    ;
}

/// When the integer part alone does not fit, the whole literal does not.
proof fn lemma_int_overflow_rejects(s: Seq<char>)
    requires
        valid_fixed_str(s),
        digits_val(s.subrange(0, dot_pos(s))) > u64::MAX,
    ensures
        fixed_val(s) > u64::MAX,
{
    let p = dot_pos(s);
    let f = if p < s.len() {
        s.subrange(p + 1, s.len() as int)
    } else {
        Seq::<char>::empty()
    };
    let iv = digits_val(s.subrange(0, p));
    lemma_digits_val_nonneg(f);
    lemma_pow10_pos(4 - f.len());
    assert(iv * (SCALE as int) >= iv) by (nonlinear_arith)
        requires
            iv >= 0,
    ;
    assert(digits_val(f) * pow10(4 - f.len()) >= 0) by (nonlinear_arith)
        requires
            digits_val(f) >= 0,
            pow10(4 - f.len()) > 0,
    ;
}

} // verus!
