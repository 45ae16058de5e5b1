//! Decimal parsing and formatting of the integers that appear in the
//! persisted configuration strings: recurrence bitmasks, notify-ahead
//! minutes, check intervals, and the minute counts shown in
//! notification messages.

use vstd::prelude::*;

verus! {

pub open spec fn is_dec_digit(c: char) -> bool {
    '0' <= c && c <= '9'
}

pub open spec fn digit_val(c: char) -> int {
    c as int - '0' as int
}

pub open spec fn all_dec_digits(s: Seq<char>) -> bool {
    forall|i: int| 0 <= i < s.len() ==> is_dec_digit(#[trigger] s[i])
}

/// Numeric value of a digit string, most significant digit first.
pub open spec fn dec_val(s: Seq<char>) -> int
    decreases s.len(),
{
    if s.len() == 0 {
        0
    } else {
        dec_val(s.drop_last()) * 10 + digit_val(s.last())
    }
}

/// The integer denoted by a decimal string with an optional leading
/// sign, or `None` where the string is not of that shape.
pub open spec fn spec_parse_int(s: Seq<char>) -> Option<int> {
    if s.len() > 0 && s[0] == '+' {
        spec_parse_digits(s.subrange(1, s.len() as int))
    } else if s.len() > 0 && s[0] == '-' {
        match spec_parse_digits(s.subrange(1, s.len() as int)) {
            Some(v) => Some(-v),
            None => None,
        }
    } else {
        spec_parse_digits(s)
    }
}

/// The integer denoted by a non-empty all-digit string.
pub open spec fn spec_parse_digits(s: Seq<char>) -> Option<int> {
    if s.len() > 0 && all_dec_digits(s) {
        Some(dec_val(s))
    } else {
        None
    }
}

proof fn lemma_dec_val_nonneg(s: Seq<char>)
    requires
        all_dec_digits(s),
    ensures
        dec_val(s) >= 0,
    decreases s.len(),
{
    if s.len() > 0 {
        assert(all_dec_digits(s.drop_last()));
        lemma_dec_val_nonneg(s.drop_last());
    }
}

proof fn lemma_dec_val_step(s: Seq<char>, lo: int, i: int)
    requires
        0 <= lo <= i < s.len(),
    ensures
        dec_val(s.subrange(lo, i + 1)) == dec_val(s.subrange(lo, i)) * 10 + digit_val(s[i]),
{
    let t = s.subrange(lo, i + 1);
    assert(t.drop_last() =~= s.subrange(lo, i));
    assert(t.last() == s[i]);
}

/// Parses a decimal string with an optional sign, as the digits of the
/// recurrence bitmask and of the persisted settings values are written.
/// Returns `None` for an empty or malformed string and for a value
/// outside the `i64` range.
#[verifier::loop_isolation(false)]
pub fn parse_i64(s: &str) -> (r: Option<i64>)
    ensures
        r is Some <==> (spec_parse_int(s@) is Some && i64::MIN <= spec_parse_int(s@)->0
            <= i64::MAX),
        r is Some ==> r->0 == spec_parse_int(s@)->0,
{
    let n: usize = s.unicode_len();
    let mut start: usize = 0;
    let mut negative: bool = false;
    if n > 0 {
        let c0: char = s.get_char(0);
        if c0 == '+' {
            start = 1;
        } else if c0 == '-' {
            start = 1;
            negative = true;
        }
    }
    let ghost body = s@.subrange(start as int, n as int);
    proof {
        if start == 0 {
            assert(s@.subrange(0, n as int) =~= s@);
        }
    }
    if start >= n {
        // an empty string, or a sign with no digits after it
        assert(spec_parse_int(s@) is None);
        return None;
    }
    // accumulate the negated value, so that i64::MIN is representable
    let mut acc: i64 = 0;
    let mut i: usize = start;
    while i < n
        invariant
            start <= i <= n,
            n == s@.len(),
            start < n,
            body == s@.subrange(start as int, n as int),
            all_dec_digits(s@.subrange(start as int, i as int)),
            acc == -dec_val(s@.subrange(start as int, i as int)),
        decreases n - i,
    {
        let c: char = s.get_char(i);
        if c < '0' || c > '9' {
            assert(body[i as int - start as int] == s@[i as int]);
            assert(!all_dec_digits(body));
            assert(spec_parse_int(s@) is None);
            return None;
        }
        let d: i64 = (c as u32 - '0' as u32) as i64;
        let acc10: i64 = match acc.checked_mul(10) {
            Some(v) => v,
            None => {
                proof {
                    lemma_dec_val_nonneg(s@.subrange(start as int, i as int));
                    overflow_means_out_of_range(
                        s@,
                        start as int,
                        i as int,
                        n as int,
                        i64::MAX + 1,
                    );
                }
                return None;
            },
        };
        let next: i64 = match acc10.checked_sub(d) {
            Some(v) => v,
            None => {
                proof {
                    lemma_dec_val_nonneg(s@.subrange(start as int, i as int));
                    overflow_means_out_of_range(
                        s@,
                        start as int,
                        i as int,
                        n as int,
                        i64::MAX + 1,
                    );
                }
                return None;
            },
        };
        proof {
            lemma_dec_val_step(s@, start as int, i as int);
        }
        acc = next;
        i = i + 1;
    }
    if negative {
        assert(spec_parse_int(s@) == Some(-dec_val(body)));
        Some(acc)
    } else {
        assert(spec_parse_int(s@) == Some(dec_val(body)));
        if acc == i64::MIN {
            // the value is exactly one past i64::MAX
            None
        } else {
            proof {
                lemma_dec_val_nonneg(body);
            }
            Some(-acc)
        }
    }
}

/// A digit string whose value passed `bound` after `i` digits stays
/// past it however many digits follow.
proof fn overflow_means_out_of_range(s: Seq<char>, lo: int, i: int, n: int, bound: int)
    requires
        0 <= lo <= i < n <= s.len(),
        all_dec_digits(s.subrange(lo, i)),
        is_dec_digit(s[i]),
        dec_val(s.subrange(lo, i)) * 10 + digit_val(s[i]) > bound,
    ensures
        all_dec_digits(s.subrange(lo, n)) ==> dec_val(s.subrange(lo, n)) > bound,
{
    if all_dec_digits(s.subrange(lo, n)) {
        lemma_dec_val_step(s, lo, i);
        lemma_dec_val_grows(s, lo, i + 1, n);
    }
}

/// Appending digits never shrinks the value of a digit string.
proof fn lemma_dec_val_grows(s: Seq<char>, lo: int, i: int, n: int)
    requires
        0 <= lo <= i <= n <= s.len(),
        all_dec_digits(s.subrange(lo, n)),
    ensures
        dec_val(s.subrange(lo, n)) >= dec_val(s.subrange(lo, i)),
    decreases n - i,
{
    if i < n {
        assert(forall|k: int| 0 <= k < i - lo ==> s.subrange(lo, i)[k] == s.subrange(lo, n)[k]);
        assert(all_dec_digits(s.subrange(lo, i)));
        lemma_dec_val_nonneg(s.subrange(lo, i));
        lemma_dec_val_step(s, lo, i);
        lemma_dec_val_grows(s, lo, i + 1, n);
        assert(dec_val(s.subrange(lo, i + 1)) >= dec_val(s.subrange(lo, i)));
    }
}

/// Parses an unsigned decimal string, as `str::parse::<u64>` reads the
/// persisted check-interval setting: an optional `+`, then digits.
#[verifier::loop_isolation(false)]
pub fn parse_u64(s: &str) -> (r: Option<u64>)
    ensures
        r is Some <==> (spec_parse_uint(s@) is Some && spec_parse_uint(s@)->0 <= u64::MAX),
        r is Some ==> r->0 == spec_parse_uint(s@)->0,
{
    let n: usize = s.unicode_len();
    let mut start: usize = 0;
    if n > 0 && s.get_char(0) == '+' {
        start = 1;
    }
    let ghost body = s@.subrange(start as int, n as int);
    proof {
        if start == 0 {
            assert(s@.subrange(0, n as int) =~= s@);
        }
    }
    if start >= n {
        assert(spec_parse_uint(s@) is None);
        return None;
    }
    let mut acc: u64 = 0;
    let mut i: usize = start;
    while i < n
        invariant
            start <= i <= n,
            n == s@.len(),
            start < n,
            body == s@.subrange(start as int, n as int),
            all_dec_digits(s@.subrange(start as int, i as int)),
            acc == dec_val(s@.subrange(start as int, i as int)),
        decreases n - i,
    {
        let c: char = s.get_char(i);
        if c < '0' || c > '9' {
            assert(body[i as int - start as int] == s@[i as int]);
            assert(!all_dec_digits(body));
            assert(spec_parse_uint(s@) is None);
            return None;
        }
        let d: u64 = (c as u32 - '0' as u32) as u64;
        let acc10: u64 = match acc.checked_mul(10) {
            Some(v) => v,
            None => {
                proof {
                    lemma_dec_val_nonneg(s@.subrange(start as int, i as int));
                    overflow_means_out_of_range(
                        s@,
                        start as int,
                        i as int,
                        n as int,
                        u64::MAX as int,
                    );
                }
                return None;
            },
        };
        let next: u64 = match acc10.checked_add(d) {
            Some(v) => v,
            None => {
                proof {
                    lemma_dec_val_nonneg(s@.subrange(start as int, i as int));
                    overflow_means_out_of_range(
                        s@,
                        start as int,
                        i as int,
                        n as int,
                        u64::MAX as int,
                    );
                }
                return None;
            },
        };
        proof {
            lemma_dec_val_step(s@, start as int, i as int);
        }
        acc = next;
        i = i + 1;
    }
    assert(spec_parse_uint(s@) == Some(dec_val(body)));
    Some(acc)
}

/// The integer denoted by an unsigned decimal string (an optional `+`,
/// then digits), or `None` where the string is not of that shape.
pub open spec fn spec_parse_uint(s: Seq<char>) -> Option<int> {
    if s.len() > 0 && s[0] == '+' {
        spec_parse_digits(s.subrange(1, s.len() as int))
    } else {
        spec_parse_digits(s)
    }
}

/// Parses a decimal string into an `i32`, as the recurrence bitmask
/// field is read.
pub fn parse_i32(s: &str) -> (r: Option<i32>)
    ensures
        r is Some <==> (spec_parse_int(s@) is Some && i32::MIN <= spec_parse_int(s@)->0
            <= i32::MAX),
        r is Some ==> r->0 == spec_parse_int(s@)->0,
{
    match parse_i64(s) {
        Some(v) => {
            if i32::MIN as i64 <= v && v <= i32::MAX as i64 {
                Some(v as i32)
            } else {
                None
            }
        },
        None => None,
    }
}

pub open spec fn char_of_digit(v: int) -> char {
    if v == 0 {
        '0'
    } else if v == 1 {
        '1'
    } else if v == 2 {
        '2'
    } else if v == 3 {
        '3'
    } else if v == 4 {
        '4'
    } else if v == 5 {
        '5'
    } else if v == 6 {
        '6'
    } else if v == 7 {
        '7'
    } else if v == 8 {
        '8'
    } else {
        '9'
    }
}

/// The decimal rendering of a non-negative integer, without sign or
/// padding.
pub open spec fn dec_str(n: nat) -> Seq<char>
    decreases n,
{
    if n < 10 {
        seq![char_of_digit(n as int)]
    } else {
        dec_str(n / 10).push(char_of_digit((n % 10) as int))
    }
}

fn digit_str(d: u64) -> (r: &'static str)
    requires
        d < 10,
    ensures
        r@ =~= seq![char_of_digit(d as int)],
{
    proof {
        reveal_strlit("0");
        reveal_strlit("1");
        reveal_strlit("2");
        reveal_strlit("3");
        reveal_strlit("4");
        reveal_strlit("5");
        reveal_strlit("6");
        reveal_strlit("7");
        reveal_strlit("8");
        reveal_strlit("9");
    }
    match d {
        0 => "0",
        1 => "1",
        2 => "2",
        3 => "3",
        4 => "4",
        5 => "5",
        6 => "6",
        7 => "7",
        8 => "8",
        _ => "9",
    }
}

/// Renders a non-negative integer in decimal, for the minute counts
/// and task counts shown in notification messages.
pub fn u64_to_string(n: u64) -> (r: String)
    ensures
        r@ == dec_str(n as nat),
    decreases n,
{
    if n < 10 {
        String::from_str(digit_str(n))
    } else {
        let mut s = u64_to_string(n / 10);
        s.append(digit_str(n % 10));
        assert(s@ =~= dec_str((n / 10) as nat).push(char_of_digit((n % 10) as int)));
        s
    }
}

} // verus!
