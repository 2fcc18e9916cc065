//! Text as sequences of characters: prefixes, substrings, decimal numerals
//! read and written, and bytes decoded as UTF-8.

use vstd::prelude::*;
use vstd::string::*;

verus! {

/// The characters of `s`, in order.
pub fn chars_of(s: &str) -> (v: Vec<char>)
    ensures
        v@ == s@,
{
    let n: usize = s.unicode_len();
    let mut v: Vec<char> = Vec::new();
    let mut i: usize = 0;
    while i < n
        invariant
            n == s@.len(),
            i <= n,
            v@ == s@.subrange(0, i as int),
        decreases n - i,
    {
        let c = s.get_char(i);
        v.push(c);
        i = i + 1;
        assert(v@ == s@.subrange(0, i as int));
    }
    assert(s@.subrange(0, n as int) == s@);
    v
}

/// `part` stands in `whole` at position `at`.
pub open spec fn occurs_at(whole: Seq<char>, part: Seq<char>, at: int) -> bool {
    &&& 0 <= at
    &&& at + part.len() <= whole.len()
    &&& whole.subrange(at, at + part.len()) == part
}

/// `part` stands somewhere in `whole`. The empty text stands in every text.
pub open spec fn occurs_in(whole: Seq<char>, part: Seq<char>) -> bool {
    exists|at: int| occurs_at(whole, part, at)
}

fn matches_at(whole: &Vec<char>, part: &Vec<char>, at: usize) -> (b: bool)
    requires
        at + part@.len() <= whole@.len(),
    ensures
        b == occurs_at(whole@, part@, at as int),
{
    let m: usize = part.len();
    let mut j: usize = 0;
    while j < m
        invariant
            m == part.len(),
            at + m <= whole.len(),
            j <= m,
            forall|k: int| 0 <= k < j ==> whole@[at + k] == part@[k],
        decreases m - j,
    {
        if whole[at + j] != part[j] {
            assert(whole@.subrange(at as int, at + m)[j as int] == whole@[at + j]);
            return false;
        }
        j = j + 1;
    }
    assert(whole@.subrange(at as int, at + m) =~= part@);
    true
}

/// Whether two texts hold the same characters.
pub fn same_text(a: &str, b: &str) -> (same: bool)
    ensures
        same == (a@ == b@),
{
    let x = chars_of(a);
    let y = chars_of(b);
    if x.len() != y.len() {
        return false;
    }
    let same = matches_at(&x, &y, 0);
    assert(x@.subrange(0, y@.len() as int) =~= x@);
    same
}

/// Whether `whole` begins with `prefix`.
pub fn starts_with(whole: &str, prefix: &str) -> (b: bool)
    ensures
        b == prefix@.is_prefix_of(whole@),
{
    let w = chars_of(whole);
    let p = chars_of(prefix);
    if p.len() > w.len() {
        return false;
    }
    let b = matches_at(&w, &p, 0);
    assert(w@.subrange(0, p@.len() as int) == p@ <==> p@.is_prefix_of(w@)) by {
        if p@.is_prefix_of(w@) {
            assert(w@.subrange(0, p@.len() as int) =~= p@);
        }
    }
    b
}

/// Whether `part` stands somewhere in `whole`, character for character.
pub fn contains(whole: &str, part: &str) -> (b: bool)
    ensures
        b == occurs_in(whole@, part@),
{
    let w = chars_of(whole);
    let p = chars_of(part);
    if p.len() > w.len() {
        return false;
    }
    let last: usize = w.len() - p.len();
    let mut at: usize = 0;
    loop
        invariant
            w@ == whole@,
            p@ == part@,
            last == w.len() - p.len(),
            at <= last,
            forall|k: int| 0 <= k < at ==> !occurs_at(w@, p@, k),
        decreases last - at,
    {
        if matches_at(&w, &p, at) {
            return true;
        }
        if at == last {
            return false;
        }
        at = at + 1;
    }
}

/// The ten decimal digits.
pub open spec fn digit_char(d: int) -> char {
    seq!['0', '1', '2', '3', '4', '5', '6', '7', '8', '9'][d]
}

/// The decimal numeral of `n`, without sign or leading zeros.
pub open spec fn decimal_digits(n: nat) -> Seq<char>
    decreases n,
{
    if n < 10 {
        seq![digit_char(n as int)]
    } else {
        decimal_digits(n / 10).push(digit_char((n % 10) as int))
    }
}

/// The decimal numeral of `i`, with a minus sign before a negative one.
pub open spec fn decimal_text(i: int) -> Seq<char> {
    if i < 0 {
        seq!['-'] + decimal_digits((-i) as nat)
    } else {
        decimal_digits(i as nat)
    }
}

fn digit_str(d: u64) -> (s: &'static str)
    requires
        d < 10,
    ensures
        s@ == seq![digit_char(d as int)],
{
    proof {
        reveal_strlit("0");
        reveal_strlit("1");
        reveal_strlit("2");
        reveal_strlit("3");
        reveal_strlit("4");
        reveal_strlit("5");
        reveal_strlit("6");
        reveal_strlit("7");
        reveal_strlit("8");
        reveal_strlit("9");
    }
    let s = if d == 0 {
        "0"
    } else if d == 1 {
        "1"
    } else if d == 2 {
        "2"
    } else if d == 3 {
        "3"
    } else if d == 4 {
        "4"
    } else if d == 5 {
        "5"
    } else if d == 6 {
        "6"
    } else if d == 7 {
        "7"
    } else if d == 8 {
        "8"
    } else {
        "9"
    };
    assert(s@ =~= seq![digit_char(d as int)]);
    s
}

/// Writes `n` in decimal.
pub fn decimal_string(n: u64) -> (s: String)
    ensures
        s@ == decimal_digits(n as nat),
    decreases n,
{
    if n < 10 {
        String::from_str(digit_str(n))
    } else {
        let mut s = decimal_string(n / 10);
        s.append(digit_str(n % 10));
        assert(s@ =~= decimal_digits(n as nat));
        s
    }
}

/// Writes `i` in decimal, with a minus sign before a negative one.
pub fn signed_decimal_string(i: i64) -> (s: String)
    ensures
        s@ == decimal_text(i as int),
{
    if i < 0 {
        let magnitude: u64 = (-(i + 1)) as u64 + 1;
        proof {
            reveal_strlit("-");
        }
        let mut s = String::from_str("-");
        let digits = decimal_string(magnitude);
        s.append(digits.as_str());
        assert(s@ =~= decimal_text(i as int));
        s
    } else {
        decimal_string(i as u64)
    }
}

/// The ten decimal digits.
pub open spec fn is_digit(c: char) -> bool {
    '0' <= c <= '9'
}

/// The number that a decimal digit stands for.
pub open spec fn digit_value(c: char) -> int {
    c as u32 - 48
}

/// Whether a text holds decimal digits only.
pub open spec fn all_digits(s: Seq<char>) -> bool {
    forall|i: int| 0 <= i < s.len() ==> is_digit(#[trigger] s[i])
}

/// The number that a run of decimal digits writes.
pub open spec fn digits_value(s: Seq<char>) -> int
    decreases s.len(),
{
    if s.len() == 0 {
        0
    } else {
        digits_value(s.drop_last()) * 10 + digit_value(s.last())
    }
}

/// The integer that `s` writes: an optional `+` or `-`, then one digit or
/// more, and nothing else. Any other text writes none.
pub open spec fn integer_of(s: Seq<char>) -> Option<int> {
    let signed = s.len() > 0 && (s[0] == '+' || s[0] == '-');
    let body = if signed { s.subrange(1, s.len() as int) } else { s };
    if body.len() > 0 && all_digits(body) {
        if s[0] == '-' {
            Some(-digits_value(body))
        } else {
            Some(digits_value(body))
        }
    } else {
        None
    }
}

/// The integer that `s` writes, where it lies between `low` and `high`.
pub open spec fn integer_within(s: Seq<char>, low: int, high: int) -> Option<int> {
    match integer_of(s) {
        Some(v) => if low <= v <= high { Some(v) } else { None },
        None => None,
    }
}

/// The number that `s` writes where no minus sign is accepted and the number
/// is at most `high`.
pub open spec fn natural_within(s: Seq<char>, high: int) -> Option<int> {
    if s.len() > 0 && s[0] == '-' {
        None
    } else {
        integer_within(s, 0, high)
    }
}

proof fn digits_value_grows(s: Seq<char>, k: int)
    requires
        all_digits(s),
        0 <= k <= s.len(),
    ensures
        0 <= digits_value(s.subrange(0, k)) <= digits_value(s),
    decreases s.len() - k,
{
    if k == s.len() {
        assert(s.subrange(0, k) =~= s);
        digits_value_nonnegative(s);
    } else {
        digits_value_grows(s, k + 1);
        let longer = s.subrange(0, k + 1);
        assert(longer.drop_last() =~= s.subrange(0, k));
        assert(is_digit(s[k]));
        assert(longer.last() == s[k]);
        assert(all_digits(s.subrange(0, k)));
        digits_value_nonnegative(s.subrange(0, k));
    }
}

proof fn digits_value_nonnegative(s: Seq<char>)
    requires
        all_digits(s),
    ensures
        0 <= digits_value(s),
    decreases s.len(),
{
    if s.len() > 0 {
        assert(all_digits(s.drop_last()));
        digits_value_nonnegative(s.drop_last());
        assert(is_digit(s.last()));
    }
}

/// Reads the digits of `v` from `start` to its end as a number of at most
/// `limit`; none where there is no digit, another character, or more.
fn read_digits(v: &Vec<char>, start: usize, limit: u64) -> (r: Option<u64>)
    requires
        start <= v.len(),
    ensures
        r == (if start < v.len() && all_digits(v@.subrange(start as int, v.len() as int))
            && digits_value(v@.subrange(start as int, v.len() as int)) <= limit {
            Some(digits_value(v@.subrange(start as int, v.len() as int)) as u64)
        } else {
            None
        }),
{
    let n: usize = v.len();
    let ghost body = v@.subrange(start as int, n as int);
    if start >= n {
        return None;
    }
    let mut acc: u64 = 0;
    let mut i: usize = start;
    while i < n
        invariant
            n == v.len(),
            start <= i <= n,
            body == v@.subrange(start as int, n as int),
            all_digits(body.subrange(0, i - start)),
            acc == digits_value(body.subrange(0, i - start)),
            acc <= limit,
        decreases n - i,
    {
        let c = v[i];
        assert(body[i - start] == c);
        if !(c >= '0' && c <= '9') {
            return None;
        }
        let d: u64 = (c as u32 - 48) as u64;
        let ghost longer = body.subrange(0, i + 1 - start);
        proof {
            assert(longer.drop_last() =~= body.subrange(0, i - start));
            assert(longer.last() == c);
            assert(all_digits(longer)) by {
                assert forall|k: int| 0 <= k < longer.len() implies is_digit(#[trigger] longer[k]) by {
                    if k < i - start {
                        assert(body.subrange(0, i - start)[k] == longer[k]);
                    }
                }
            }
            assert(digits_value(longer) == acc * 10 + d);
        }
        if d > limit || acc > (limit - d) / 10 {
            proof {
                assert(digits_value(longer) > limit);
                if all_digits(body) {
                    digits_value_grows(body, i + 1 - start);
                }
            }
            return None;
        }
        acc = acc * 10 + d;
        i = i + 1;
    }
    assert(body.subrange(0, n - start) =~= body);
    Some(acc)
}

/// Reads a decimal integer between `low` and `high`.
fn parse_integer(s: &str, low: i64, high: i64) -> (r: Option<i64>)
    requires
        low <= 0 <= high,
    ensures
        r == match integer_within(s@, low as int, high as int) {
            Some(v) => Some(v as i64),
            None => None,
        },
{
    let v = chars_of(s);
    if v.len() == 0 {
        return None;
    }
    let first = v[0];
    let ghost rest = v@.subrange(1, v.len() as int);
    proof {
        if all_digits(rest) {
            digits_value_nonnegative(rest);
        }
        if all_digits(v@) {
            digits_value_nonnegative(v@);
        }
        assert(v@.subrange(0, v.len() as int) =~= v@);
    }
    if first == '-' {
        let limit: u64 = if low == 0 {
            0
        } else {
            (-(low + 1)) as u64 + 1
        };
        match read_digits(&v, 1, limit) {
            Some(m) => {
                if m == 0 {
                    Some(0)
                } else {
                    Some(-((m - 1) as i64) - 1)
                }
            },
            None => None,
        }
    } else if first == '+' {
        match read_digits(&v, 1, high as u64) {
            Some(m) => Some(m as i64),
            None => None,
        }
    } else {
        match read_digits(&v, 0, high as u64) {
            Some(m) => Some(m as i64),
            None => None,
        }
    }
}

/// Reads a decimal integer that fits `i64`.
pub fn parse_i64(s: &str) -> (r: Option<i64>)
    ensures
        r == match integer_within(s@, i64::MIN as int, i64::MAX as int) {
            Some(v) => Some(v as i64),
            None => None,
        },
{
    parse_integer(s, i64::MIN, i64::MAX)
}

/// Reads a decimal integer that fits `i32`.
pub fn parse_i32(s: &str) -> (r: Option<i32>)
    ensures
        r == match integer_within(s@, i32::MIN as int, i32::MAX as int) {
            Some(v) => Some(v as i32),
            None => None,
        },
{
    match parse_integer(s, i32::MIN as i64, i32::MAX as i64) {
        Some(v) => Some(v as i32),
        None => None,
    }
}

/// Reads a decimal number that fits `u64`; a minus sign is not accepted.
pub fn parse_u64(s: &str) -> (r: Option<u64>)
    ensures
        r == match natural_within(s@, u64::MAX as int) {
            Some(v) => Some(v as u64),
            None => None,
        },
{
    let v = chars_of(s);
    if v.len() == 0 {
        return None;
    }
    let first = v[0];
    if first == '-' {
        None
    } else if first == '+' {
        let r = read_digits(&v, 1, u64::MAX);
        proof {
            if all_digits(v@.subrange(1, v.len() as int)) {
                digits_value_nonnegative(v@.subrange(1, v.len() as int));
            }
        }
        r
    } else {
        assert(v@.subrange(0, v.len() as int) =~= v@);
        let r = read_digits(&v, 0, u64::MAX);
        proof {
            if all_digits(v@) {
                digits_value_nonnegative(v@);
            }
        }
        r
    }
}

} // verus!
