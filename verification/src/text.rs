//! Character-level helpers: whitespace trimming and decimal integer parsing
//! with the semantics of `str::trim` and `str::parse` for integers.

use vstd::prelude::*;

verus! {

broadcast use vstd::string::group_string_axioms;

/// Copies the characters of `s` into a vector.
pub fn chars_of(s: &str) -> (r: Vec<char>)
    ensures
        r@ == s@,
{
    let mut v: Vec<char> = Vec::new();
    for c in it: s.chars()
        invariant
            v@ == it.seq().take(it.index()),
            it.seq() == s@,
    {
        v.push(c);
    }
    v
}

} // verus!

verus! {

/// The Unicode `White_Space` property, which is what `char::is_whitespace`
/// tests and what `str::trim` removes.
pub open spec fn is_white_space(c: char) -> bool {
    let v = c as u32;
    ||| 0x9 <= v <= 0xd
    ||| v == 0x20
    ||| v == 0x85
    ||| v == 0xa0
    ||| v == 0x1680
    ||| 0x2000 <= v <= 0x200a
    ||| v == 0x2028
    ||| v == 0x2029
    ||| v == 0x202f
    ||| v == 0x205f
    ||| v == 0x3000
}

/// `s` without its leading whitespace.
pub open spec fn trim_start(s: Seq<char>) -> Seq<char>
    decreases s.len(),
{
    if s.len() > 0 && is_white_space(s[0]) {
        trim_start(s.drop_first())
    } else {
        s
    }
}

/// `s` without its trailing whitespace.
pub open spec fn trim_end(s: Seq<char>) -> Seq<char>
    decreases s.len(),
{
    if s.len() > 0 && is_white_space(s.last()) {
        trim_end(s.drop_last())
    } else {
        s
    }
}

/// `s` without leading and trailing whitespace (`str::trim`).
pub open spec fn trim(s: Seq<char>) -> Seq<char> {
    trim_end(trim_start(s))
}

/// Tests the Unicode `White_Space` property.
pub fn is_white_space_char(c: char) -> (r: bool)
    ensures
        r == is_white_space(c),
{
    let v = c as u32;
    (0x9 <= v && v <= 0xd) || v == 0x20 || v == 0x85 || v == 0xa0 || v == 0x1680 || (0x2000 <= v
        && v <= 0x200a) || v == 0x2028 || v == 0x2029 || v == 0x202f || v == 0x205f || v == 0x3000
}

/// The bounds, within `s[from..to]`, of that range with surrounding
/// whitespace removed.
pub fn trim_bounds(s: &Vec<char>, from: usize, to: usize) -> (r: (usize, usize))
    requires
        from <= to <= s.len(),
    ensures
        from <= r.0 <= r.1 <= to,
        s@.subrange(r.0 as int, r.1 as int) == trim(s@.subrange(from as int, to as int)),
{
    let mut a = from;
    while a < to && is_white_space_char(s[a])
        invariant
            from <= a <= to <= s.len(),
            trim_start(s@.subrange(from as int, to as int)) == trim_start(
                s@.subrange(a as int, to as int),
            ),
        decreases to - a,
    {
        assert(s@.subrange(a as int, to as int).drop_first() =~= s@.subrange(
            a + 1,
            to as int,
        ));
        a = a + 1;
    }
    let mut b = to;
    while b > a && is_white_space_char(s[b - 1])
        invariant
            from <= a <= b <= to <= s.len(),
            trim_end(s@.subrange(a as int, to as int)) == trim_end(
                s@.subrange(a as int, b as int),
            ),
        decreases b - a,
    {
        assert(s@.subrange(a as int, b as int).drop_last() =~= s@.subrange(
            a as int,
            b - 1,
        ));
        b = b - 1;
    }
    (a, b)
}

/// Whether `c` is an ASCII decimal digit.
pub open spec fn is_digit(c: char) -> bool {
    48 <= (c as u32) <= 57
}

/// The value of an ASCII decimal digit.
pub open spec fn digit_value(c: char) -> int {
    (c as u32) - 48
}

/// Whether every character of `s` is an ASCII decimal digit.
pub open spec fn all_digits(s: Seq<char>) -> bool {
    forall|i: int| 0 <= i < s.len() ==> is_digit(#[trigger] s[i])
}

/// The number that the decimal digits `s` denote (most significant first).
pub open spec fn digits_value(s: Seq<char>) -> int
    decreases s.len(),
{
    if s.len() == 0 {
        0
    } else {
        digits_value(s.drop_last()) * 10 + digit_value(s.last())
    }
}

/// The integer that `str::parse` reads from `s`, before the range check of
/// the target type: an optional `+` (or, for a signed type, `-`) followed by
/// one or more ASCII digits and nothing else.
pub open spec fn parse_integer(s: Seq<char>, signed: bool) -> Option<int> {
    if s.len() == 0 {
        None
    } else if s.len() == 1 && (s[0] == '+' || s[0] == '-') {
        None
    } else {
        let negative = s[0] == '-' && signed;
        let digits = if s[0] == '+' || negative {
            s.drop_first()
        } else {
            s
        };
        if all_digits(digits) {
            Some(
                if negative {
                    -digits_value(digits)
                } else {
                    digits_value(digits)
                },
            )
        } else {
            None
        }
    }
}

/// `s.parse::<i64>()`, with `None` for every error.
pub open spec fn parse_i64(s: Seq<char>) -> Option<i64> {
    match parse_integer(s, true) {
        Some(v) => if i64::MIN <= v <= i64::MAX {
            Some(v as i64)
        } else {
            None
        },
        None => None,
    }
}

/// `s.parse::<i32>()`, with `None` for every error.
pub open spec fn parse_i32(s: Seq<char>) -> Option<i32> {
    match parse_integer(s, true) {
        Some(v) => if i32::MIN <= v <= i32::MAX {
            Some(v as i32)
        } else {
            None
        },
        None => None,
    }
}

/// `s.parse::<u64>()`, with `None` for every error.
pub open spec fn parse_u64(s: Seq<char>) -> Option<u64> {
    match parse_integer(s, false) {
        Some(v) => if 0 <= v <= u64::MAX {
            Some(v as u64)
        } else {
            None
        },
        None => None,
    }
}

proof fn lemma_digits_value_nonneg(s: Seq<char>)
    requires
        all_digits(s),
    ensures
        digits_value(s) >= 0,
    decreases s.len(),
{
    if s.len() > 0 {
        assert(is_digit(s[s.len() - 1]));
        lemma_digits_value_nonneg(s.drop_last());
    }
}

/// A prefix of a digit string never denotes more than the whole string.
proof fn lemma_digits_prefix_le(s: Seq<char>, k: int)
    requires
        all_digits(s),
        0 <= k <= s.len(),
    ensures
        digits_value(s.take(k)) <= digits_value(s),
    decreases s.len(),
{
    if k < s.len() {
        let t = s.drop_last();
        assert(all_digits(t));
        assert(t.take(k) =~= s.take(k));
        lemma_digits_prefix_le(t, k);
        lemma_digits_value_nonneg(t);
        assert(is_digit(s[s.len() - 1]));
    } else {
        assert(s.take(k) =~= s);
    }
}

/// Reads the decimal digits `s[from..to]`.
/// `None` when a character is not a digit or the value exceeds `u64::MAX`.
fn read_digits(s: &Vec<char>, from: usize, to: usize) -> (r: Option<u64>)
    requires
        from <= to <= s.len(),
    ensures
        match r {
            Some(m) => all_digits(s@.subrange(from as int, to as int)) && m == digits_value(
                s@.subrange(from as int, to as int),
            ),
            None => !all_digits(s@.subrange(from as int, to as int)) || digits_value(
                s@.subrange(from as int, to as int),
            ) > u64::MAX,
        },
{
    let ghost whole = s@.subrange(from as int, to as int);
    let mut acc: u64 = 0;
    let mut i = from;
    assert(s@.subrange(from as int, from as int) =~= Seq::<char>::empty());
    while i < to
        invariant
            from <= i <= to <= s.len(),
            whole == s@.subrange(from as int, to as int),
            all_digits(s@.subrange(from as int, i as int)),
            acc == digits_value(s@.subrange(from as int, i as int)),
        decreases to - i,
    {
        let c = s[i];
        let v = c as u32;
        let ghost next = s@.subrange(from as int, i + 1);
        assert(next.drop_last() =~= s@.subrange(from as int, i as int));
        assert(next.last() == c);
        if v < 48 || v > 57 {
            assert(whole[i - from] == c);
            return None;
        }
        let d = (v - 48) as u64;
        match acc.checked_mul(10) {
            Some(t) => match t.checked_add(d) {
                Some(n) => {
                    acc = n;
                },
                None => {
                    proof {
                        if all_digits(whole) {
                            assert(whole.take(i + 1 - from) =~= next);
                            lemma_digits_prefix_le(whole, i + 1 - from);
                        }
                    }
                    return None;
                },
            },
            None => {
                proof {
                    if all_digits(whole) {
                        assert(whole.take(i + 1 - from) =~= next);
                        lemma_digits_prefix_le(whole, i + 1 - from);
                    }
                }
                return None;
            },
        }
        i = i + 1;
        assert(all_digits(s@.subrange(from as int, i as int)));
    }
    Some(acc)
}

/// Reads an optional sign and the digits of `s[from..to]`, as `str::parse`
/// does for an integer type: the sign flag and the magnitude, or `None` for
/// a syntax error or a magnitude above `u64::MAX`.
fn read_integer(s: &Vec<char>, from: usize, to: usize, signed: bool) -> (r: Option<(bool, u64)>)
    requires
        from <= to <= s.len(),
    ensures
        ({
            let t = s@.subrange(from as int, to as int);
            match r {
                Some((neg, m)) => parse_integer(t, signed) == Some(
                    if neg {
                        -(m as int)
                    } else {
                        m as int
                    },
                ) && (neg ==> m > 0),
                None => match parse_integer(t, signed) {
                    Some(v) => v > u64::MAX || v < -(u64::MAX as int),
                    None => true,
                },
            }
        }),
{
    let ghost t = s@.subrange(from as int, to as int);
    if from == to {
        return None;
    }
    let c = s[from];
    assert(t[0] == c);
    if to - from == 1 && (c == '+' || c == '-') {
        return None;
    }
    let negative = c == '-' && signed;
    let start = if c == '+' || negative {
        from + 1
    } else {
        from
    };
    assert(c == '+' || negative ==> s@.subrange(start as int, to as int) =~= t.drop_first());
    assert(!(c == '+' || negative) ==> s@.subrange(start as int, to as int) =~= t);
    match read_digits(s, start, to) {
        Some(m) => {
            if negative && m == 0 {
                Some((false, 0))
            } else {
                Some((negative, m))
            }
        },
        None => None,
    }
}

/// `s[from..to].trim().parse::<i64>().ok()`.
pub fn parse_trimmed_i64(s: &Vec<char>, from: usize, to: usize) -> (r: Option<i64>)
    requires
        from <= to <= s.len(),
    ensures
        r == parse_i64(trim(s@.subrange(from as int, to as int))),
{
    let (a, b) = trim_bounds(s, from, to);
    match read_integer(s, a, b, true) {
        Some((neg, m)) => {
            if neg {
                if m <= 9223372036854775808 {
                    if m == 9223372036854775808 {
                        Some(i64::MIN)
                    } else {
                        Some(-(m as i64))
                    }
                } else {
                    None
                }
            } else if m <= 9223372036854775807 {
                Some(m as i64)
            } else {
                None
            }
        },
        None => None,
    }
}

/// `s[from..to].trim().parse::<i32>().ok()`.
pub fn parse_trimmed_i32(s: &Vec<char>, from: usize, to: usize) -> (r: Option<i32>)
    requires
        from <= to <= s.len(),
    ensures
        r == parse_i32(trim(s@.subrange(from as int, to as int))),
{
    let (a, b) = trim_bounds(s, from, to);
    match read_integer(s, a, b, true) {
        Some((neg, m)) => {
            if neg {
                if m <= 2147483648 {
                    if m == 2147483648 {
                        Some(i32::MIN)
                    } else {
                        Some(-(m as i32))
                    }
                } else {
                    None
                }
            } else if m <= 2147483647 {
                Some(m as i32)
            } else {
                None
            }
        },
        None => None,
    }
}

/// `s[from..to].trim().parse::<u64>().ok()`.
pub fn parse_trimmed_u64(s: &Vec<char>, from: usize, to: usize) -> (r: Option<u64>)
    requires
        from <= to <= s.len(),
    ensures
        r == parse_u64(trim(s@.subrange(from as int, to as int))),
{
    let (a, b) = trim_bounds(s, from, to);
    match read_integer(s, a, b, false) {
        Some((neg, m)) => {
            if neg {
                None
            } else {
                Some(m)
            }
        },
        None => None,
    }
}

} // verus!

verus! {

/// The lowercase form of `s` as `str::to_lowercase` gives it (by the Unicode
/// `Lowercase` mapping, which depends on the text alone).
pub uninterp spec fn lowercase(s: Seq<char>) -> Seq<char>;

/// Calls `str::to_lowercase`. The contract only names its result: the
/// Unicode case mapping is not written out here.
#[verifier::external_body]
pub(crate) fn to_lowercase(s: &str) -> (r: String)
    ensures
        r@ == lowercase(s@),
{
    s.to_lowercase()
}

} // verus!
