//! Small text routines over the characters of a string: comparison,
//! searching, decimal numbers as `str::parse` reads them and as `Display`
//! writes them, and joining.

use vstd::prelude::*;
use vstd::string::StrSliceExecFns;
use vstd::string::StringExecFns;

verus! {

pub open spec fn is_digit(c: char) -> bool {
    '0' <= c <= '9'
}

pub open spec fn all_digits(s: Seq<char>) -> bool {
    forall|i: int| 0 <= i < s.len() ==> is_digit(#[trigger] s[i])
}

/// The number that a string of decimal digits denotes.
pub open spec fn digits_value(s: Seq<char>) -> int
    decreases s.len(),
{
    if s.len() == 0 {
        0
    } else {
        digits_value(s.drop_last()) * 10 + (s.last() as int - '0' as int)
    }
}

/// What `str::parse::<u64>` gives: an optional `+` followed by at least
/// one decimal digit, denoting a number that fits in 64 bits.
pub open spec fn parse_u64_of(s: Seq<char>) -> Option<u64> {
    let t = if s.len() > 0 && s[0] == '+' {
        s.drop_first()
    } else {
        s
    };
    if t.len() > 0 && all_digits(t) && digits_value(t) <= u64::MAX {
        Some(digits_value(t) as u64)
    } else {
        None
    }
}

/// Number of occurrences of `c` in `s`.
pub open spec fn count_char(s: Seq<char>, c: char) -> nat
    decreases s.len(),
{
    if s.len() == 0 {
        0
    } else {
        count_char(s.drop_last(), c) + if s.last() == c {
            1nat
        } else {
            0nat
        }
    }
}

/// Position of the first `c` in `s` at or after `from`, if any.
pub open spec fn find_from(s: Seq<char>, c: char, from: int) -> Option<int>
    decreases s.len() - from,
{
    if from < 0 || from >= s.len() {
        None
    } else if s[from] == c {
        Some(from)
    } else {
        find_from(s, c, from + 1)
    }
}

/// The characters of `s`.
pub fn chars_of(s: &str) -> (r: Vec<char>)
    ensures
        r@ == s@,
{
    let n = s.unicode_len();
    let mut r: Vec<char> = Vec::new();
    let mut i: usize = 0;
    while i < n
        invariant
            n == s@.len(),
            i <= n,
            r@ == s@.take(i as int),
        decreases n - i,
    {
        r.push(s.get_char(i));
        proof {
            assert(r@ =~= s@.take(i + 1));
        }
        i = i + 1;
    }
    proof {
        assert(r@ =~= s@);
    }
    r
}

/// Whether two strings hold the same characters.
pub fn str_equals(a: &str, b: &str) -> (r: bool)
    ensures
        r == (a@ == b@),
{
    let x = chars_of(a);
    let y = chars_of(b);
    if x.len() != y.len() {
        return false;
    }
    let mut i: usize = 0;
    while i < x.len()
        invariant
            x@ == a@,
            y@ == b@,
            x@.len() == y@.len(),
            i <= x@.len(),
            forall|k: int| 0 <= k < i ==> x@[k] == y@[k],
        decreases x@.len() - i,
    {
        if x[i] != y[i] {
            return false;
        }
        i = i + 1;
    }
    proof {
        assert(a@ =~= b@);
    }
    true
}

/// Position of the first `c` at or after `from`.
pub fn find_char_from(s: &Vec<char>, c: char, from: usize) -> (r: Option<usize>)
    ensures
        match r {
            Some(i) => find_from(s@, c, from as int) == Some(i as int),
            None => find_from(s@, c, from as int).is_none(),
        },
{
    let mut i = from;
    while i < s.len()
        invariant
            from <= i,
            i <= s@.len() || i == from,
            find_from(s@, c, from as int) == find_from(s@, c, i as int),
        decreases s@.len() - i,
    {
        if s[i] == c {
            return Some(i);
        }
        i = i + 1;
    }
    None
}

proof fn lemma_count_split(s: Seq<char>, c: char, k: int)
    requires
        0 <= k <= s.len(),
    ensures
        count_char(s, c) == count_char(s.take(k), c) + count_char(s.skip(k), c),
    decreases s.len(),
{
    if s.len() == 0 {
        assert(s.take(k) =~= s);
        assert(s.skip(k) =~= s);
    } else if k == s.len() {
        assert(s.take(k) =~= s);
        assert(s.skip(k) =~= Seq::<char>::empty());
    } else {
        lemma_count_split(s.drop_last(), c, k);
        assert(s.drop_last().take(k) =~= s.take(k));
        assert(s.skip(k).drop_last() =~= s.drop_last().skip(k));
        assert(s.skip(k).last() == s.last());
    }
}

/// Number of occurrences of `c` in `s`.
pub fn count_of(s: &Vec<char>, c: char) -> (r: usize)
    ensures
        r == count_char(s@, c),
{
    let mut n: usize = 0;
    let mut i: usize = 0;
    while i < s.len()
        invariant
            i <= s@.len(),
            n == count_char(s@.take(i as int), c),
            n <= i,
        decreases s@.len() - i,
    {
        proof {
            assert(s@.take(i + 1).drop_last() =~= s@.take(i as int));
        }
        if s[i] == c {
            n = n + 1;
        }
        i = i + 1;
    }
    proof {
        assert(s@.take(s@.len() as int) =~= s@);
    }
    n
}

/// Parses `s[from..to]` as `str::parse::<u64>` does.
pub fn parse_u64_range(s: &Vec<char>, from: usize, to: usize) -> (r: Option<u64>)
    requires
        from <= to <= s@.len(),
    ensures
        r == parse_u64_of(s@.subrange(from as int, to as int)),
{
    let ghost whole = s@.subrange(from as int, to as int);
    let mut start = from;
    if from < to && s[from] == '+' {
        start = from + 1;
    }
    let ghost t = s@.subrange(start as int, to as int);
    proof {
        if from < to && s@[from as int] == '+' {
            assert(t =~= whole.drop_first());
        } else {
            assert(t =~= whole);
        }
    }
    if start == to {
        return None;
    }
    assert(parse_u64_of(whole) == if all_digits(t) && digits_value(t) <= u64::MAX {
        Some(digits_value(t) as u64)
    } else {
        None
    });
    let mut value: u64 = 0;
    let mut i = start;
    while i < to
        invariant
            start <= i <= to <= s@.len(),
            t == s@.subrange(start as int, to as int),
            whole == s@.subrange(from as int, to as int),
            parse_u64_of(whole) == if all_digits(t) && digits_value(t) <= u64::MAX {
                Some(digits_value(t) as u64)
            } else {
                None
            },
            all_digits(s@.subrange(start as int, i as int)),
            value == digits_value(s@.subrange(start as int, i as int)),
        decreases to - i,
    {
        let c = s[i];
        let ghost prefix = s@.subrange(start as int, i as int);
        let ghost next = s@.subrange(start as int, i + 1);
        proof {
            assert(next.drop_last() =~= prefix);
            assert(next.last() == c);
        }
        if c < '0' || c > '9' {
            proof {
                assert(t[i - start] == c);
                assert(!is_digit(t[i - start]));
                assert(!all_digits(t));
            }
            return None;
        }
        let d = (c as u32 - '0' as u32) as u64;
        if value > (u64::MAX - d) / 10 {
            proof {
                assert(t.take((i - start + 1) as int) =~= next);
                lemma_digits_prefix_bound(t, (i - start + 1) as int);
                assert(digits_value(next) == value * 10 + d);
                assert(value * 10 + d > u64::MAX) by (nonlinear_arith)
                    requires
                        value > (u64::MAX - d) / 10,
                        0 <= d <= 9,
                ;
            }
            return None;
        }
        value = value * 10 + d;
        proof {
            assert(all_digits(next)) by {
                assert forall|k: int| 0 <= k < next.len() implies is_digit(#[trigger] next[k]) by {
                    if k < prefix.len() {
                        assert(next[k] == prefix[k]);
                    }
                }
            }
        }
        i = i + 1;
    }
    proof {
        assert(s@.subrange(start as int, to as int) =~= t);
    }
    Some(value)
}

proof fn lemma_digits_monotone(t: Seq<char>, k: int)
    requires
        0 <= k <= t.len(),
        all_digits(t),
    ensures
        digits_value(t.take(k)) <= digits_value(t),
        digits_value(t.take(k)) >= 0,
    decreases t.len(),
{
    if t.len() == 0 {
        assert(t.take(k) =~= t);
    } else if k == t.len() {
        assert(t.take(k) =~= t);
        lemma_digits_nonneg(t);
    } else {
        let u = t.drop_last();
        assert(all_digits(u)) by {
            assert forall|i: int| 0 <= i < u.len() implies is_digit(#[trigger] u[i]) by {
                assert(u[i] == t[i]);
            }
        }
        lemma_digits_monotone(u, k);
        assert(u.take(k) =~= t.take(k));
        lemma_digits_nonneg(u);
        assert(is_digit(t[t.len() - 1]));
    }
}

proof fn lemma_digits_nonneg(t: Seq<char>)
    requires
        all_digits(t),
    ensures
        digits_value(t) >= 0,
    decreases t.len(),
{
    if t.len() > 0 {
        let u = t.drop_last();
        assert(all_digits(u)) by {
            assert forall|i: int| 0 <= i < u.len() implies is_digit(#[trigger] u[i]) by {
                assert(u[i] == t[i]);
            }
        }
        lemma_digits_nonneg(u);
        assert(is_digit(t[t.len() - 1]));
    }
}

/// A prefix whose value is too large makes the whole too large.
proof fn lemma_digits_prefix_bound(t: Seq<char>, k: int)
    requires
        0 <= k <= t.len(),
    ensures
        all_digits(t) ==> digits_value(t.take(k)) <= digits_value(t),
{
    if all_digits(t) {
        lemma_digits_monotone(t, k);
    }
}

/// The decimal digit character of `d` (0 to 9).
pub open spec fn digit_char(d: int) -> char {
    ('0' as int + d) as char
}

/// `n` in decimal, as `Display` writes an unsigned integer: no sign, no
/// leading zeros.
pub open spec fn decimal_of(n: nat) -> Seq<char>
    decreases n,
{
    if n < 10 {
        seq![digit_char(n as int)]
    } else {
        decimal_of(n / 10).push(digit_char((n % 10) as int))
    }
}

/// `i` in decimal, as `Display` writes a signed integer: a minus sign
/// before negative numbers.
pub open spec fn signed_decimal_of(i: int) -> Seq<char> {
    if i < 0 {
        seq!['-'] + decimal_of((-i) as nat)
    } else {
        decimal_of(i as nat)
    }
}

/// The one-character string of the digit `d`.
fn digit_str(d: u64) -> (s: &'static str)
    requires
        d < 10,
    ensures
        s@ == seq![digit_char(d as int)],
{
    let s = match d {
        0 => "0",
        1 => "1",
        2 => "2",
        3 => "3",
        4 => "4",
        5 => "5",
        6 => "6",
        7 => "7",
        8 => "8",
        _ => "9",
    };
    proof {
        reveal_strlit("0");
        reveal_strlit("1");
        reveal_strlit("2");
        reveal_strlit("3");
        reveal_strlit("4");
        reveal_strlit("5");
        reveal_strlit("6");
        reveal_strlit("7");
        reveal_strlit("8");
        reveal_strlit("9");
        assert(s@ =~= seq![digit_char(d as int)]);
    }
    s
}

/// Appends `n` in decimal to `out`.
pub fn push_decimal(out: &mut String, n: u64)
    ensures
        final(out)@ == old(out)@ + decimal_of(n as nat),
    decreases n,
{
    if n >= 10 {
        push_decimal(out, n / 10);
    }
    out.append(digit_str(n % 10));
    proof {
        if n >= 10 {
            assert(decimal_of(n as nat) == decimal_of((n / 10) as nat).push(digit_char((n % 10) as int)));
        }
        assert(final(out)@ =~= old(out)@ + decimal_of(n as nat));
    }
}

/// Appends `i` in decimal to `out`, with a minus sign when negative.
pub fn push_signed_decimal(out: &mut String, i: i64)
    ensures
        final(out)@ == old(out)@ + signed_decimal_of(i as int),
{
    if i < 0 {
        out.append("-");
        let magnitude: u64 = if i == i64::MIN {
            9_223_372_036_854_775_808u64
        } else {
            (-i) as u64
        };
        push_decimal(out, magnitude);
        proof {
            reveal_strlit("-");
            assert(final(out)@ =~= old(out)@ + signed_decimal_of(i as int));
        }
    } else {
        push_decimal(out, i as u64);
    }
}

/// The two texts joined by an underscore.
pub fn join_underscore(a: &str, b: &str) -> (r: String)
    ensures
        r@ == a@ + seq!['_'] + b@,
{
    let mut r = a.to_owned();
    r.append("_");
    r.append(b);
    proof {
        reveal_strlit("_");
        assert(r@ =~= a@ + seq!['_'] + b@);
    }
    r
}

} // verus!
