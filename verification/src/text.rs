//! Decimal integers as text: formatting, parsing and whitespace trimming, with
//! the meaning that std's `Display`, `FromStr` and `str::trim` give them.
use vstd::prelude::*;

verus! {

/// The ASCII digit for `d` (0..=9).
pub open spec fn digit_char(d: int) -> char {
    (d + 48) as char
}

/// The decimal digits of `n`, most significant first, with no leading zeros.
pub open spec fn nat_digits(n: nat) -> Seq<char>
    decreases n,
{
    if n < 10 {
        seq![digit_char(n as int)]
    } else {
        nat_digits(n / 10).push(digit_char((n % 10) as int))
    }
}

/// The decimal text of `n`, with a leading `-` when it is negative.
pub open spec fn int_decimal(n: int) -> Seq<char> {
    if n < 0 {
        seq!['-'] + nat_digits((-n) as nat)
    } else {
        nat_digits(n as nat)
    }
}

fn digit_str(d: u64) -> (r: &'static str)
    requires
        d < 10,
    ensures
        r@ == seq![digit_char(d as int)],
{
    proof {
        reveal_strlit("0");
        reveal_strlit("1");
        reveal_strlit("2");
        reveal_strlit("3");
        reveal_strlit("4");
        reveal_strlit("5");
        reveal_strlit("6");
        reveal_strlit("7");
        reveal_strlit("8");
        reveal_strlit("9");
    }
    if d == 0 {
        "0"
    } else if d == 1 {
        "1"
    } else if d == 2 {
        "2"
    } else if d == 3 {
        "3"
    } else if d == 4 {
        "4"
    } else if d == 5 {
        "5"
    } else if d == 6 {
        "6"
    } else if d == 7 {
        "7"
    } else if d == 8 {
        "8"
    } else {
        "9"
    }
}

/// Appends the decimal digits of `n` to `out`.
pub fn push_u64_decimal(out: &mut String, n: u64)
    ensures
        final(out)@ == old(out)@ + nat_digits(n as nat),
    decreases n,
{
    if n < 10 {
        out.append(digit_str(n));
    } else {
        push_u64_decimal(out, n / 10);
        out.append(digit_str(n % 10));
        assert(old(out)@ + nat_digits(n as nat) =~= old(out)@ + nat_digits((n / 10) as nat) + seq![
            digit_char((n % 10) as int),
        ]);
    }
}

/// Appends the decimal text of `n` to `out`, as `i64`'s `Display` writes it.
pub fn push_i64_decimal(out: &mut String, n: i64)
    ensures
        final(out)@ == old(out)@ + int_decimal(n as int),
{
    if n < 0 {
        proof {
            reveal_strlit("-");
        }
        out.append("-");
        let magnitude: u64 = (0i128 - (n as i128)) as u64;
        push_u64_decimal(out, magnitude);
        assert(old(out)@ + int_decimal(n as int) =~= old(out)@ + seq!['-'] + nat_digits(
            magnitude as nat,
        ));
    } else {
        push_u64_decimal(out, n as u64);
    }
}

/// The decimal text of a signed integer.
pub fn i64_to_decimal(n: i64) -> (r: String)
    ensures
        r@ == int_decimal(n as int),
{
    let mut s = String::new();
    push_i64_decimal(&mut s, n);
    assert(s@ =~= int_decimal(n as int));
    s
}

/// The decimal text of an unsigned integer.
pub fn u64_to_decimal(n: u64) -> (r: String)
    ensures
        r@ == nat_digits(n as nat),
{
    let mut s = String::new();
    push_u64_decimal(&mut s, n);
    assert(s@ =~= nat_digits(n as nat));
    s
}


/// Whether `c` is an ASCII digit.
pub open spec fn is_ascii_digit(c: char) -> bool {
    48 <= (c as int) <= 57
}

/// Whether every character of `s` is an ASCII digit.
pub open spec fn all_ascii_digits(s: Seq<char>) -> bool {
    forall|i: int| 0 <= i < s.len() ==> is_ascii_digit(#[trigger] s[i])
}

/// The number that a string of ASCII digits spells in base ten.
pub open spec fn digits_value(s: Seq<char>) -> nat
    decreases s.len(),
{
    if s.len() == 0 {
        0
    } else {
        digits_value(s.drop_last()) * 10 + ((s.last() as int) - 48) as nat
    }
}

/// The integer that `s` spells as a base-ten literal: an optional `+` or `-`,
/// then one or more ASCII digits, nothing else.
pub open spec fn signed_decimal_value(s: Seq<char>) -> Option<int> {
    if s.len() > 0 && s[0] == '-' {
        if s.len() > 1 && all_ascii_digits(s.skip(1)) {
            Some(-(digits_value(s.skip(1)) as int))
        } else {
            None
        }
    } else if s.len() > 0 && s[0] == '+' {
        if s.len() > 1 && all_ascii_digits(s.skip(1)) {
            Some(digits_value(s.skip(1)) as int)
        } else {
            None
        }
    } else if s.len() > 0 && all_ascii_digits(s) {
        Some(digits_value(s) as int)
    } else {
        None
    }
}

/// What `FromStr` gives for an integer type whose values are `lo..=hi`:
/// the literal's value when it spells one in range, and nothing otherwise.
pub open spec fn parse_int_in(s: Seq<char>, lo: int, hi: int) -> Option<int> {
    match signed_decimal_value(s) {
        Some(v) => if lo <= v <= hi {
            Some(v)
        } else {
            None
        },
        None => None,
    }
}

/// Unicode `White_Space`, the set that `char::is_whitespace` tests.
pub open spec fn is_unicode_whitespace(c: char) -> bool {
    let u = c as int;
    ||| 9 <= u <= 13
    ||| u == 32
    ||| u == 0x85
    ||| u == 0xA0
    ||| u == 0x1680
    ||| 0x2000 <= u <= 0x200A
    ||| u == 0x2028
    ||| u == 0x2029
    ||| u == 0x202F
    ||| u == 0x205F
    ||| u == 0x3000
}

/// `s` without its leading whitespace.
pub open spec fn trim_start(s: Seq<char>) -> Seq<char>
    decreases s.len(),
{
    if s.len() > 0 && is_unicode_whitespace(s[0]) {
        trim_start(s.drop_first())
    } else {
        s
    }
}

/// `s` without its trailing whitespace.
pub open spec fn trim_end(s: Seq<char>) -> Seq<char>
    decreases s.len(),
{
    if s.len() > 0 && is_unicode_whitespace(s.last()) {
        trim_end(s.drop_last())
    } else {
        s
    }
}

/// `s` without leading and trailing whitespace, as `str::trim` returns it.
pub open spec fn trim(s: Seq<char>) -> Seq<char> {
    trim_end(trim_start(s))
}

fn is_whitespace_char(c: char) -> (r: bool)
    ensures
        r == is_unicode_whitespace(c),
{
    let u = c as u32;
    (9 <= u && u <= 13) || u == 32 || u == 0x85 || u == 0xA0 || u == 0x1680 || (0x2000 <= u && u
        <= 0x200A) || u == 0x2028 || u == 0x2029 || u == 0x202F || u == 0x205F || u == 0x3000
}

/// The character positions `(start, end)` of `s` trimmed of whitespace.
fn trimmed_bounds(s: &str) -> (r: (usize, usize))
    ensures
        r.0 <= r.1 <= s@.len(),
        s@.subrange(r.0 as int, r.1 as int) == trim(s@),
{
    let n = s.unicode_len();
    let mut i: usize = 0;
    assert(s@.subrange(0, n as int) =~= s@);
    while i < n && is_whitespace_char(s.get_char(i))
        invariant
            n == s@.len(),
            i <= n,
            trim_start(s@) == trim_start(s@.subrange(i as int, n as int)),
        decreases n - i,
    {
        assert(s@.subrange(i as int, n as int).drop_first() =~= s@.subrange(i + 1, n as int));
        i = i + 1;
    }
    assert(trim_start(s@.subrange(i as int, n as int)) == s@.subrange(i as int, n as int));
    let mut j: usize = n;
    while j > i && is_whitespace_char(s.get_char(j - 1))
        invariant
            n == s@.len(),
            i <= j <= n,
            trim(s@) == trim_end(s@.subrange(i as int, j as int)),
        decreases j,
    {
        assert(s@.subrange(i as int, j as int).drop_last() =~= s@.subrange(i as int, j - 1));
        j = j - 1;
    }
    (i, j)
}

/// The value of the digits `s@[start..end]`, or `cap` when that value is `cap` or more.
fn capped_digits_value(s: &str, start: usize, end: usize, cap: u128) -> (r: Option<u128>)
    requires
        start <= end <= s@.len(),
        cap < 0x1_0000_0000_0000_0000_0000_0000_0000,
    ensures
        r matches Some(v) ==> all_ascii_digits(s@.subrange(start as int, end as int)) && v == (
        if digits_value(s@.subrange(start as int, end as int)) < cap {
            digits_value(s@.subrange(start as int, end as int)) as int
        } else {
            cap as int
        }),
        r is None ==> !all_ascii_digits(s@.subrange(start as int, end as int)),
{
    let mut acc: u128 = 0;
    let mut k: usize = start;
    while k < end
        invariant
            start <= k <= end <= s@.len(),
            cap < 0x1_0000_0000_0000_0000_0000_0000_0000,
            all_ascii_digits(s@.subrange(start as int, k as int)),
            acc == (if digits_value(s@.subrange(start as int, k as int)) < cap {
                digits_value(s@.subrange(start as int, k as int)) as int
            } else {
                cap as int
            }),
        decreases end - k,
    {
        let c = s.get_char(k);
        let u = c as u32;
        if u < 48 || u > 57 {
            assert(!is_ascii_digit(s@.subrange(start as int, end as int)[k - start]));
            return None;
        }
        let ghost prev = s@.subrange(start as int, k as int);
        let ghost next = s@.subrange(start as int, k + 1);
        assert(next.drop_last() =~= prev);
        assert(next.last() == c);
        let d: u128 = (u - 48) as u128;
        if acc >= cap {
            acc = cap;
        } else {
            let grown: u128 = acc * 10 + d;
            acc = if grown < cap {
                grown
            } else {
                cap
            };
        }
        assert(all_ascii_digits(next));
        k = k + 1;
    }
    Some(acc)
}

/// Parses the whitespace-trimmed `s` as a base-ten integer in `lo..=hi`.
fn parse_trimmed_in(s: &str, lo: i64, hi: i64) -> (r: Option<i64>)
    ensures
        r matches Some(v) ==> parse_int_in(trim(s@), lo as int, hi as int) == Some(v as int),
        r is None ==> parse_int_in(trim(s@), lo as int, hi as int) is None,
{
    let (start, end) = trimmed_bounds(s);
    let ghost t = s@.subrange(start as int, end as int);
    if start == end {
        return None;
    }
    let first = s.get_char(start);
    let negative = first == '-';
    let body_start: usize = if first == '-' || first == '+' {
        start + 1
    } else {
        start
    };
    if body_start == end {
        return None;
    }
    assert(s@.subrange(body_start as int, end as int) =~= if first == '-' || first == '+' {
        t.skip(1)
    } else {
        t
    });
    let cap: u128 = 0x1_0000_0000_0000_0000;
    match capped_digits_value(s, body_start, end, cap) {
        None => None,
        Some(mag) => {
            let v: i128 = if negative {
                0 - (mag as i128)
            } else {
                mag as i128
            };
            if (lo as i128) <= v && v <= (hi as i128) {
                Some(v as i64)
            } else {
                None
            }
        },
    }
}

/// Parses `s`, trimmed of whitespace, as `s.trim().parse::<i64>()` does.
pub fn parse_i64_trimmed(s: &str) -> (r: Option<i64>)
    ensures
        r matches Some(v) ==> parse_int_in(trim(s@), i64::MIN as int, i64::MAX as int) == Some(
            v as int,
        ),
        r is None ==> parse_int_in(trim(s@), i64::MIN as int, i64::MAX as int) is None,
{
    parse_trimmed_in(s, i64::MIN, i64::MAX)
}

/// Parses `s`, trimmed of whitespace, as `s.trim().parse::<i32>()` does.
pub fn parse_i32_trimmed(s: &str) -> (r: Option<i32>)
    ensures
        r matches Some(v) ==> parse_int_in(trim(s@), i32::MIN as int, i32::MAX as int) == Some(
            v as int,
        ),
        r is None ==> parse_int_in(trim(s@), i32::MIN as int, i32::MAX as int) is None,
{
    match parse_trimmed_in(s, i32::MIN as i64, i32::MAX as i64) {
        Some(v) => Some(v as i32),
        None => None,
    }
}


proof fn lemma_nat_digits(n: nat)
    ensures
        nat_digits(n).len() >= 1,
        all_ascii_digits(nat_digits(n)),
        digits_value(nat_digits(n)) == n,
    decreases n,
{
    let k = (n % 10) as int;
    assert((digit_char(k) as int) == k + 48);
    if n < 10 {
        assert(nat_digits(n).drop_last() =~= Seq::<char>::empty());
        assert(digits_value(Seq::<char>::empty()) == 0);
        assert(nat_digits(n).last() == digit_char(k));
    } else {
        lemma_nat_digits(n / 10);
        let d = nat_digits(n);
        assert(d.drop_last() =~= nat_digits(n / 10));
        assert(d.last() == digit_char(k));
        assert(digits_value(d) == digits_value(nat_digits(n / 10)) * 10 + k);
        assert((n / 10) * 10 + k == n);
        assert forall|i: int| 0 <= i < d.len() implies is_ascii_digit(#[trigger] d[i]) by {
            if i < d.len() - 1 {
                assert(d[i] == nat_digits(n / 10)[i]);
            }
        }
    }
}

proof fn lemma_no_whitespace_trim(s: Seq<char>)
    requires
        s.len() >= 1,
        !is_unicode_whitespace(s[0]),
        !is_unicode_whitespace(s.last()),
    ensures
        trim(s) == s,
{
}

/// Formatting then parsing gives the number back: for every `n` in `lo..=hi`,
/// the decimal text of `n` parses (trimmed or not) to `n`.
pub proof fn lemma_decimal_round_trip(n: int, lo: int, hi: int)
    requires
        lo <= n <= hi,
    ensures
        trim(int_decimal(n)) == int_decimal(n),
        parse_int_in(trim(int_decimal(n)), lo, hi) == Some(n),
{
    let m: nat = if n < 0 {
        (-n) as nat
    } else {
        n as nat
    };
    lemma_nat_digits(m);
    let d = nat_digits(m);
    let s = int_decimal(n);
    assert(is_ascii_digit(d[0]));
    assert(is_ascii_digit(d[d.len() - 1]));
    if n < 0 {
        assert(s.skip(1) =~= d);
        assert(s.last() == d.last());
    }
    lemma_no_whitespace_trim(s);
}

/// Whether two strings hold the same characters.
pub fn same_text(a: &str, b: &str) -> (r: bool)
    ensures
        r == (a@ == b@),
{
    let n = a.unicode_len();
    let m = b.unicode_len();
    if n != m {
        return false;
    }
    let mut i: usize = 0;
    while i < n
        invariant
            n == a@.len(),
            m == b@.len(),
            n == m,
            i <= n,
            a@.take(i as int) == b@.take(i as int),
        decreases n - i,
    {
        if a.get_char(i) != b.get_char(i) {
            assert(a@[i as int] != b@[i as int]);
            return false;
        }
        assert(a@.take(i + 1) =~= a@.take(i as int).push(a@[i as int]));
        assert(b@.take(i + 1) =~= b@.take(i as int).push(b@[i as int]));
        i = i + 1;
    }
    assert(a@.take(n as int) =~= a@);
    assert(b@.take(n as int) =~= b@);
    true
}

} // verus!
