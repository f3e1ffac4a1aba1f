//! Decimal numbers as text: reading them and writing them.

use vstd::prelude::*;

verus! {

/// `c` is one of the ten ASCII digits.
pub open spec fn is_digit(c: char) -> bool {
    '0' <= c <= '9'
}

/// The number that the digit `c` stands for.
pub open spec fn digit_value(c: char) -> nat {
    (c as u32 - '0' as u32) as nat
}

/// The digit that stands for `d`.
pub open spec fn digit_char(d: nat) -> char {
    (d + '0' as u32) as char
}

/// Every character of `s` is a digit.
pub open spec fn all_digits(s: Seq<char>) -> bool {
    forall|i: int| 0 <= i < s.len() ==> is_digit(#[trigger] s[i])
}

/// The number that a run of digits stands for, most significant digit first.
pub open spec fn digits_value(s: Seq<char>) -> nat
    decreases s.len(),
{
    if s.len() == 0 {
        0
    } else {
        digits_value(s.drop_last()) * 10 + digit_value(s.last())
    }
}

/// The number written in `s`: an optional sign, then at least one digit and
/// nothing else. A `-` is read only where `signed` allows it.
pub open spec fn decimal_value(s: Seq<char>, signed: bool) -> Option<int> {
    let negative = signed && s.len() > 0 && s[0] == '-';
    let body = if s.len() > 0 && (s[0] == '+' || negative) {
        s.drop_first()
    } else {
        s
    };
    if body.len() == 0 || !all_digits(body) {
        None
    } else if negative {
        Some(-(digits_value(body) as int))
    } else {
        Some(digits_value(body) as int)
    }
}

/// The `i32` written in `s`, if `s` is a decimal number in range.
pub open spec fn i32_of_text(s: Seq<char>) -> Option<i32> {
    match decimal_value(s, true) {
        Some(v) => if i32::MIN <= v <= i32::MAX {
            Some(v as i32)
        } else {
            None
        },
        None => None,
    }
}

/// The `u16` written in `s`, if `s` is an unsigned decimal number in range.
pub open spec fn u16_of_text(s: Seq<char>) -> Option<u16> {
    match decimal_value(s, false) {
        Some(v) => if v <= u16::MAX {
            Some(v as u16)
        } else {
            None
        },
        None => None,
    }
}

/// The shortest decimal writing of `n`.
pub open spec fn decimal_text(n: nat) -> Seq<char>
    decreases n,
{
    if n < 10 {
        seq![digit_char(n)]
    } else {
        decimal_text(n / 10).push(digit_char(n % 10))
    }
}

/// What a run of digits is worth if it is non-empty and worth at most `cap`.
pub open spec fn capped_digits(body: Seq<char>, cap: u64) -> Option<u64> {
    if body.len() > 0 && all_digits(body) && digits_value(body) <= cap {
        Some(digits_value(body) as u64)
    } else {
        None
    }
}

/// A run of digits is worth at least as much as any of its prefixes.
proof fn lemma_prefix_value(s: Seq<char>, k: int)
    requires
        0 <= k <= s.len(),
    ensures
        digits_value(s.subrange(0, k)) <= digits_value(s),
    decreases s.len() - k,
{
    if k == s.len() {
        assert(s.subrange(0, k) == s);
    } else {
        lemma_prefix_value(s, k + 1);
        assert(s.subrange(0, k + 1).drop_last() == s.subrange(0, k));
    }
}

/// Reads the digits of `s` from character index `from` to the end.
fn digits_from(s: &str, from: usize, cap: u64) -> (r: Option<u64>)
    requires
        from <= s@.len(),
        cap <= 0xFFFF_FFFF_FFFF,
    ensures
        r == capped_digits(s@.subrange(from as int, s@.len() as int), cap),
{
    let n = s.unicode_len();
    let ghost body = s@.subrange(from as int, n as int);
    if from == n {
        return None;
    }
    let mut acc: u64 = 0;
    let mut i: usize = from;
    while i < n
        invariant
            from <= i <= n,
            n == s@.len(),
            body == s@.subrange(from as int, n as int),
            cap <= 0xFFFF_FFFF_FFFF,
            acc <= cap,
            acc == digits_value(body.subrange(0, i - from)),
            all_digits(body.subrange(0, i - from)),
        decreases n - i,
    {
        let c = s.get_char(i);
        let ghost before = body.subrange(0, i - from);
        let ghost after = body.subrange(0, i + 1 - from);
        proof {
            assert(body[i - from] == c);
            assert(after.drop_last() == before);
            assert(after.last() == c);
        }
        if !('0' <= c && c <= '9') {
            assert(!is_digit(body[i - from]));
            return None;
        }
        let d: u64 = (c as u32 - '0' as u32) as u64;
        acc = acc * 10 + d;
        proof {
            assert forall|j: int| 0 <= j < after.len() implies is_digit(#[trigger] after[j]) by {
                if j < before.len() {
                    assert(after[j] == before[j]);
                }
            }
        }
        if acc > cap {
            proof {
                lemma_prefix_value(body, i + 1 - from);
            }
            return None;
        }
        i += 1;
    }
    proof {
        assert(body.subrange(0, n - from) == body);
    }
    Some(acc)
}

/// Reads a decimal `i32`: an optional `+` or `-`, then digits.
pub fn parse_i32(s: &str) -> (r: Option<i32>)
    ensures
        r == i32_of_text(s@),
{
    let n = s.unicode_len();
    if n == 0 {
        return None;
    }
    let first = s.get_char(0);
    proof {
        assert(s@.drop_first() == s@.subrange(1, n as int));
        assert(s@ == s@.subrange(0, n as int));
    }
    if first == '-' {
        match digits_from(s, 1, 0x8000_0000) {
            Some(v) => Some((0 - (v as i64)) as i32),
            None => None,
        }
    } else {
        let from: usize = if first == '+' {
            1
        } else {
            0
        };
        match digits_from(s, from, 0x7FFF_FFFF) {
            Some(v) => Some(v as i32),
            None => None,
        }
    }
}

/// Reads a decimal `u16`: an optional `+`, then digits.
pub fn parse_u16(s: &str) -> (r: Option<u16>)
    ensures
        r == u16_of_text(s@),
{
    let n = s.unicode_len();
    if n == 0 {
        return None;
    }
    let first = s.get_char(0);
    proof {
        assert(s@.drop_first() == s@.subrange(1, n as int));
        assert(s@ == s@.subrange(0, n as int));
    }
    let from: usize = if first == '+' {
        1
    } else {
        0
    };
    match digits_from(s, from, 0xFFFF) {
        Some(v) => Some(v as u16),
        None => None,
    }
}

/// The one-character text of a digit.
fn digit_text(d: u64) -> (r: &'static str)
    requires
        d < 10,
    ensures
        r@ == seq![digit_char(d as nat)],
{
    proof {
        reveal_strlit("0");
        reveal_strlit("1");
        reveal_strlit("2");
        reveal_strlit("3");
        reveal_strlit("4");
        reveal_strlit("5");
        reveal_strlit("6");
        reveal_strlit("7");
        reveal_strlit("8");
        reveal_strlit("9");
    }
    let r = if d == 0 {
        "0"
    } else if d == 1 {
        "1"
    } else if d == 2 {
        "2"
    } else if d == 3 {
        "3"
    } else if d == 4 {
        "4"
    } else if d == 5 {
        "5"
    } else if d == 6 {
        "6"
    } else if d == 7 {
        "7"
    } else if d == 8 {
        "8"
    } else {
        "9"
    };
    assert(r@ =~= seq![digit_char(d as nat)]);
    r
}

/// Writes `n` in decimal, without sign or leading zeros.
pub fn render_u64(n: u64) -> (r: String)
    ensures
        r@ == decimal_text(n as nat),
{
    let mut out = String::from_str(digit_text(n % 10));
    let mut rest: u64 = n / 10;
    proof {
        lemma_text_split(n as nat);
    }
    while rest > 0
        invariant
            decimal_text(n as nat) == prefix_text(rest as nat) + out@,
        decreases rest,
    {
        let mut head = String::from_str(digit_text(rest % 10));
        head.append(out.as_str());
        proof {
            lemma_text_split(rest as nat);
            assert(prefix_text(rest as nat) + out@ == prefix_text((rest / 10) as nat) + (
            seq![digit_char((rest % 10) as nat)] + out@));
        }
        out = head;
        rest = rest / 10;
    }
    proof {
        assert(prefix_text(0) + out@ == out@);
    }
    out
}

/// The decimal writing of an integer: a `-` before a negative one.
pub open spec fn signed_text(n: int) -> Seq<char> {
    if n < 0 {
        seq!['-'] + decimal_text((-n) as nat)
    } else {
        decimal_text(n as nat)
    }
}

/// Writes `n` in decimal, with a `-` if it is negative.
pub fn render_i32(n: i32) -> (r: String)
    ensures
        r@ == signed_text(n as int),
{
    if n < 0 {
        let magnitude: u64 = (0 - (n as i64)) as u64;
        let digits = render_u64(magnitude);
        let mut out = String::from_str("-");
        proof {
            reveal_strlit("-");
            assert("-"@ =~= seq!['-']);
        }
        out.append(digits.as_str());
        out
    } else {
        render_u64(n as u64)
    }
}

/// Reading what `render_i32` wrote gives the number back.
pub proof fn lemma_signed_round_trip(n: i32)
    ensures
        i32_of_text(signed_text(n as int)) == Some(n),
{
    if n < 0 {
        let m = (-(n as int)) as nat;
        lemma_decimal_round_trip(m);
        let t = signed_text(n as int);
        assert(t[0] == '-');
        assert(t.drop_first() =~= decimal_text(m));
    } else {
        lemma_decimal_round_trip(n as nat);
    }
}

/// The digits of `n`, or nothing for zero: what stands before the last
/// digit of a longer number.
pub open spec fn prefix_text(n: nat) -> Seq<char> {
    if n == 0 {
        Seq::empty()
    } else {
        decimal_text(n)
    }
}

/// The writing of `n` is the writing of its tens followed by its last digit.
proof fn lemma_text_split(n: nat)
    ensures
        decimal_text(n) == prefix_text(n / 10) + seq![digit_char(n % 10)],
        n > 0 ==> prefix_text(n) == prefix_text(n / 10) + seq![digit_char(n % 10)],
{
    if n < 10 {
        assert(n / 10 == 0);
        assert(n % 10 == n);
        assert(decimal_text(n) =~= Seq::<char>::empty() + seq![digit_char(n)]);
    } else {
        assert(decimal_text(n) =~= decimal_text(n / 10) + seq![digit_char(n % 10)]);
    }
}

/// Reading what `render_u64` wrote gives the number back.
pub proof fn lemma_decimal_round_trip(n: nat)
    ensures
        all_digits(decimal_text(n)),
        decimal_text(n).len() > 0,
        digits_value(decimal_text(n)) == n,
        decimal_value(decimal_text(n), false) == Some(n as int),
        decimal_value(decimal_text(n), true) == Some(n as int),
    decreases n,
{
    let t = decimal_text(n);
    if n < 10 {
        assert(t.drop_last() =~= Seq::<char>::empty());
        assert(digits_value(t.drop_last()) == 0);
        assert(digit_value(digit_char(n)) == n);
    } else {
        lemma_decimal_round_trip(n / 10);
        let head = decimal_text(n / 10);
        assert(t.drop_last() =~= head);
        assert(t.last() == digit_char(n % 10));
        assert(digit_value(digit_char(n % 10)) == n % 10);
        assert forall|i: int| 0 <= i < t.len() implies is_digit(#[trigger] t[i]) by {
            if i < head.len() {
                assert(t[i] == head[i]);
            }
        }
    }
    assert(is_digit(t[0]));
    assert(t[0] != '+' && t[0] != '-');
}

} // verus!
