//! Decimal text of signed 64-bit integers.
//!
//! Chat identities are 64-bit integers on the platform and text in the
//! subscriber table. This module fixes the text form: an optional sign (`-` or
//! `+`), then one or more ASCII digits, nothing else. [`render_i64`] writes the
//! canonical form (no `+`, no leading zeros), [`parse_i64`] reads every form
//! that denotes a value in range, and [`parse_inverts_render`] shows that
//! reading what was written gives the value back.

use vstd::prelude::*;
use vstd::std_specs::iter::IteratorSpec;
use vstd::string::*;

verus! {

/// `c` is one of `0` to `9`.
pub open spec fn is_digit(c: char) -> bool {
    '0' <= c && c <= '9'
}

/// The number that the digit `c` stands for.
pub open spec fn digit_value(c: char) -> int {
    c as int - '0' as int
}

/// The digit that stands for `d`, for `0 <= d <= 9`.
pub open spec fn digit_char(d: int) -> char {
    (d + '0' as int) as char
}

/// Every character of `s` is a digit.
pub open spec fn all_digits(s: Seq<char>) -> bool {
    forall|i: int| 0 <= i < s.len() ==> is_digit(#[trigger] s[i])
}

/// The number that a run of digits denotes, most significant digit first.
pub open spec fn magnitude(s: Seq<char>) -> int
    decreases s.len(),
{
    if s.len() == 0 {
        0
    } else {
        10 * magnitude(s.drop_last()) + digit_value(s.last())
    }
}

/// `s` starts with `-`.
pub open spec fn is_negative(s: Seq<char>) -> bool {
    s.len() > 0 && s[0] == '-'
}

/// `s` without its sign, if it has one.
pub open spec fn digits_part(s: Seq<char>) -> Seq<char> {
    if s.len() > 0 && (s[0] == '-' || s[0] == '+') {
        s.skip(1)
    } else {
        s
    }
}

/// The integer that `s` denotes, where its digits part is a run of digits.
pub open spec fn signed_value(s: Seq<char>) -> int {
    if is_negative(s) {
        -magnitude(digits_part(s))
    } else {
        magnitude(digits_part(s))
    }
}

/// `s` is the decimal text of some 64-bit integer.
pub open spec fn well_formed(s: Seq<char>) -> bool {
    &&& digits_part(s).len() > 0
    &&& all_digits(digits_part(s))
    &&& i64::MIN <= signed_value(s) <= i64::MAX
}

/// What reading `s` gives: its value where it is well formed, nothing otherwise.
pub open spec fn parsed(s: Seq<char>) -> Option<i64> {
    if well_formed(s) {
        Some(signed_value(s) as i64)
    } else {
        None
    }
}

/// The digits of `n`, most significant first, without leading zeros.
pub open spec fn digits_of(n: nat) -> Seq<char>
    decreases n,
{
    if n < 10 {
        seq![digit_char(n as int)]
    } else {
        digits_of(n / 10).push(digit_char((n % 10) as int))
    }
}

/// The canonical decimal text of `v`.
pub open spec fn rendered(v: int) -> Seq<char> {
    if v < 0 {
        seq!['-'] + digits_of((-v) as nat)
    } else {
        digits_of(v as nat)
    }
}

/// A run of digits denotes at least what any of its prefixes denotes.
proof fn lemma_magnitude_grows(s: Seq<char>, k: int)
    requires
        all_digits(s),
        0 <= k <= s.len(),
    ensures
        0 <= magnitude(s.take(k)) <= magnitude(s),
    decreases s.len() - k,
{
    if k == s.len() {
        assert(s.take(k) =~= s);
        lemma_magnitude_nonnegative(s);
    } else {
        lemma_magnitude_grows(s, k + 1);
        let longer = s.take(k + 1);
        assert(longer.drop_last() =~= s.take(k));
        lemma_magnitude_nonnegative(s.take(k));
    }
}

proof fn lemma_magnitude_nonnegative(s: Seq<char>)
    requires
        all_digits(s),
    ensures
        0 <= magnitude(s),
    decreases s.len(),
{
    if s.len() > 0 {
        lemma_magnitude_nonnegative(s.drop_last());
    }
}

/// The digits of a number are digits, at least one of them, and denote it.
proof fn lemma_digits_of(n: nat)
    ensures
        digits_of(n).len() > 0,
        all_digits(digits_of(n)),
        magnitude(digits_of(n)) == n,
    decreases n,
{
    if n < 10 {
        let s = digits_of(n);
        assert(magnitude(s.drop_last()) == 0);
    } else {
        lemma_digits_of(n / 10);
        let head = digits_of(n / 10);
        let s = head.push(digit_char((n % 10) as int));
        assert(s.drop_last() =~= head);
    }
}

/// Reading the canonical text of a value gives the value back.
pub proof fn parse_inverts_render(v: i64)
    ensures
        parsed(rendered(v as int)) == Some(v),
{
    let s = rendered(v as int);
    if v < 0 {
        let n = (-(v as int)) as nat;
        lemma_digits_of(n);
        assert(digits_part(s) =~= digits_of(n));
    } else {
        let n = v as nat;
        lemma_digits_of(n);
    }
}

/// Different values have different canonical texts.
pub proof fn render_is_injective(a: i64, b: i64)
    requires
        rendered(a as int) == rendered(b as int),
    ensures
        a == b,
{
    parse_inverts_render(a);
    parse_inverts_render(b);
}

/// The value of a digit character, or nothing for any other character.
fn digit_of(c: char) -> (d: Option<u8>)
    ensures
        d is Some <==> is_digit(c),
        d matches Some(value) ==> value == digit_value(c),
{
    match c {
        '0' => Some(0),
        '1' => Some(1),
        '2' => Some(2),
        '3' => Some(3),
        '4' => Some(4),
        '5' => Some(5),
        '6' => Some(6),
        '7' => Some(7),
        '8' => Some(8),
        '9' => Some(9),
        _ => None,
    }
}

/// Reads the decimal text of a 64-bit integer.
///
/// Accepts an optional `-` or `+` followed by one or more ASCII digits, leading
/// zeros included, and nothing else: no blanks, no separators, no other
/// alphabet's digits. Text that denotes a number outside the 64-bit range is
/// rejected like any other malformed text.
pub fn parse_i64(text: &str) -> (value: Option<i64>)
    ensures
        value == parsed(text@),
{
    broadcast use vstd::string::group_string_axioms;

    let ghost whole = text@;
    let ghost body = digits_part(whole);
    let mut it = text.chars();
    let mut negative = false;
    let mut acc: u64 = 0;
    let mut any = false;
    let ghost mut seen: int = 0;
    match it.next() {
        None => {
            return None;
        },
        Some(c) => {
            if c == '-' {
                negative = true;
            } else if c == '+' {
            } else {
                match digit_of(c) {
                    None => {
                        return None;
                    },
                    Some(d) => {
                        acc = d as u64;
                        any = true;
                        proof {
                            seen = 1;
                            assert(magnitude(body.take(1).drop_last()) == 0);
                        }
                    },
                }
            }
        },
    }
    let limit: u64 = if negative {
        9223372036854775808
    } else {
        9223372036854775807
    };
    loop
        invariant
            whole == text@,
            body == digits_part(whole),
            negative == is_negative(whole),
            limit == if negative { 9223372036854775808u64 } else { 9223372036854775807u64 },
            0 <= seen <= body.len(),
            any == (seen > 0),
            it.obeys_prophetic_iter_laws(),
            it.remaining() == body.skip(seen),
            all_digits(body.take(seen)),
            acc == magnitude(body.take(seen)),
            acc <= limit,
        ensures
            any == (body.len() > 0),
            all_digits(body),
            acc == magnitude(body),
            acc <= limit,
            negative == is_negative(whole),
            body == digits_part(whole),
        decreases body.len() - seen,
    {
        match it.next() {
            None => {
                assert(body.take(seen) =~= body);
                break;
            },
            Some(c) => {
                match digit_of(c) {
                    None => {
                        return None;
                    },
                    Some(d) => {
                        let next: u128 = acc as u128 * 10 + d as u128;
                        proof {
                            let longer = body.take(seen + 1);
                            assert(longer.drop_last() =~= body.take(seen));
                        }
                        if next > limit as u128 {
                            proof {
                                if all_digits(body) {
                                    lemma_magnitude_grows(body, seen + 1);
                                }
                            }
                            return None;
                        }
                        acc = next as u64;
                        any = true;
                        proof {
                            seen = seen + 1;
                        }
                    },
                }
            },
        }
    }
    if !any {
        return None;
    }
    if negative {
        if acc == 9223372036854775808 {
            Some(i64::MIN)
        } else {
            Some(-(acc as i64))
        }
    } else {
        Some(acc as i64)
    }
}

/// The one-character text of a digit.
fn digit_text(d: u8) -> (text: &'static str)
    requires
        d < 10,
    ensures
        text@ == seq![digit_char(d as int)],
{
    proof {
        reveal_strlit("0");
        reveal_strlit("1");
        reveal_strlit("2");
        reveal_strlit("3");
        reveal_strlit("4");
        reveal_strlit("5");
        reveal_strlit("6");
        reveal_strlit("7");
        reveal_strlit("8");
        reveal_strlit("9");
    }
    let text = match d {
        0 => "0",
        1 => "1",
        2 => "2",
        3 => "3",
        4 => "4",
        5 => "5",
        6 => "6",
        7 => "7",
        8 => "8",
        _ => "9",
    };
    text
}

/// Appends the digits of `n` to `out`.
fn push_digits(n: u64, out: &mut String)
    ensures
        final(out)@ == old(out)@ + digits_of(n as nat),
    decreases n,
{
    if n >= 10 {
        push_digits(n / 10, out);
    }
    out.append(digit_text((n % 10) as u8));
}

/// Writes the canonical decimal text of `value`: a `-` for a negative value,
/// then its digits without leading zeros.
pub fn render_i64(value: i64) -> (text: String)
    ensures
        text@ == rendered(value as int),
{
    let mut out = String::new();
    if value < 0 {
        proof {
            reveal_strlit("-");
        }
        out.append("-");
        let size: u64 = if value == i64::MIN {
            9223372036854775808
        } else {
            (-value) as u64
        };
        push_digits(size, &mut out);
    } else {
        push_digits(value as u64, &mut out);
    }
    out
}

} // verus!
