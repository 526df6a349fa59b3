//! Decimal rendering and parsing of integers, used for the interactive
//! prompt (block height) and for the wallet-birthday argument.

use vstd::prelude::*;

verus! {

/// The character for one decimal digit.
pub open spec fn digit_char(d: int) -> char
    recommends
        0 <= d < 10,
{
    if d == 0 {
        '0'
    } else if d == 1 {
        '1'
    } else if d == 2 {
        '2'
    } else if d == 3 {
        '3'
    } else if d == 4 {
        '4'
    } else if d == 5 {
        '5'
    } else if d == 6 {
        '6'
    } else if d == 7 {
        '7'
    } else if d == 8 {
        '8'
    } else {
        '9'
    }
}

/// The decimal digits of a non-negative integer, most significant first,
/// with no leading zeros (except for the number zero itself).
pub open spec fn decimal_digits(n: nat) -> Seq<char>
    decreases n,
{
    if n < 10 {
        seq![digit_char(n as int)]
    } else {
        decimal_digits(n / 10) + seq![digit_char((n % 10) as int)]
    }
}

/// The decimal rendering of an integer, with a leading minus sign when
/// it is negative.
pub open spec fn decimal_of(v: int) -> Seq<char> {
    if v < 0 {
        seq!['-'] + decimal_digits((-v) as nat)
    } else {
        decimal_digits(v as nat)
    }
}

/// The one-character string for a decimal digit.
fn digit_str(d: u64) -> (r: &'static str)
    requires
        d < 10,
    ensures
        r@ =~= seq![digit_char(d as int)],
{
    proof {
        reveal_strlit("0");
        reveal_strlit("1");
        reveal_strlit("2");
        reveal_strlit("3");
        reveal_strlit("4");
        reveal_strlit("5");
        reveal_strlit("6");
        reveal_strlit("7");
        reveal_strlit("8");
        reveal_strlit("9");
    }
    match d {
        0 => "0",
        1 => "1",
        2 => "2",
        3 => "3",
        4 => "4",
        5 => "5",
        6 => "6",
        7 => "7",
        8 => "8",
        _ => "9",
    }
}

/// Renders an unsigned integer in decimal.
pub fn u64_to_decimal(n: u64) -> (r: String)
    ensures
        r@ == decimal_digits(n as nat),
    decreases n,
{
    if n < 10 {
        digit_str(n).to_owned()
    } else {
        proof {
            assert(n / 10 < n) by (nonlinear_arith)
                requires
                    n >= 10,
            ;
        }
        let mut s = u64_to_decimal(n / 10);
        s.append(digit_str(n % 10));
        assert(s@ =~= decimal_digits(n as nat));
        s
    }
}

/// Renders a signed integer in decimal, with a minus sign when negative.
pub fn i64_to_decimal(v: i64) -> (r: String)
    ensures
        r@ == decimal_of(v as int),
{
    if v >= 0 {
        u64_to_decimal(v as u64)
    } else {
        let m: u64 = if v == i64::MIN {
            9223372036854775808u64
        } else {
            (-v) as u64
        };
        proof {
            reveal_strlit("-");
        }
        let mut s: String = "-".to_owned();
        s.append(u64_to_decimal(m).as_str());
        assert(s@ =~= decimal_of(v as int));
        s
    }
}

/// Whether a character is a decimal digit.
pub open spec fn is_digit_char(c: char) -> bool {
    '0' <= c <= '9'
}

/// The numeric value of a digit character.
pub open spec fn digit_value(c: char) -> int {
    c as int - '0' as int
}

/// Whether every character of a sequence is a decimal digit.
pub open spec fn all_digits(s: Seq<char>) -> bool {
    forall|i: int| 0 <= i < s.len() ==> is_digit_char(#[trigger] s[i])
}

/// The numeric value of a sequence of digit characters.
pub open spec fn digits_value(s: Seq<char>) -> int
    decreases s.len(),
{
    if s.len() == 0 {
        0
    } else {
        digits_value(s.drop_last()) * 10 + digit_value(s.last())
    }
}

/// The value of a digit string is never negative.
proof fn lemma_digits_value_nonneg(s: Seq<char>)
    requires
        all_digits(s),
    ensures
        digits_value(s) >= 0,
    decreases s.len(),
{
    if s.len() > 0 {
        assert(all_digits(s.drop_last()));
        lemma_digits_value_nonneg(s.drop_last());
    }
}

/// Extending a digit string on the right never decreases its value.
proof fn lemma_digits_value_prefix_le(s: Seq<char>, i: int)
    requires
        all_digits(s),
        0 <= i <= s.len(),
    ensures
        digits_value(s.take(i)) <= digits_value(s),
    decreases s.len() - i,
{
    if i < s.len() {
        let t = s.take(i + 1);
        assert(all_digits(t));
        assert(t.drop_last() =~= s.take(i));
        lemma_digits_value_nonneg(s.take(i));
        assert(digits_value(s.take(i)) * 10 >= digits_value(s.take(i))) by (nonlinear_arith)
            requires
                digits_value(s.take(i)) >= 0,
        ;
        assert(digits_value(t) >= digits_value(s.take(i)));
        lemma_digits_value_prefix_le(s, i + 1);
    } else {
        assert(s.take(i) =~= s);
    }
}

/// What parsing an unsigned decimal number from text yields: an optional
/// leading `+`, then one or more digits whose value fits in 64 bits;
/// anything else is rejected.
pub open spec fn parse_u64_spec(s: Seq<char>) -> Option<u64> {
    let body = if s.len() > 0 && s[0] == '+' {
        s.drop_first()
    } else {
        s
    };
    if body.len() > 0 && all_digits(body) && digits_value(body) <= u64::MAX {
        Some(digits_value(body) as u64)
    } else {
        None
    }
}

/// Parses an unsigned decimal number, rejecting empty input, non-digit
/// characters, and values that do not fit in 64 bits.
pub fn parse_u64(s: &str) -> (r: Option<u64>)
    ensures
        r == parse_u64_spec(s@),
{
    let len = s.unicode_len();
    let start: usize = if len > 0 && s.get_char(0) == '+' {
        1
    } else {
        0
    };
    let ghost body = if s@.len() > 0 && s@[0] == '+' {
        s@.drop_first()
    } else {
        s@
    };
    assert(body =~= s@.subrange(start as int, len as int));
    if start == len {
        return None;
    }
    let mut n: u64 = 0;
    let mut i: usize = start;
    while i < len
        invariant
            start <= i <= len,
            start < len,
            len == s@.len(),
            body == (if s@.len() > 0 && s@[0] == '+' {
                s@.drop_first()
            } else {
                s@
            }),
            body == s@.subrange(start as int, len as int),
            all_digits(s@.subrange(start as int, i as int)),
            n == digits_value(s@.subrange(start as int, i as int)),
        decreases len - i,
    {
        let c = s.get_char(i);
        let cv = c as u32;
        if cv < 48 || cv > 57 {
            proof {
                assert(c == s@[i as int]);
                assert(body[i as int - start as int] == s@[i as int]);
                assert(!is_digit_char(c));
                assert(!all_digits(body));
                assert(parse_u64_spec(s@) is None);
            }
            return None;
        }
        let d = (cv - 48) as u64;
        assert(d == digit_value(c));
        if n > (u64::MAX - d) / 10 {
            proof {
                let prefix = s@.subrange(start as int, i as int + 1);
                assert(prefix.drop_last() =~= s@.subrange(start as int, i as int));
                assert(all_digits(prefix));
                assert(digits_value(prefix) == n * 10 + d);
                assert(n * 10 + d > u64::MAX) by (nonlinear_arith)
                    requires
                        n > (u64::MAX - d) / 10,
                        0 <= d < 10,
                        n <= u64::MAX,
                ;
                if all_digits(body) {
                    lemma_digits_value_prefix_le(body, i as int + 1 - start);
                    assert(body.take(i as int + 1 - start) =~= prefix);
                    assert(digits_value(body) > u64::MAX);
                }
            }
            return None;
        }
        proof {
            let prefix = s@.subrange(start as int, i as int + 1);
            assert(prefix.drop_last() =~= s@.subrange(start as int, i as int));
            assert(n * 10 + d <= u64::MAX) by (nonlinear_arith)
                requires
                    n <= (u64::MAX - d) / 10,
                    0 <= d < 10,
                    0 <= n,
            ;
        }
        n = n * 10 + d;
        i = i + 1;
    }
    Some(n)
}

} // verus!
