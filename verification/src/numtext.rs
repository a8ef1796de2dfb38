//! Decimal text: rendering unsigned and signed integers the way the daemon's
//! query parameters expect them, and reading the unsigned decimal numbers the
//! daemon sends back as plain-text responses.

use vstd::prelude::*;

verus! {

/// The character for a single decimal digit.
pub open spec fn digit_char(d: nat) -> char
    recommends
        d < 10,
{
    if d == 0 {
        '0'
    } else if d == 1 {
        '1'
    } else if d == 2 {
        '2'
    } else if d == 3 {
        '3'
    } else if d == 4 {
        '4'
    } else if d == 5 {
        '5'
    } else if d == 6 {
        '6'
    } else if d == 7 {
        '7'
    } else if d == 8 {
        '8'
    } else {
        '9'
    }
}

/// The decimal rendering of a natural number, most significant digit first,
/// with no sign, no leading zeros (except for the number zero itself).
pub open spec fn dec_digits(n: nat) -> Seq<char>
    decreases n,
{
    if n < 10 {
        seq![digit_char(n)]
    } else {
        dec_digits(n / 10).push(digit_char(n % 10))
    }
}

/// The decimal rendering of an integer: a leading '-' for negative values.
pub open spec fn int_text(i: int) -> Seq<char> {
    if i < 0 {
        seq!['-'] + dec_digits((-i) as nat)
    } else {
        dec_digits(i as nat)
    }
}

/// Whether `c` is a decimal digit.
pub open spec fn is_dec_digit(c: char) -> bool {
    48 <= c as u32 <= 57
}

/// The numeric value of a digit character.
pub open spec fn digit_value(c: char) -> nat
    recommends
        is_dec_digit(c),
{
    (c as u32 - 48) as nat
}

/// Whether every character of `s` is a decimal digit.
pub open spec fn all_dec_digits(s: Seq<char>) -> bool {
    forall|i: int| 0 <= i < s.len() ==> is_dec_digit(#[trigger] s[i])
}

/// The value of a sequence of decimal digits, most significant first.
pub open spec fn digits_value(s: Seq<char>) -> nat
    recommends
        all_dec_digits(s),
    decreases s.len(),
{
    if s.len() == 0 {
        0
    } else {
        digits_value(s.drop_last()) * 10 + digit_value(s.last())
    }
}

/// Whether `s` is the text of an unsigned decimal number as `str::parse`
/// accepts it for an unsigned target: an optional leading '+', then one or
/// more digits.
pub open spec fn is_unsigned_dec_text(s: Seq<char>) -> bool {
    if s.len() > 0 && s[0] == '+' {
        s.len() >= 2 && all_dec_digits(s.drop_first())
    } else {
        s.len() >= 1 && all_dec_digits(s)
    }
}

/// The value of an unsigned decimal text, ignoring a leading '+'.
pub open spec fn unsigned_dec_value(s: Seq<char>) -> nat
    recommends
        is_unsigned_dec_text(s),
{
    if s.len() > 0 && s[0] == '+' {
        digits_value(s.drop_first())
    } else {
        digits_value(s)
    }
}

/// A digit as a one-character string slice.
fn digit_str(d: u64) -> (r: &'static str)
    requires
        d < 10,
    ensures
        r@ == seq![digit_char(d as nat)],
{
    proof {
        reveal_strlit("0");
        reveal_strlit("1");
        reveal_strlit("2");
        reveal_strlit("3");
        reveal_strlit("4");
        reveal_strlit("5");
        reveal_strlit("6");
        reveal_strlit("7");
        reveal_strlit("8");
        reveal_strlit("9");
    }
    let r: &'static str = if d == 0 {
        "0"
    } else if d == 1 {
        "1"
    } else if d == 2 {
        "2"
    } else if d == 3 {
        "3"
    } else if d == 4 {
        "4"
    } else if d == 5 {
        "5"
    } else if d == 6 {
        "6"
    } else if d == 7 {
        "7"
    } else if d == 8 {
        "8"
    } else {
        "9"
    };
    proof {
        assert(r@ =~= seq![digit_char(d as nat)]);
    }
    r
}

/// Renders `n` in decimal.
pub fn u64_to_string(n: u64) -> (s: String)
    ensures
        s@ == dec_digits(n as nat),
    decreases n,
{
    if n < 10 {
        let s = String::from_str(digit_str(n));
        proof {
            assert(s@ =~= dec_digits(n as nat));
        }
        s
    } else {
        let mut s = u64_to_string(n / 10);
        s.append(digit_str(n % 10));
        proof {
            assert(s@ =~= dec_digits((n / 10) as nat).push(digit_char((n % 10) as nat)));
        }
        s
    }
}

/// Renders `n` in decimal.
pub fn usize_to_string(n: usize) -> (s: String)
    ensures
        s@ == dec_digits(n as nat),
{
    u64_to_string(n as u64)
}

/// Renders `i` in decimal, with a leading '-' when negative.
pub fn i64_to_string(i: i64) -> (s: String)
    ensures
        s@ == int_text(i as int),
{
    if i >= 0 {
        let s = u64_to_string(i as u64);
        proof {
            assert(s@ =~= int_text(i as int));
        }
        s
    } else {
        let magnitude: u64 = (-(i as i128)) as u64;
        let mut s = String::from_str("-");
        s.append(u64_to_string(magnitude).as_str());
        proof {
            reveal_strlit("-");
            assert(s@ =~= int_text(i as int));
        }
        s
    }
}

/// Renders `i` in decimal, with a leading '-' when negative.
pub fn isize_to_string(i: isize) -> (s: String)
    ensures
        s@ == int_text(i as int),
{
    i64_to_string(i as i64)
}

/// Every digit sequence is worth at least as much as any of its prefixes.
proof fn lemma_digits_value_prefix(s: Seq<char>, k: int)
    requires
        0 <= k <= s.len(),
        all_dec_digits(s),
    ensures
        digits_value(s) >= digits_value(s.subrange(0, k)),
    decreases s.len() - k,
{
    if k == s.len() {
        assert(s.subrange(0, k) =~= s);
    } else {
        lemma_digits_value_prefix(s, k + 1);
        assert(s.subrange(0, k + 1).drop_last() =~= s.subrange(0, k));
        assert(digits_value(s.subrange(0, k + 1)) == digits_value(s.subrange(0, k)) * 10
            + digit_value(s[k]));
        assert(digits_value(s.subrange(0, k)) * 10 >= digits_value(s.subrange(0, k))) by (
        nonlinear_arith);
    }
}

/// A rendered natural number is never empty and holds digits only.
proof fn lemma_dec_digits_shape(n: nat)
    ensures
        dec_digits(n).len() >= 1,
        all_dec_digits(dec_digits(n)),
    decreases n,
{
    if n < 10 {
        assert(is_dec_digit(digit_char(n)));
    } else {
        lemma_dec_digits_shape(n / 10);
        assert(all_dec_digits(dec_digits(n / 10).push(digit_char(n % 10)))) by {
            assert(is_dec_digit(digit_char(n % 10)));
            assert(forall|i: int|
                0 <= i < dec_digits(n / 10).len() ==> #[trigger] dec_digits(n / 10).push(
                    digit_char(n % 10),
                )[i] == dec_digits(n / 10)[i]);
        }
    }
}

/// Reading back a rendered natural number gives the number.
proof fn lemma_dec_digits_value(n: nat)
    ensures
        digits_value(dec_digits(n)) == n,
    decreases n,
{
    if n < 10 {
        let s = seq![digit_char(n)];
        assert(dec_digits(n) == s);
        assert(s.drop_last() =~= Seq::<char>::empty());
        assert(digits_value(Seq::<char>::empty()) == 0);
        assert(digits_value(s) == digits_value(s.drop_last()) * 10 + digit_value(s.last()));
        assert(digit_value(digit_char(n)) == n);
    } else {
        lemma_dec_digits_value(n / 10);
        let s = dec_digits(n / 10).push(digit_char(n % 10));
        assert(dec_digits(n) == s);
        assert(s.drop_last() =~= dec_digits(n / 10));
        assert(s.last() == digit_char(n % 10));
        assert(digits_value(s) == digits_value(s.drop_last()) * 10 + digit_value(s.last()));
        assert(digit_value(digit_char(n % 10)) == n % 10);
        assert(n / 10 * 10 + n % 10 == n) by (nonlinear_arith);
    }
}

/// The decimal text of a number reads back as that same number: rendering
/// with `dec_digits` and reading with `unsigned_dec_value` round-trip, for
/// every natural number. This ties what the client writes into a query
/// (a transfer limit, a cursor) to what it reads back out of a plain-text
/// response.
pub proof fn lemma_decimal_round_trip(n: nat)
    ensures
        is_unsigned_dec_text(dec_digits(n)),
        unsigned_dec_value(dec_digits(n)) == n,
{
    lemma_dec_digits_shape(n);
    lemma_dec_digits_value(n);
    assert(is_dec_digit(dec_digits(n)[0]));
    assert(dec_digits(n)[0] != '+');
}

/// Reads an unsigned decimal number, accepting exactly the texts that
/// `str::parse::<usize>` accepts and rejecting values that do not fit.
pub fn parse_usize(s: &str) -> (r: Option<usize>)
    ensures
        r is Some <==> is_unsigned_dec_text(s@) && unsigned_dec_value(s@) <= usize::MAX,
        r is Some ==> r->0 as nat == unsigned_dec_value(s@),
{
    let len = s.unicode_len();
    if len == 0 {
        return None;
    }
    let first = s.get_char(0);
    let start: usize = if first == '+' {
        1
    } else {
        0
    };
    if len == start {
        proof {
            reveal_strlit("+");
        }
        return None;
    }
    let ghost tail = if first == '+' {
        s@.drop_first()
    } else {
        s@
    };
    proof {
        assert(s@.subrange(start as int, len as int) =~= tail);
    }
    let mut i: usize = start;
    let mut acc: usize = 0;
    while i < len
        invariant
            start == 0 || start == 1,
            start <= i <= len,
            len == s@.len(),
            start == 1 ==> s@.len() > 0 && s@[0] == '+',
            start == 0 ==> s@.len() == 0 || s@[0] != '+',
            tail == s@.subrange(start as int, len as int),
            all_dec_digits(s@.subrange(start as int, i as int)),
            acc as nat == digits_value(s@.subrange(start as int, i as int)),
        decreases len - i,
    {
        let c = s.get_char(i);
        let u = c as u32;
        if u < 48 || u > 57 {
            proof {
                if is_unsigned_dec_text(s@) {
                    if start == 1 {
                        assert(tail =~= s@.drop_first());
                    } else {
                        assert(tail =~= s@);
                    }
                    assert(is_dec_digit(tail[i - start]));
                    assert(tail[i - start] == s@[i as int]);
                }
            }
            return None;
        }
        let d = (u - 48) as usize;
        let next = match acc.checked_mul(10) {
            Some(a) => match a.checked_add(d) {
                Some(b) => b,
                None => {
                    proof {
                        lemma_parse_overflow(s@, tail, start as int, i as int, acc as nat, d as nat);
                    }
                    return None;
                },
            },
            None => {
                proof {
                    lemma_parse_overflow(s@, tail, start as int, i as int, acc as nat, d as nat);
                }
                return None;
            },
        };
        proof {
            assert(s@.subrange(start as int, i + 1).drop_last() =~= s@.subrange(
                start as int,
                i as int,
            ));
            assert(s@.subrange(start as int, i + 1).last() == s@[i as int]);
        }
        acc = next;
        i = i + 1;
    }
    proof {
        assert(s@.subrange(start as int, len as int) =~= tail);
        assert(is_unsigned_dec_text(s@));
        assert(unsigned_dec_value(s@) == acc as nat);
    }
    Some(acc)
}

/// When the accumulator for the scanned prefix would exceed `usize::MAX`,
/// no reading of the whole text both is valid and fits.
proof fn lemma_parse_overflow(s: Seq<char>, tail: Seq<char>, start: int, i: int, acc: nat, d: nat)
    requires
        start == 0 || start == 1,
        start <= i < s.len(),
        tail == s.subrange(start, s.len() as int),
        start == 1 ==> s.len() > 0 && s[0] == '+',
        start == 0 ==> s.len() == 0 || s[0] != '+',
        all_dec_digits(s.subrange(start, i)),
        acc == digits_value(s.subrange(start, i)),
        is_dec_digit(s[i]),
        d == digit_value(s[i]),
        acc * 10 + d > usize::MAX,
    ensures
        !(is_unsigned_dec_text(s) && unsigned_dec_value(s) <= usize::MAX),
{
    if is_unsigned_dec_text(s) {
        assert(all_dec_digits(tail)) by {
            if start == 1 {
                assert(tail =~= s.drop_first());
            } else {
                assert(tail =~= s);
            }
        }
        assert(all_dec_digits(s.subrange(start, i + 1))) by {
            assert(forall|j: int|
                0 <= j < i + 1 - start ==> #[trigger] s.subrange(start, i + 1)[j] == tail[j]);
        }
        lemma_digits_value_prefix(tail, i + 1 - start);
        assert(tail.subrange(0, i + 1 - start) =~= s.subrange(start, i + 1));
        assert(s.subrange(start, i + 1).drop_last() =~= s.subrange(start, i));
        assert(digits_value(s.subrange(start, i + 1)) == acc * 10 + d);
        assert(unsigned_dec_value(s) == digits_value(tail)) by {
            if start == 1 {
                assert(tail =~= s.drop_first());
            } else {
                assert(tail =~= s);
            }
        }
    }
}

} // verus!
