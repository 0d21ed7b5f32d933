//! Decimal text for integers: rendering as `Display` writes it and parsing as
//! `FromStr` reads it, each stated as a short recursive specification.

use vstd::prelude::*;

verus! {

/// The ASCII digit for `d` in `0..10`.
pub open spec fn digit_char(d: int) -> char {
    (48 + d) as char
}

/// The decimal representation of `n`, without leading zeros.
pub open spec fn decimal(n: nat) -> Seq<char>
    decreases n,
{
    if n < 10 {
        seq![digit_char(n as int)]
    } else {
        decimal(n / 10).push(digit_char((n % 10) as int))
    }
}

/// The decimal representation of a signed value: a minus sign for negative values.
pub open spec fn decimal_signed(n: int) -> Seq<char> {
    if n < 0 {
        seq!['-'] + decimal((-n) as nat)
    } else {
        decimal(n as nat)
    }
}

pub open spec fn is_ascii_digit(c: char) -> bool {
    '0' <= c && c <= '9'
}

/// Every character of `s` is an ASCII digit.
pub open spec fn all_digits(s: Seq<char>) -> bool {
    forall|i: int| 0 <= i < s.len() ==> is_ascii_digit(#[trigger] s[i])
}

/// The value of a string of ASCII digits.
pub open spec fn digits_value(s: Seq<char>) -> nat
    decreases s.len(),
{
    if s.len() == 0 {
        0
    } else {
        digits_value(s.drop_last()) * 10 + ((s.last() as int) - 48) as nat
    }
}

/// What `str::parse::<usize>` returns: an optional leading `+`, then at least
/// one ASCII digit, with a value that fits in `usize`.
pub open spec fn parse_usize_spec(s: Seq<char>) -> Option<usize> {
    let digits = if s.len() > 0 && s[0] == '+' {
        s.drop_first()
    } else {
        s
    };
    if digits.len() == 0 || !all_digits(digits) || digits_value(digits) > usize::MAX {
        None
    } else {
        Some(digits_value(digits) as usize)
    }
}

fn digit_text(d: u64) -> (s: &'static str)
    requires
        d < 10,
    ensures
        s@ == seq![digit_char(d as int)],
{
    proof {
        reveal_strlit("0");
        reveal_strlit("1");
        reveal_strlit("2");
        reveal_strlit("3");
        reveal_strlit("4");
        reveal_strlit("5");
        reveal_strlit("6");
        reveal_strlit("7");
        reveal_strlit("8");
        reveal_strlit("9");
    }
    let s = match d {
        0 => "0",
        1 => "1",
        2 => "2",
        3 => "3",
        4 => "4",
        5 => "5",
        6 => "6",
        7 => "7",
        8 => "8",
        _ => "9",
    };
    proof {
        assert(s@ =~= seq![digit_char(d as int)]);
    }
    s
}

/// Appends the decimal representation of `n` to `out`.
pub fn push_decimal(out: &mut String, n: u64)
    ensures
        final(out)@ == old(out)@ + decimal(n as nat),
{
    if n == 0 {
        out.append("0");
        proof {
            reveal_strlit("0");
            assert(decimal(0) =~= seq!['0']);
        }
        return;
    }
    let mut digits: Vec<u64> = Vec::new();
    let mut m: u64 = n;
    let ghost mut suffix: Seq<char> = Seq::empty();
    loop
        invariant
            decimal(n as nat) == (if m == 0 {
                Seq::<char>::empty()
            } else {
                decimal(m as nat)
            }) + suffix,
            m > 0 || digits.len() > 0,
            m <= n,
            suffix.len() == digits.len(),
            forall|i: int| 0 <= i < digits.len() ==> #[trigger] digits@[i] < 10,
            forall|i: int|
                0 <= i < suffix.len() ==> #[trigger] suffix[i] == digit_char(
                    digits@[digits.len() - 1 - i] as int,
                ),
        ensures
            m == 0,
            decimal(n as nat) == suffix,
            suffix.len() == digits.len(),
            forall|i: int| 0 <= i < digits.len() ==> #[trigger] digits@[i] < 10,
            forall|i: int|
                0 <= i < suffix.len() ==> #[trigger] suffix[i] == digit_char(
                    digits@[digits.len() - 1 - i] as int,
                ),
        decreases m,
    {
        if m == 0 {
            assert(Seq::<char>::empty() + suffix =~= suffix);
            break;
        }
        let d = m % 10;
        let ghost old_suffix = suffix;
        proof {
            suffix = seq![digit_char(d as int)] + suffix;
            if m < 10 {
                assert(decimal(m as nat) =~= seq![digit_char(d as int)]);
                assert(Seq::<char>::empty() + suffix =~= decimal(m as nat) + old_suffix);
            } else {
                assert(decimal(m as nat) == decimal((m / 10) as nat).push(digit_char(d as int)));
                assert(decimal((m / 10) as nat) + suffix =~= decimal(m as nat) + old_suffix);
            }
        }
        digits.push(d);
        m = m / 10;
        proof {
            assert forall|i: int| 0 <= i < suffix.len() implies #[trigger] suffix[i] == digit_char(
                digits@[digits.len() - 1 - i] as int,
            ) by {
                if i > 0 {
                    assert(suffix[i] == old_suffix[i - 1]);
                }
            }
        }
    }
    let ghost start = out@;
    let mut k = digits.len();
    while k > 0
        invariant
            k <= digits.len(),
            suffix.len() == digits.len(),
            forall|i: int| 0 <= i < digits.len() ==> #[trigger] digits@[i] < 10,
            forall|i: int|
                0 <= i < suffix.len() ==> #[trigger] suffix[i] == digit_char(
                    digits@[digits.len() - 1 - i] as int,
                ),
            out@ == start + suffix.take(digits.len() - k),
        decreases k,
    {
        k -= 1;
        out.append(digit_text(digits[k]));
        proof {
            assert(suffix.take(digits.len() - k) =~= suffix.take(digits.len() - k - 1).push(
                suffix[digits.len() - k - 1],
            ));
        }
    }
    proof {
        assert(suffix.take(digits.len() as int) =~= suffix);
    }
}

/// The decimal representation of `n`.
pub fn u64_to_decimal(n: u64) -> (s: String)
    ensures
        s@ == decimal(n as nat),
{
    let mut s = String::new();
    push_decimal(&mut s, n);
    proof {
        assert(Seq::<char>::empty() + decimal(n as nat) =~= decimal(n as nat));
    }
    s
}

/// The decimal representation of `n`, with a minus sign when negative.
pub fn i64_to_decimal(n: i64) -> (s: String)
    ensures
        s@ == decimal_signed(n as int),
{
    let mut s = String::new();
    if n < 0 {
        s.append("-");
        let magnitude: u64 = ((-(n + 1)) as u64) + 1;
        push_decimal(&mut s, magnitude);
        proof {
            reveal_strlit("-");
            assert(s@ =~= seq!['-'] + decimal((-n) as nat));
        }
    } else {
        push_decimal(&mut s, n as u64);
        proof {
            assert(s@ =~= decimal(n as nat));
        }
    }
    s
}

proof fn lemma_decimal_digits(n: nat)
    ensures
        decimal(n).len() > 0,
        all_digits(decimal(n)),
        decimal(n)[0] != '+',
        digits_value(decimal(n)) == n,
    decreases n,
{
    if n < 10 {
        let d = decimal(n);
        assert(d.drop_last() =~= Seq::<char>::empty());
        assert(d.last() == digit_char(n as int));
        assert((digit_char(n as int) as int) == 48 + n);
        assert(digits_value(d) == digits_value(d.drop_last()) * 10 + ((d.last() as int) - 48) as nat);
    } else {
        lemma_decimal_digits(n / 10);
        let d = decimal(n);
        assert(d.drop_last() =~= decimal(n / 10));
        assert(d.last() == digit_char((n % 10) as int));
        assert((digit_char((n % 10) as int) as int) == 48 + n % 10);
        assert(digits_value(d) == digits_value(d.drop_last()) * 10 + ((d.last() as int) - 48) as nat);
        assert((n / 10) * 10 + n % 10 == n) by (nonlinear_arith);
        assert forall|i: int| 0 <= i < d.len() implies is_ascii_digit(#[trigger] d[i]) by {
            if i < d.len() - 1 {
                assert(d[i] == decimal(n / 10)[i]);
            }
        }
    }
}

/// Parsing the decimal representation of a `usize` gives the value back.
pub proof fn law_decimal_round_trip(n: usize)
    ensures
        parse_usize_spec(decimal(n as nat)) == Some(n),
{
    lemma_decimal_digits(n as nat);
}

/// Parses `s` as `str::parse::<usize>` does.
pub fn parse_usize(s: &str) -> (r: Option<usize>)
    ensures
        r == parse_usize_spec(s@),
{
    let len = s.unicode_len();
    if len == 0 {
        return None;
    }
    let start: usize = if s.get_char(0) == '+' {
        1
    } else {
        0
    };
    let ghost digits = if s@.len() > 0 && s@[0] == '+' {
        s@.drop_first()
    } else {
        s@
    };
    proof {
        assert(digits =~= s@.subrange(start as int, len as int));
    }
    if start == len {
        return None;
    }
    let mut value: usize = 0;
    let mut i = start;
    while i < len
        invariant
            len == s@.len(),
            start <= i <= len,
            digits =~= s@.subrange(start as int, len as int),
            digits == (if s@.len() > 0 && s@[0] == '+' {
                s@.drop_first()
            } else {
                s@
            }),
            all_digits(s@.subrange(start as int, i as int)),
            value as nat == digits_value(s@.subrange(start as int, i as int)),
        decreases len - i,
    {
        let c = s.get_char(i);
        if !('0' <= c && c <= '9') {
            proof {
                assert(digits[i - start] == c);
                assert(!is_ascii_digit(digits[i - start]));
                assert(!all_digits(digits));
            }
            return None;
        }
        let d = (c as u32 - 48) as usize;
        proof {
            let prefix = s@.subrange(start as int, i + 1);
            assert(prefix.drop_last() =~= s@.subrange(start as int, i as int));
            assert(prefix.last() == c);
        }
        if value > (usize::MAX - d) / 10 {
            proof {
                let k = i + 1 - start;
                assert(s@.subrange(start as int, i + 1) =~= digits.take(k));
                assert(value * 10 + d > usize::MAX) by (nonlinear_arith)
                    requires
                        value > (usize::MAX - d) / 10,
                        d <= 9,
                ;
                assert(digits_value(digits.take(k)) == digits_value(s@.subrange(start as int, i as int)) * 10 + d);
                if all_digits(digits) {
                    lemma_digits_value_monotone(digits, k);
                }
            }
            return None;
        }
        value = value * 10 + d;
        i += 1;
    }
    proof {
        assert(s@.subrange(start as int, len as int) =~= digits);
    }
    Some(value)
}

/// Extending a digit string never lowers its value.
proof fn lemma_digits_value_monotone(s: Seq<char>, k: int)
    requires
        0 <= k <= s.len(),
        all_digits(s),
    ensures
        digits_value(s.take(k)) <= digits_value(s),
    decreases s.len() - k,
{
    if k < s.len() {
        lemma_digits_value_monotone(s, k + 1);
        assert(s.take(k + 1).drop_last() =~= s.take(k));
        assert(is_ascii_digit(s[k]));
    } else {
        assert(s.take(k) =~= s);
    }
}

} // verus!
