//! Decimal text of integers, as `Display` writes them.

use vstd::prelude::*;

verus! {

/// The character of the decimal digit `d`.
pub open spec fn digit_char(d: nat) -> char {
    (d + 48) as char
}

/// The decimal digits of `n`, most significant first, without leading zeros.
pub open spec fn digits_of(n: nat) -> Seq<char>
    decreases n,
{
    if n < 10 {
        seq![digit_char(n)]
    } else {
        digits_of(n / 10).push(digit_char(n % 10))
    }
}

/// The decimal text of `n`: a minus sign before the digits of a negative number.
pub open spec fn decimal_text(n: int) -> Seq<char> {
    if n < 0 {
        seq!['-'] + digits_of((-n) as nat)
    } else {
        digits_of(n as nat)
    }
}

fn digit_str(d: u64) -> (s: &'static str)
    requires
        d < 10,
    ensures
        s@ == seq![digit_char(d as nat)],
{
    let s = match d {
        0 => "0",
        1 => "1",
        2 => "2",
        3 => "3",
        4 => "4",
        5 => "5",
        6 => "6",
        7 => "7",
        8 => "8",
        _ => "9",
    };
    proof {
        reveal_strlit("0");
        reveal_strlit("1");
        reveal_strlit("2");
        reveal_strlit("3");
        reveal_strlit("4");
        reveal_strlit("5");
        reveal_strlit("6");
        reveal_strlit("7");
        reveal_strlit("8");
        reveal_strlit("9");
    }
    assert(s@ =~= seq![digit_char(d as nat)]);
    s
}

fn push_digits(s: &mut String, n: u64)
    ensures
        final(s)@ == old(s)@ + digits_of(n as nat),
    decreases n,
{
    if n >= 10 {
        push_digits(s, n / 10);
    }
    s.append(digit_str(n % 10));
    assert(final(s)@ =~= old(s)@ + digits_of(n as nat));
}

/// The decimal text of `n` (what `n.to_string()` gives).
pub fn decimal(n: i64) -> (s: String)
    ensures
        s@ == decimal_text(n as int),
{
    let mut s = String::new();
    if n < 0 {
        s.append("-");
        proof {
            reveal_strlit("-");
        }
        let magnitude: u64 = if n == i64::MIN {
            9223372036854775808u64
        } else {
            (-n) as u64
        };
        push_digits(&mut s, magnitude);
    } else {
        push_digits(&mut s, n as u64);
    }
    s
}

/// The decimal text of an unsigned `n`.
pub fn decimal_unsigned(n: u64) -> (s: String)
    ensures
        s@ == decimal_text(n as int),
{
    let mut s = String::new();
    push_digits(&mut s, n);
    s
}

/// A character that can stand in a decimal text: a digit or the minus sign.
pub open spec fn decimal_char(c: char) -> bool {
    ('0' <= c && c <= '9') || c == '-'
}

proof fn lemma_digit_char(d: nat)
    requires
        d < 10,
    ensures
        '0' <= digit_char(d) <= '9',
        digit_char(d) as int == d + 48,
{
}

proof fn lemma_digits_shape(n: nat)
    ensures
        digits_of(n).len() >= 1,
        n >= 10 ==> digits_of(n).len() >= 2,
        forall|i: int| 0 <= i < digits_of(n).len() ==> '0' <= #[trigger] digits_of(n)[i] <= '9',
    decreases n,
{
    lemma_digit_char(n % 10);
    if n >= 10 {
        lemma_digits_shape(n / 10);
    }
}

/// Different numbers have different digits.
pub proof fn digits_of_injective(a: nat, b: nat)
    requires
        digits_of(a) == digits_of(b),
    ensures
        a == b,
    decreases a,
{
    lemma_digits_shape(a);
    lemma_digits_shape(b);
    lemma_digit_char(a % 10);
    lemma_digit_char(b % 10);
    if a >= 10 && b >= 10 {
        let da = digits_of(a);
        assert(da.last() == digit_char(a % 10));
        assert(digits_of(b).last() == digit_char(b % 10));
        assert(da.drop_last() =~= digits_of(a / 10));
        assert(digits_of(b).drop_last() =~= digits_of(b / 10));
        digits_of_injective(a / 10, b / 10);
    } else if a < 10 && b < 10 {
        assert(digits_of(a)[0] == digit_char(a));
        assert(digits_of(b)[0] == digit_char(b));
    }
}

/// Every character of a decimal text is a digit or the minus sign.
pub proof fn decimal_text_chars(n: int)
    ensures
        forall|i: int| 0 <= i < decimal_text(n).len() ==> decimal_char(#[trigger] decimal_text(n)[i]),
{
    if n < 0 {
        lemma_digits_shape((-n) as nat);
        assert forall|i: int| 0 <= i < decimal_text(n).len() implies decimal_char(#[trigger] decimal_text(n)[i]) by {
            if i > 0 {
                assert(decimal_text(n)[i] == digits_of((-n) as nat)[i - 1]);
            }
        }
    } else {
        lemma_digits_shape(n as nat);
    }
}

/// Different numbers have different decimal texts: the text gives the number back.
pub proof fn decimal_text_injective(a: int, b: int)
    requires
        decimal_text(a) == decimal_text(b),
    ensures
        a == b,
{
    if a < 0 {
        lemma_digits_shape((-a) as nat);
    } else {
        lemma_digits_shape(a as nat);
    }
    if b < 0 {
        lemma_digits_shape((-b) as nat);
    } else {
        lemma_digits_shape(b as nat);
    }
    if a < 0 && b < 0 {
        assert(decimal_text(a).drop_first() =~= digits_of((-a) as nat));
        assert(decimal_text(b).drop_first() =~= digits_of((-b) as nat));
        digits_of_injective((-a) as nat, (-b) as nat);
    } else if a >= 0 && b >= 0 {
        digits_of_injective(a as nat, b as nat);
    } else if a < 0 {
        assert(decimal_text(a)[0] == '-');
        assert(decimal_text(b)[0] == digits_of(b as nat)[0]);
    } else {
        assert(decimal_text(b)[0] == '-');
        assert(decimal_text(a)[0] == digits_of(a as nat)[0]);
    }
}

} // verus!
