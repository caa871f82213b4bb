//! Decimal text of integers.
use vstd::prelude::*;

verus! {

/// The decimal digit character of a value below 10.
pub open spec fn digit_char(d: nat) -> char {
    (('0' as u8) + (d as u8)) as char
}

/// The decimal digits of a natural number, most significant first.
pub open spec fn decimal_digits(n: nat) -> Seq<char>
    decreases n,
{
    if n < 10 {
        seq![digit_char(n)]
    } else {
        decimal_digits(n / 10).push(digit_char(n % 10))
    }
}

/// The decimal text of an integer: a minus sign before the digits of its
/// magnitude when it is negative.
pub open spec fn decimal(n: int) -> Seq<char> {
    if n < 0 {
        seq!['-'] + decimal_digits((-n) as nat)
    } else {
        decimal_digits(n as nat)
    }
}

/// The decimal text of an integer (`ToString` of `i128`, which std documents
/// as the decimal representation with a leading minus sign when negative).
#[verifier::external_body]
pub(crate) fn decimal_string(n: i128) -> (s: String)
    ensures
        s@ == decimal(n as int),
{
    n.to_string()
}


/// Ten to the power `k`.
pub open spec fn pow10(k: nat) -> nat
    decreases k,
{
    if k == 0 {
        1
    } else {
        10 * pow10((k - 1) as nat)
    }
}

/// The decimal digits of a number are ASCII digits, and a number below
/// 10^k has at most k of them.
pub proof fn lemma_decimal_digits_ascii(n: nat, k: nat)
    requires
        k >= 1,
        n < pow10(k),
    ensures
        decimal_digits(n).len() <= k,
        forall|i: int| 0 <= i < decimal_digits(n).len() ==> '0' <= #[trigger] decimal_digits(n)[i] <= '9',
    decreases n,
{
    if n >= 10 {
        assert(k >= 2) by {
            if k == 1 {
                assert(pow10(1) == 10) by {
                    assert(pow10(0) == 1);
                }
            }
        }
        assert(n / 10 < pow10((k - 1) as nat)) by (nonlinear_arith)
            requires
                n < pow10(k),
                pow10(k) == 10 * pow10((k - 1) as nat),
        ;
        lemma_decimal_digits_ascii(n / 10, (k - 1) as nat);
    }
}

/// The decimal text of an `i64` is at most 20 ASCII characters.
pub proof fn lemma_decimal_ascii(n: int)
    requires
        i64::MIN <= n <= i64::MAX,
    ensures
        decimal(n).len() <= 20,
        vstd::utf8::is_ascii_chars(decimal(n)),
{
    let m: nat = if n < 0 { (-n) as nat } else { n as nat };
    assert(pow10(19) == 10000000000000000000nat) by {
        reveal_with_fuel(pow10, 20);
    }
    lemma_decimal_digits_ascii(m, 19);
    if n >= 0 {
        assert forall|i: int| 0 <= i < decimal(n).len() implies '\0' <= #[trigger] decimal(n)[i] <= '\u{7f}' by {
            assert('0' <= decimal_digits(m)[i] <= '9');
        }
    }
    if n < 0 {
        assert forall|i: int| 0 <= i < decimal(n).len() implies '\0' <= #[trigger] decimal(n)[i] <= '\u{7f}' by {
            if i > 0 {
                assert(decimal(n)[i] == decimal_digits(m)[i - 1]);
            }
        }
    }
}

/// Whether two texts are equal.
pub fn str_eq(a: &str, b: &str) -> (r: bool)
    ensures
        r == (a@ == b@),
{
    let x = String::from_str(a);
    let y = String::from_str(b);
    x == y
}

} // verus!
