//! Sync cursors as the database stores them: decimal text.
use vstd::prelude::*;
use vstd::string::StrSliceExecFns;

verus! {

/// An ASCII decimal digit.
pub open spec fn is_digit(c: char) -> bool {
    '0' <= c <= '9'
}

/// The value of a decimal digit.
pub open spec fn digit_value(c: char) -> int {
    (c as int) - ('0' as int)
}

/// Every character is a decimal digit.
pub open spec fn all_digits(s: Seq<char>) -> bool {
    forall|i: int| 0 <= i < s.len() ==> is_digit(#[trigger] s[i])
}

/// The value of a string of decimal digits, most significant first.
pub open spec fn digits_value(s: Seq<char>) -> int
    decreases s.len(),
{
    if s.len() == 0 {
        0
    } else {
        digits_value(s.drop_last()) * 10 + digit_value(s.last())
    }
}

/// The value of an optional sign followed by at least one decimal digit.
pub open spec fn signed_value(t: Seq<char>) -> Option<int> {
    if t.len() > 0 && (t[0] == '-' || t[0] == '+') {
        let body = t.drop_first();
        if body.len() > 0 && all_digits(body) {
            Some(if t[0] == '-' { -digits_value(body) } else { digits_value(body) })
        } else {
            None
        }
    } else if t.len() > 0 && all_digits(t) {
        Some(digits_value(t))
    } else {
        None
    }
}

/// What `str::parse::<i64>` gives: the value of an optional sign and
/// decimal digits, when it fits in `i64`.
pub open spec fn spec_parse_i64(t: Seq<char>) -> Option<i64> {
    match signed_value(t) {
        Some(v) => if i64::MIN <= v <= i64::MAX {
            Some(v as i64)
        } else {
            None
        },
        None => None,
    }
}

/// The value of digits only grows as digits are appended.
proof fn lemma_digits_value_grows(s: Seq<char>, k: int)
    requires
        0 <= k <= s.len(),
        all_digits(s),
    ensures
        digits_value(s.take(k)) <= digits_value(s),
        0 <= digits_value(s.take(k)),
    decreases s.len() - k,
{
    if k < s.len() {
        lemma_digits_value_grows(s, k + 1);
        assert(s.take(k + 1).drop_last() =~= s.take(k));
        assert(s.take(k + 1).last() == s[k]);
        assert(is_digit(s[k]));
    } else {
        assert(s.take(k) =~= s);
    }
    lemma_digits_nonnegative(s.take(k));
}

proof fn lemma_digits_nonnegative(s: Seq<char>)
    requires
        all_digits(s),
    ensures
        digits_value(s) >= 0,
    decreases s.len(),
{
    if s.len() > 0 {
        assert(is_digit(s.last()));
        lemma_digits_nonnegative(s.drop_last());
    }
}

/// The value of a signed decimal text, or `None` when it is not one or
/// does not fit in `i64` (as `str::parse::<i64>` decides).
pub fn parse_i64(text: &str) -> (r: Option<i64>)
    ensures
        r == spec_parse_i64(text@),
{
    let n = text.unicode_len();
    if n == 0 {
        return None;
    }
    let first = text.get_char(0);
    let negative = first == '-';
    let start: usize = if first == '-' || first == '+' { 1 } else { 0 };
    if start == n {
        return None;
    }
    let ghost body = text@.subrange(start as int, n as int);
    proof {
        if start == 1 {
            assert(body =~= text@.drop_first());
        } else {
            assert(body =~= text@);
        }
    }
    let limit: u64 = 0x8000_0000_0000_0000;
    let mut magnitude: u64 = 0;
    let mut i: usize = start;
    while i < n
        invariant
            n == text@.len(),
            start <= i <= n,
            start <= 1,
            body == text@.subrange(start as int, n as int),
            all_digits(body.take(i - start)),
            magnitude == digits_value(body.take(i - start)),
            magnitude <= limit,
            limit == 0x8000_0000_0000_0000u64,
            n > 0,
            first == text@[0],
            negative == (first == '-'),
            start == 1 <==> (first == '-' || first == '+'),
            start == 1 ==> body == text@.drop_first(),
            start == 0 ==> body == text@,
        decreases n - i,
    {
        let c = text.get_char(i);
        let ghost prefix = body.take(i - start);
        assert(body[i - start] == c);
        assert(body.take(i + 1 - start).drop_last() =~= prefix);
        if !('0' <= c && c <= '9') {
            proof {
                assert(!is_digit(body[i - start]));
                assert(!all_digits(body));
            }
            return None;
        }
        let d: u64 = ((c as u32) - ('0' as u32)) as u64;
        if magnitude > (limit - d) / 10 {
            proof {
                assert(digits_value(body.take(i + 1 - start)) == magnitude * 10 + d);
                assert(magnitude * 10 + d > limit) by (nonlinear_arith)
                    requires
                        magnitude > (limit - d) / 10,
                        d <= 9,
                        limit == 0x8000_0000_0000_0000u64,
                ;
                if all_digits(body) {
                    lemma_digits_value_grows(body, i + 1 - start);
                    assert(digits_value(body) > limit);
                    if start == 1 {
                        assert(signed_value(text@) == Some(if first == '-' { -digits_value(body) } else { digits_value(body) }));
                    } else {
                        assert(signed_value(text@) == Some(digits_value(body)));
                    }
                } else {
                    assert(signed_value(text@) is None);
                }
            }
            return None;
        }
        proof {
            assert(magnitude * 10 + d <= limit) by (nonlinear_arith)
                requires
                    magnitude <= (limit - d) / 10,
                    d <= 9,
                    limit == 0x8000_0000_0000_0000u64,
            ;
        }
        magnitude = magnitude * 10 + d;
        i = i + 1;
        proof {
            assert forall|j: int| 0 <= j < body.take(i - start).len() implies is_digit(#[trigger] body.take(i - start)[j]) by {
                if j < prefix.len() {
                    assert(body.take(i - start)[j] == prefix[j]);
                }
            }
        }
    }
    proof {
        assert(body.take(n - start) =~= body);
    }
    if negative {
        if magnitude == limit {
            Some(i64::MIN)
        } else {
            Some(-(magnitude as i64))
        }
    } else if magnitude > 0x7FFF_FFFF_FFFF_FFFF {
        None
    } else {
        Some(magnitude as i64)
    }
}

/// The cursor that a stored text holds; a text that is not a number reads
/// as 0.
pub fn cursor_value(text: &str) -> (v: i64)
    ensures
        v == (match spec_parse_i64(text@) {
            Some(n) => n,
            None => 0,
        }),
{
    match parse_i64(text) {
        Some(n) => n,
        None => 0,
    }
}

} // verus!
