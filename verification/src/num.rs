//! Decimal text handling: the counter travels as a base-10 string, both in
//! the submit request body and in the durable record's attribute, and comes
//! back as the number inside the JSON reply.

use vstd::prelude::*;

verus! {

/// ASCII code of the decimal digit `d`.
pub open spec fn digit_byte(d: int) -> u8
    recommends
        0 <= d <= 9,
{
    (48 + d) as u8
}

/// `b` is the ASCII code of a decimal digit.
pub open spec fn is_digit_byte(b: u8) -> bool {
    48 <= b <= 57
}

/// Every byte of `s` is an ASCII decimal digit.
pub open spec fn all_digit_bytes(s: Seq<u8>) -> bool {
    forall|i: int| 0 <= i < s.len() ==> is_digit_byte(#[trigger] s[i])
}

/// The decimal digits of `n`, most significant first.
pub open spec fn dec_digits(n: int) -> Seq<u8>
    recommends
        0 <= n,
    decreases n,
{
    if n < 10 {
        seq![digit_byte(n)]
    } else {
        dec_digits(n / 10).push(digit_byte(n % 10))
    }
}

/// The number a string of decimal digits stands for, most significant first.
pub open spec fn dec_value(s: Seq<u8>) -> int
    decreases s.len(),
{
    if s.len() == 0 {
        0
    } else {
        dec_value(s.drop_last()) * 10 + (s.last() - 48)
    }
}

/// The digit part of a decimal text: one leading `+` sign is dropped.
pub open spec fn dec_part(s: Seq<u8>) -> Seq<u8> {
    if s.len() > 0 && s[0] == 43u8 {
        s.skip(1)
    } else {
        s
    }
}

/// What parsing a decimal `u32` from `s` yields: the value of the digit part
/// when it is nonempty, all digits, and fits in a `u32`; nothing otherwise.
pub open spec fn parse_u32_spec(s: Seq<u8>) -> Option<u32> {
    let d = dec_part(s);
    if d.len() > 0 && all_digit_bytes(d) && dec_value(d) <= u32::MAX {
        Some(dec_value(d) as u32)
    } else {
        None
    }
}

/// A string of digits stands for a non-negative number.
pub proof fn lemma_dec_value_nonneg(s: Seq<u8>)
    requires
        all_digit_bytes(s),
    ensures
        dec_value(s) >= 0,
    decreases s.len(),
{
    if s.len() > 0 {
        assert forall|i: int| 0 <= i < s.drop_last().len() implies is_digit_byte(
            #[trigger] s.drop_last()[i],
        ) by {
            assert(s.drop_last()[i] == s[i]);
        }
        lemma_dec_value_nonneg(s.drop_last());
    }
}

/// Dropping trailing digits never makes the number larger.
pub proof fn lemma_dec_value_prefix(s: Seq<u8>, i: int)
    requires
        all_digit_bytes(s),
        0 <= i <= s.len(),
    ensures
        dec_value(s.take(i)) <= dec_value(s),
    decreases s.len() - i,
{
    assert forall|k: int, j: int| 0 <= k <= s.len() && 0 <= j < k implies is_digit_byte(
        #[trigger] s.take(k)[j],
    ) by {
        assert(s.take(k)[j] == s[j]);
    }
    if i == s.len() {
        assert(s.take(i) =~= s);
    } else {
        assert(s.take(i + 1).drop_last() =~= s.take(i));
        assert(s.take(i + 1).last() == s[i]);
        lemma_dec_value_nonneg(s.take(i));
        assert(dec_value(s.take(i + 1)) == dec_value(s.take(i)) * 10 + (s[i] - 48));
        lemma_dec_value_prefix(s, i + 1);
    }
}

/// The decimal digits of `n` are well formed and stand for `n` itself.
pub proof fn lemma_dec_digits_wf(n: int)
    requires
        0 <= n,
    ensures
        all_digit_bytes(dec_digits(n)),
        dec_digits(n).len() >= 1,
        dec_value(dec_digits(n)) == n,
    decreases n,
{
    if n < 10 {
        let s = dec_digits(n);
        assert(s =~= seq![digit_byte(n)]);
        assert(s.len() == 1 && s.last() == digit_byte(n));
        assert(s.drop_last() =~= Seq::<u8>::empty());
        assert(dec_value(s.drop_last()) == 0);
        assert(digit_byte(n) == 48 + n);
        assert(dec_value(s) == 0 * 10 + (digit_byte(n) - 48));
    } else {
        lemma_dec_digits_wf(n / 10);
        assert(dec_digits(n).drop_last() =~= dec_digits(n / 10));
        assert(dec_digits(n).last() == digit_byte(n % 10));
        assert(dec_value(dec_digits(n)) == (n / 10) * 10 + (n % 10));
        assert forall|i: int| 0 <= i < dec_digits(n).len() implies is_digit_byte(
            #[trigger] dec_digits(n)[i],
        ) by {
            if i < dec_digits(n).len() - 1 {
                assert(dec_digits(n)[i] == dec_digits(n / 10)[i]);
            }
        }
    }
}

/// Writing a `u32` as decimal digits and parsing them back yields the same
/// number.
pub proof fn lemma_dec_roundtrip(n: int)
    requires
        0 <= n <= u32::MAX,
    ensures
        parse_u32_spec(dec_digits(n)) == Some(n as u32),
{
    lemma_dec_digits_wf(n);
    assert(is_digit_byte(dec_digits(n)[0]));
    assert(dec_part(dec_digits(n)) =~= dec_digits(n));
}

/// Parses `s` as an unsigned base-10 integer, with no surrounding whitespace
/// tolerance: one optional leading `+` sign, at least one digit, nothing else,
/// and the value must fit in a `u32`.
pub fn parse_u32(s: &[u8]) -> (r: Option<u32>)
    ensures
        r == parse_u32_spec(s@),
{
    let n: usize = s.len();
    let start: usize = if n > 0 && s[0] == 43 {
        1
    } else {
        0
    };
    proof {
        assert(dec_part(s@) =~= s@.skip(start as int));
    }
    if start == n {
        return None;
    }
    let ghost d = dec_part(s@);
    let mut acc: u32 = 0;
    let mut i: usize = start;
    while i < n
        invariant
            start <= i <= n,
            start < n,
            n == s@.len(),
            start == 1 ==> n > 0 && s@[0] == 43u8,
            start == 0 ==> !(n > 0 && s@[0] == 43u8),
            d == dec_part(s@),
            d =~= s@.skip(start as int),
            all_digit_bytes(d.take(i - start)),
            acc == dec_value(d.take(i - start)),
        decreases n - i,
    {
        let b = s[i];
        proof {
            assert(d[i - start] == s@[i as int]);
        }
        if b < 48 || b > 57 {
            proof {
                assert(!is_digit_byte(d[i - start]));
            }
            return None;
        }
        let dig: u32 = (b - 48) as u32;
        proof {
            assert(d.take(i - start + 1).drop_last() =~= d.take(i - start));
            assert(d.take(i - start + 1).last() == d[i - start]);
            assert(dec_value(d.take(i - start + 1)) == acc * 10 + dig);
        }
        if acc > (u32::MAX - dig) / 10 {
            proof {
                assert(dec_value(d.take(i - start + 1)) > u32::MAX);
                if all_digit_bytes(d) {
                    lemma_dec_value_prefix(d, i - start + 1);
                }
            }
            return None;
        }
        acc = acc * 10 + dig;
        i = i + 1;
    }
    proof {
        assert(d.take(i - start) =~= d);
    }
    Some(acc)
}

/// Appends the decimal digits of `n` to `out`, most significant first.
pub fn push_dec_digits(n: u32, out: &mut Vec<u8>)
    ensures
        final(out)@ == old(out)@ + dec_digits(n as int),
    decreases n,
{
    if n < 10 {
        let ghost before = out@;
        out.push((48 + n) as u8);
        proof {
            assert(out@ =~= before + dec_digits(n as int));
        }
    } else {
        let ghost before = out@;
        push_dec_digits(n / 10, out);
        out.push((48 + n % 10) as u8);
        proof {
            assert(out@ =~= before + dec_digits(n as int));
        }
    }
}

/// The decimal digits of `n`, most significant first, as fresh bytes.
pub fn u32_to_dec(n: u32) -> (r: Vec<u8>)
    ensures
        r@ == dec_digits(n as int),
{
    let mut out: Vec<u8> = Vec::new();
    push_dec_digits(n, &mut out);
    proof {
        assert(Seq::<u8>::empty() + dec_digits(n as int) =~= dec_digits(n as int));
    }
    out
}

} // verus!
