//! Decimal parsing for the command-line layer: a `u32` (image extent) and
//! an `isize` (depth budget) from a string.
//!
//! The accepted form is an optional sign (`+` only for `u32`, `+` or `-`
//! for `isize`) followed by one or more ASCII digits, with the value in
//! the target type's range; anything else is rejected with a fixed
//! message.

use vstd::prelude::*;
use vstd::string::StringSliceAdditionalSpecFns;

verus! {

/// Whether a byte is an ASCII decimal digit.
pub open spec fn is_digit_byte(b: u8) -> bool {
    48 <= b <= 57
}

/// Whether every byte is an ASCII decimal digit.
pub open spec fn all_digits(s: Seq<u8>) -> bool {
    forall|i: int| 0 <= i < s.len() ==> is_digit_byte(#[trigger] s[i])
}

/// The number a digit string denotes in decimal.
pub open spec fn digits_val(s: Seq<u8>) -> int
    decreases s.len(),
{
    if s.len() == 0 {
        0
    } else {
        digits_val(s.drop_last()) * 10 + (s.last() - 48)
    }
}

/// One step of reading digits left to right: taking one more digit
/// multiplies the value by ten and adds it.
pub proof fn lemma_digits_take_step(s: Seq<u8>, j: int)
    requires
        0 <= j < s.len(),
    ensures
        digits_val(s.take(j + 1)) == digits_val(s.take(j)) * 10 + (s[j] - 48),
{
    assert(s.take(j + 1).drop_last() =~= s.take(j));
    assert(s.take(j + 1).last() == s[j]);
}

/// A digit string's value is nonnegative, as is every prefix's.
pub proof fn lemma_digits_val_nonneg(s: Seq<u8>, j: int)
    requires
        0 <= j <= s.len(),
        all_digits(s),
    ensures
        digits_val(s.take(j)) >= 0,
    decreases j,
{
    if j > 0 {
        lemma_digits_val_nonneg(s, j - 1);
        lemma_digits_take_step(s, j - 1);
    } else {
        assert(s.take(0) =~= Seq::<u8>::empty());
    }
}

/// A prefix of a digit string denotes at most what the whole denotes.
pub proof fn lemma_digits_val_prefix_le(s: Seq<u8>, j: int)
    requires
        0 <= j <= s.len(),
        all_digits(s),
    ensures
        digits_val(s.take(j)) <= digits_val(s),
    decreases s.len() - j,
{
    if j == s.len() {
        assert(s.take(j) =~= s);
    } else {
        lemma_digits_take_step(s, j);
        lemma_digits_val_nonneg(s, j);
        lemma_digits_val_prefix_le(s, j + 1);
    }
}

/// The digits of an unsigned numeral: what follows an optional leading
/// `+`.
pub open spec fn unsigned_body(s: Seq<u8>) -> Seq<u8> {
    if s.len() > 0 && s[0] == 43 {
        s.drop_first()
    } else {
        s
    }
}

/// Whether a byte string is a valid `u32` numeral: an optional `+`, then
/// one or more digits, denoting at most `u32::MAX`.
pub open spec fn valid_u32_numeral(s: Seq<u8>) -> bool {
    &&& unsigned_body(s).len() > 0
    &&& all_digits(unsigned_body(s))
    &&& digits_val(unsigned_body(s)) <= u32::MAX
}

/// Parse a `u32` from decimal: an optional `+`, then one or more digits,
/// with the value in range; anything else is an error.
pub fn parse_number(s: &str) -> (r: Result<u32, &'static str>)
    ensures
        r is Ok <==> valid_u32_numeral(s.spec_bytes()),
        r matches Ok(n) ==> n == digits_val(unsigned_body(s.spec_bytes())),
        r matches Err(m) ==> m@ == "Not a number"@,
{
    let bytes = s.as_bytes();
    let n_bytes = bytes.len();
    let mut i: usize = 0;
    if n_bytes > 0 && bytes[0] == 43 {
        i = 1;
    }
    let ghost start = i;
    let ghost d = unsigned_body(s.spec_bytes());
    proof {
        assert(d =~= bytes@.subrange(start as int, n_bytes as int));
    }
    if i >= n_bytes {
        return Err("Not a number");
    }
    let mut acc: u64 = 0;
    while i < n_bytes
        invariant
            bytes@ == s.spec_bytes(),
            n_bytes == bytes@.len(),
            start <= i <= n_bytes,
            d == unsigned_body(s.spec_bytes()),
            d == bytes@.subrange(start as int, n_bytes as int),
            all_digits(d.take(i - start)),
            acc as int == digits_val(d.take(i - start)),
            acc <= u32::MAX,
        decreases n_bytes - i,
    {
        let c = bytes[i];
        proof {
            assert(d[i - start] == bytes@[i as int]);
        }
        if c < 48 || c > 57 {
            proof {
                assert(!is_digit_byte(d[i - start]));
                assert(!all_digits(d));
            }
            return Err("Not a number");
        }
        proof {
            lemma_digits_take_step(d, i - start);
        }
        acc = acc * 10 + (c - 48) as u64;
        i = i + 1;
        if acc > 0xffff_ffffu64 {
            proof {
                if all_digits(d) {
                    lemma_digits_val_prefix_le(d, i - start);
                    assert(digits_val(d) > u32::MAX);
                }
                assert(!valid_u32_numeral(s.spec_bytes()));
            }
            return Err("Not a number");
        }
    }
    proof {
        assert(d.take(i - start) =~= d);
    }
    Ok(acc as u32)
}

/// The digits of a signed numeral: what follows an optional leading `+`
/// or `-`.
pub open spec fn signed_body(s: Seq<u8>) -> Seq<u8> {
    if s.len() > 0 && (s[0] == 43 || s[0] == 45) {
        s.drop_first()
    } else {
        s
    }
}

/// Whether a byte string begins with a minus sign.
pub open spec fn is_negative_numeral(s: Seq<u8>) -> bool {
    s.len() > 0 && s[0] == 45
}

/// The number a signed numeral denotes: its digits' value, negated after
/// a leading `-`.
pub open spec fn signed_value(s: Seq<u8>) -> int {
    if is_negative_numeral(s) {
        -digits_val(signed_body(s))
    } else {
        digits_val(signed_body(s))
    }
}

/// Whether a byte string is a valid `isize` numeral: an optional sign,
/// then one or more digits, denoting a value in the `isize` range.
pub open spec fn valid_isize_numeral(s: Seq<u8>) -> bool {
    &&& signed_body(s).len() > 0
    &&& all_digits(signed_body(s))
    &&& isize::MIN <= signed_value(s) <= isize::MAX
}

/// Parse an `isize` from decimal: an optional `+` or `-`, then one or
/// more digits, with the value in range; anything else is an error.
pub fn parse_number_isize(s: &str) -> (r: Result<isize, &'static str>)
    ensures
        r is Ok <==> valid_isize_numeral(s.spec_bytes()),
        r matches Ok(n) ==> n as int == signed_value(s.spec_bytes()),
        r matches Err(m) ==> m@ == "Not a number"@,
{
    let bytes = s.as_bytes();
    let n_bytes = bytes.len();
    let mut i: usize = 0;
    let mut neg = false;
    if n_bytes > 0 && (bytes[0] == 43 || bytes[0] == 45) {
        neg = bytes[0] == 45;
        i = 1;
    }
    let ghost start = i;
    let ghost d = signed_body(s.spec_bytes());
    proof {
        assert(d =~= bytes@.subrange(start as int, n_bytes as int));
    }
    if i >= n_bytes {
        return Err("Not a number");
    }
    let limit: u128 = if neg {
        (isize::MAX as u128) + 1
    } else {
        isize::MAX as u128
    };
    let mut mag: u128 = 0;
    while i < n_bytes
        invariant
            bytes@ == s.spec_bytes(),
            n_bytes == bytes@.len(),
            start <= i <= n_bytes,
            d == signed_body(s.spec_bytes()),
            d == bytes@.subrange(start as int, n_bytes as int),
            all_digits(d.take(i - start)),
            mag as int == digits_val(d.take(i - start)),
            mag <= limit,
            limit as int == if neg {
                isize::MAX + 1
            } else {
                isize::MAX as int
            },
            neg == is_negative_numeral(s.spec_bytes()),
        decreases n_bytes - i,
    {
        let c = bytes[i];
        proof {
            assert(d[i - start] == bytes@[i as int]);
        }
        if c < 48 || c > 57 {
            proof {
                assert(!is_digit_byte(d[i - start]));
                assert(!all_digits(d));
            }
            return Err("Not a number");
        }
        proof {
            lemma_digits_take_step(d, i - start);
        }
        mag = mag * 10 + (c - 48) as u128;
        i = i + 1;
        if mag > limit {
            proof {
                if all_digits(d) {
                    lemma_digits_val_prefix_le(d, i - start);
                    assert(digits_val(d) > limit);
                }
                assert(!valid_isize_numeral(s.spec_bytes()));
            }
            return Err("Not a number");
        }
    }
    proof {
        assert(d.take(i - start) =~= d);
    }
    if neg {
        if mag == (isize::MAX as u128) + 1 {
            Ok(isize::MIN)
        } else {
            Ok(-(mag as isize))
        }
    } else {
        Ok(mag as isize)
    }
}

} // verus!
