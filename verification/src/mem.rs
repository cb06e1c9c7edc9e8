//! Layout arithmetic of the DMA buffer pool, and the parsing of its
//! numeric attributes: the pool hands out 2 MB pages by offset, an
//! allocation must lie entirely inside the pool, and the pool's size and
//! physical address are read from decimal and hexadecimal text.

use vstd::prelude::*;

verus! {

/// Numeric value of one ASCII digit: the decimal digits, then the hex
/// letters in either case; any other byte gets a value past every
/// supported radix.
pub open spec fn digit_val_spec(b: u8) -> int {
    if 0x30 <= b <= 0x39 {
        b - 0x30
    } else if 0x61 <= b <= 0x66 {
        b - 0x61 + 10
    } else if 0x41 <= b <= 0x46 {
        b - 0x41 + 10
    } else {
        16
    }
}

/// Whether `b` is a digit of the given radix.
pub open spec fn is_digit(b: u8, radix: int) -> bool {
    digit_val_spec(b) < radix
}

/// Whether every byte of `s` is a digit of the given radix.
pub open spec fn all_digits(s: Seq<u8>, radix: int) -> bool {
    forall|i: int| 0 <= i < s.len() ==> is_digit(#[trigger] s[i], radix)
}

/// Numeric value of `s` read in the given radix, most significant digit
/// first.
pub open spec fn radix_value(s: Seq<u8>, radix: int) -> int
    decreases s.len(),
{
    if s.len() == 0 {
        0
    } else {
        radix_value(s.drop_last(), radix) * radix + digit_val_spec(s.last())
    }
}

/// A digit string's value is nonnegative.
proof fn lemma_radix_value_nonneg(s: Seq<u8>, radix: int)
    requires
        2 <= radix <= 16,
        all_digits(s, radix),
    ensures
        radix_value(s, radix) >= 0,
    decreases s.len(),
{
    if s.len() > 0 {
        assert(forall|i: int| 0 <= i < s.len() - 1 ==> is_digit(#[trigger] s.drop_last()[i], radix));
        lemma_radix_value_nonneg(s.drop_last(), radix);
        vstd::arithmetic::mul::lemma_mul_nonnegative(radix_value(s.drop_last(), radix), radix);
    }
}

/// Reading further digits cannot decrease the value.
proof fn lemma_radix_value_prefix(s: Seq<u8>, radix: int, i: int)
    requires
        2 <= radix <= 16,
        all_digits(s, radix),
        0 <= i <= s.len(),
    ensures
        radix_value(s.take(i), radix) <= radix_value(s, radix),
    decreases s.len() - i,
{
    if i == s.len() {
        assert(s.take(i) =~= s);
    } else {
        assert(s.take(i + 1).drop_last() =~= s.take(i));
        assert(s.take(i + 1).last() == s[i]);
        assert(forall|j: int| 0 <= j < i ==> is_digit(#[trigger] s.take(i)[j], radix));
        lemma_radix_value_nonneg(s.take(i), radix);
        vstd::arithmetic::mul::lemma_mul_inequality(1, radix, radix_value(s.take(i), radix));
        assert(radix_value(s.take(i + 1), radix) == radix_value(s.take(i), radix) * radix
            + digit_val_spec(s[i]));
        assert(digit_val_spec(s[i]) >= 0);
        assert(radix_value(s.take(i), radix) <= radix_value(s.take(i + 1), radix));
        lemma_radix_value_prefix(s, radix, i + 1);
    }
}

/// Parses `s` as an unsigned number in the given radix (decimal or
/// hexadecimal, hex letters in either case): the value of the digits,
/// exactly when `s` is a nonempty digit string whose value fits in 64
/// bits.
pub fn parse_radix_u64(s: &[u8], radix: u64) -> (r: Option<u64>)
    requires
        radix == 10 || radix == 16,
    ensures
        r is Some <==> (s@.len() > 0 && all_digits(s@, radix as int) && radix_value(
            s@,
            radix as int,
        ) <= u64::MAX),
        r matches Some(v) ==> v == radix_value(s@, radix as int),
{
    if s.len() == 0 {
        return None;
    }
    let mut acc: u64 = 0;
    let mut i: usize = 0;
    while i < s.len()
        invariant
            radix == 10 || radix == 16,
            0 < s@.len(),
            i <= s@.len(),
            all_digits(s@.take(i as int), radix as int),
            acc == radix_value(s@.take(i as int), radix as int),
        decreases s@.len() - i,
    {
        let b = s[i];
        let d: u64 = if b >= 0x30 && b <= 0x39 {
            (b - 0x30) as u64
        } else if b >= 0x61 && b <= 0x66 {
            (b - 0x61) as u64 + 10
        } else if b >= 0x41 && b <= 0x46 {
            (b - 0x41) as u64 + 10
        } else {
            16
        };
        if d >= radix {
            return None;
        }
        proof {
            assert(s@.take(i + 1).drop_last() =~= s@.take(i as int));
            assert(s@.take(i + 1).last() == s@[i as int]);
            assert(forall|j: int|
                0 <= j < i + 1 ==> is_digit(#[trigger] s@.take(i + 1)[j], radix as int));
        }
        let scaled = match acc.checked_mul(radix) {
            Some(m) => m,
            None => {
                proof {
                    if all_digits(s@, radix as int) {
                        lemma_radix_value_prefix(s@, radix as int, i + 1);
                    }
                }
                return None;
            },
        };
        let next = match scaled.checked_add(d) {
            Some(v) => v,
            None => {
                proof {
                    if all_digits(s@, radix as int) {
                        lemma_radix_value_prefix(s@, radix as int, i + 1);
                    }
                }
                return None;
            },
        };
        acc = next;
        i = i + 1;
    }
    proof {
        assert(s@.take(s@.len() as int) =~= s@);
    }
    Some(acc)
}

/// Size in bytes of one DMA pool page.
pub const PAGE_SIZE_2MB: usize = 0x20_0000;

/// Byte offset of an allocation of `n` pool pages starting at page
/// `offset`, or `None` when a pool of `size_total` bytes cannot hold it.
pub fn dma_pool_offset(offset: usize, n: usize, size_total: usize) -> (r: Option<usize>)
    ensures
        r is Some <==> (offset + n) * PAGE_SIZE_2MB <= size_total,
        r matches Some(o) ==> o == offset * PAGE_SIZE_2MB,
{
    let end = match offset.checked_add(n) {
        Some(end) => end,
        None => {
            proof {
                vstd::arithmetic::mul::lemma_mul_inequality(
                    usize::MAX as int + 1,
                    offset + n,
                    PAGE_SIZE_2MB as int,
                );
                vstd::arithmetic::mul::lemma_mul_inequality(
                    1,
                    PAGE_SIZE_2MB as int,
                    usize::MAX as int + 1,
                );
            }
            return None;
        },
    };
    match end.checked_mul(PAGE_SIZE_2MB) {
        Some(total) => {
            if total > size_total {
                None
            } else {
                proof {
                    vstd::arithmetic::mul::lemma_mul_inequality(
                        offset as int,
                        end as int,
                        PAGE_SIZE_2MB as int,
                    );
                }
                Some(offset * PAGE_SIZE_2MB)
            }
        },
        None => None,
    }
}

} // verus!
