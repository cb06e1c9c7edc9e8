//! PSN/MSN windowing model: fixed-width wrapping sequence counters and
//! wraparound-aware comparison between them.
//!
//! A sequence number `a` counts as "before" `b` when the distance from `a`
//! to `b`, taken modulo the counter width, is smaller than the outstanding
//! window (half the counter space).

use vstd::prelude::*;

use crate::constants::MAX_MSN_WINDOW;
use crate::constants::MAX_PSN_WINDOW;
use crate::constants::MSN_MASK;
use crate::constants::PSN_MASK;

verus! {

/// Number of distinct PSN values.
pub const PSN_SPACE: u32 = 0x100_0000;

/// Number of distinct MSN values.
pub const MSN_SPACE: u32 = 0x1_0000;

/// Advances a 24-bit PSN by `n` packets, wrapping modulo the PSN space.
pub fn psn_wrapping_add(psn: u32, n: u32) -> (r: u32)
    ensures
        r == (psn + n) % (PSN_SPACE as int),
{
    let w = psn.wrapping_add(n);
    proof {
        assert(w & 0xFF_FFFFu32 == w % 0x100_0000u32) by (bit_vector);
        if psn + n > u32::MAX {
            assert(w == psn + n - 0x1_0000_0000);
            vstd::arithmetic::div_mod::lemma_mod_multiples_vanish(256, w as int, 0x100_0000);
        }
    }
    w & PSN_MASK
}

/// Whether PSN `a` lies before PSN `b`, accounting for wraparound: the
/// forward distance from `a` to `b` is below the outstanding-window size.
pub fn psn_before(a: u32, b: u32) -> (r: bool)
    ensures
        r == ((b - a) % (PSN_SPACE as int) < MAX_PSN_WINDOW),
{
    let d = b.wrapping_sub(a);
    proof {
        assert(d & 0xFF_FFFFu32 == d % 0x100_0000u32) by (bit_vector);
        if b - a < 0 {
            assert(d == b - a + 0x1_0000_0000);
            vstd::arithmetic::div_mod::lemma_mod_multiples_vanish(256, b - a, 0x100_0000);
        }
    }
    (d & PSN_MASK) < (MAX_PSN_WINDOW as u32)
}

/// Advances a 16-bit MSN by `n` messages, wrapping modulo the MSN space.
pub fn msn_wrapping_add(msn: u32, n: u32) -> (r: u32)
    ensures
        r == (msn + n) % (MSN_SPACE as int),
{
    let w = msn.wrapping_add(n);
    proof {
        assert(w & 0xFFFFu32 == w % 0x1_0000u32) by (bit_vector);
        if msn + n > u32::MAX {
            assert(w == msn + n - 0x1_0000_0000);
            vstd::arithmetic::div_mod::lemma_mod_multiples_vanish(0x1_0000, w as int, 0x1_0000);
        }
    }
    w & MSN_MASK
}

/// Whether MSN `a` lies before MSN `b`, accounting for wraparound.
pub fn msn_before(a: u32, b: u32) -> (r: bool)
    ensures
        r == ((b - a) % (MSN_SPACE as int) < MAX_MSN_WINDOW),
{
    let d = b.wrapping_sub(a);
    proof {
        assert(d & 0xFFFFu32 == d % 0x1_0000u32) by (bit_vector);
        if b - a < 0 {
            assert(d == b - a + 0x1_0000_0000);
            vstd::arithmetic::div_mod::lemma_mod_multiples_vanish(0x1_0000, b - a, 0x1_0000);
        }
    }
    (d & MSN_MASK) < (MAX_MSN_WINDOW as u32)
}

} // verus!
