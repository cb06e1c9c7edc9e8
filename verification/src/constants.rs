//! Fixed widths and windows of the transport's sequence counters, and the
//! sizes of the fixed tables the driver keeps per connection.

use vstd::prelude::*;

verus! {

/// Maximum number of bits used to represent a PSN.
pub const MAX_PSN_SIZE_BITS: usize = 24;
/// Maximum size of the PSN window. This represents the maximum number of outstanding PSNs.
pub const MAX_PSN_WINDOW: usize = 0x80_0000;
/// Bit mask used to extract the PSN value from a 32-bit number.
pub const PSN_MASK: u32 = 0xFF_FFFF;

/// Maximum number of bits used to represent a MSN.
pub const MAX_MSN_SIZE_BITS: usize = 16;
/// Maximum size of the MSN window. This represents the maximum number of outstanding MSNs.
pub const MAX_MSN_WINDOW: usize = 0x8000;
/// Bit mask used to extract the MSN value from a 32-bit number.
pub const MSN_MASK: u32 = 0xFFFF;

/// Number of connection slots the transport timer table is created with.
pub const MAX_QP_CNT: usize = 1024;

} // verus!
