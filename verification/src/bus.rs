//! The command word that starts every transfer on the gSPI bus.

use vstd::prelude::*;

verus! {

/// Function of the bus control registers.
pub const FUNC_BUS: u32 = 0;

/// Function of the backplane window.
pub const FUNC_BACKPLANE: u32 = 1;

/// Function of the WLAN data frames.
pub const FUNC_WLAN: u32 = 2;

/// The command word of a transfer.
///
/// From the highest bit down: whether the transfer writes, whether the
/// address moves on with each word, the function in two bits, the low 17
/// bits of the address, the low 11 bits of the length.
pub open spec fn spec_cmd_word(write: bool, incr: bool, func: u32, addr: u32, len: u32) -> u32 {
    ((if write {
        0x8000_0000int
    } else {
        0
    }) + (if incr {
        0x4000_0000int
    } else {
        0
    }) + (func % 4) * 0x1000_0000 + (addr % 0x2_0000) * 0x800 + len % 0x800) as u32
}

/// How many 32-bit words carry `len` bytes.
pub open spec fn spec_words(len: u32) -> u32 {
    ((len + 3) / 4) as u32
}

/// What the command word says, field by field.
pub proof fn lemma_cmd_word_fields(write: bool, incr: bool, func: u32, addr: u32, len: u32)
    ensures
        spec_cmd_word(write, incr, func, addr, len) / 0x8000_0000 == if write {
            1int
        } else {
            0
        },
        spec_cmd_word(write, incr, func, addr, len) / 0x4000_0000 % 2 == if incr {
            1int
        } else {
            0
        },
        spec_cmd_word(write, incr, func, addr, len) / 0x1000_0000 % 4 == func % 4,
        spec_cmd_word(write, incr, func, addr, len) / 0x800 % 0x2_0000 == addr % 0x2_0000,
        spec_cmd_word(write, incr, func, addr, len) % 0x800 == len % 0x800,
{
}

/// The bit arithmetic of the command word.
proof fn lemma_cmd_word_bits(w: u32, i: u32, func: u32, addr: u32, len: u32)
    by (bit_vector)
    requires
        w <= 1,
        i <= 1,
    ensures
        (w << 31) | (i << 30) | ((func & 3) << 28) | ((addr & 0x1ffff) << 11) | (len & 0x7ff) == w
            * 0x8000_0000 + i * 0x4000_0000 + (func % 4) * 0x1000_0000 + (addr % 0x2_0000) * 0x800
            + len % 0x800,
{
}

/// The command word of a transfer.
#[verifier::when_used_as_spec(spec_cmd_word)]
pub fn cmd_word(write: bool, incr: bool, func: u32, addr: u32, len: u32) -> (cmd: u32)
    ensures
        cmd == spec_cmd_word(write, incr, func, addr, len),
{
    let w: u32 = if write {
        1
    } else {
        0
    };
    let i: u32 = if incr {
        1
    } else {
        0
    };
    proof {
        lemma_cmd_word_bits(w, i, func, addr, len);
    }
    (w << 31) | (i << 30) | ((func & 3) << 28) | ((addr & 0x1ffff) << 11) | (len & 0x7ff)
}

/// How many 32-bit words carry `len` bytes.
#[verifier::when_used_as_spec(spec_words)]
pub fn words(len: u32) -> (n: u32)
    ensures
        n == spec_words(len),
{
    len / 4 + if len % 4 != 0 {
        1
    } else {
        0
    }
}

} // verus!
