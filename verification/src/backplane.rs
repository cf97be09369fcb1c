//! The window through which the chip's backplane is reached.
//!
//! The backplane has 32-bit addresses; the bus reaches 32 KiB of it at a
//! time. Three registers select which 32 KiB: they hold the three upper
//! bytes of the window's base address.

use vstd::prelude::*;

verus! {

/// Size of the window.
pub const BACKPLANE_WINDOW_SIZE: u32 = 0x8000;

/// The bits of an address that count within the window.
pub const BACKPLANE_ADDRESS_MASK: u32 = 0x7fff;

/// The bit that asks for 32-bit cycles.
pub const BACKPLANE_ADDRESS_32BIT_FLAG: u32 = 0x8000;

/// Most bytes that one write to the backplane carries.
pub const BACKPLANE_MAX_TRANSFER_SIZE: usize = 64;

/// Register that holds bits 8 to 15 of the window's base.
pub const REG_BACKPLANE_ADDRESS_LOW: u32 = 0x1000a;

/// Register that holds bits 16 to 23 of the window's base.
pub const REG_BACKPLANE_ADDRESS_MID: u32 = 0x1000b;

/// Register that holds bits 24 to 31 of the window's base.
pub const REG_BACKPLANE_ADDRESS_HIGH: u32 = 0x1000c;

/// The base of the window that holds `addr`.
pub open spec fn window_of(addr: u32) -> u32 {
    (addr - addr % 0x8000) as u32
}

/// The three bytes that select the window with base `window`, as they go
/// into the low, the middle and the high register.
pub open spec fn window_bytes(window: u32) -> Seq<u8> {
    seq![(window / 0x100 % 0x100) as u8, (window / 0x1_0000 % 0x100) as u8, (window / 0x100_0000) as u8]
}

/// The address within the window at which `addr` is found, with the bit
/// that asks for 32-bit cycles where at least four bytes are accessed.
pub open spec fn spec_window_offset(addr: u32, width: u32) -> u32 {
    (addr % 0x8000 + if width >= 4 {
        0x8000int
    } else {
        0
    }) as u32
}

/// How many bytes the next write of an upload carries: as many as are left,
/// but no more than one write takes, and no more than the window still has
/// room for.
pub open spec fn spec_chunk_len(addr: u32, remaining: usize) -> usize {
    let room = 0x8000 - addr % 0x8000;
    let most = if room < 64 {
        room
    } else {
        64
    };
    if remaining < most {
        remaining
    } else {
        most as usize
    }
}

/// The window that the bus reaches at the moment.
#[derive(Debug, Clone, Copy, PartialEq, Eq)]
pub struct Backplane {
    /// Base of the window that was selected last.
    pub window: u32,
}

impl Backplane {
    /// The state before any window was selected.
    pub fn new() -> (b: Backplane)
        ensures
            b.window == 0xaaaa_aaaa,
    {
        Backplane { window: 0xaaaa_aaaa }
    }

    /// Selects the window that holds `addr`.
    ///
    /// Where that is another window than the one selected last, the three
    /// bytes to write into the window registers are returned, low register
    /// first.
    pub fn set_window(&mut self, addr: u32) -> (bytes: Option<[u8; 3]>)
        ensures
            final(self).window == window_of(addr),
            old(self).window == window_of(addr) ==> bytes.is_none(),
            old(self).window != window_of(addr) ==> bytes.is_some() && bytes.unwrap()@
                == window_bytes(window_of(addr)),
    {
        let window: u32 = addr - addr % 0x8000;
        if window == self.window {
            None
        } else {
            self.window = window;
            let bytes: [u8; 3] = [
                (window / 0x100 % 0x100) as u8,
                (window / 0x1_0000 % 0x100) as u8,
                (window / 0x100_0000) as u8,
            ];
            assert(bytes@ =~= window_bytes(window));
            Some(bytes)
        }
    }
}

/// The address within the window at which `addr` is found.
#[verifier::when_used_as_spec(spec_window_offset)]
pub fn window_offset(addr: u32, width: u32) -> (offset: u32)
    ensures
        offset == spec_window_offset(addr, width),
{
    let low: u32 = addr % 0x8000;
    if width >= 4 {
        low + 0x8000
    } else {
        low
    }
}

/// How many bytes the next write of an upload carries.
#[verifier::when_used_as_spec(spec_chunk_len)]
pub fn chunk_len(addr: u32, remaining: usize) -> (len: usize)
    ensures
        len == spec_chunk_len(addr, remaining),
        len <= remaining,
        len <= 64,
        remaining > 0 ==> len > 0,
        window_of(addr) == window_of((addr + len - 1) as u32) || len == 0,
{
    let room: u32 = 0x8000 - addr % 0x8000;
    let most: usize = if room < 64 {
        room as usize
    } else {
        64
    };
    if remaining < most {
        remaining
    } else {
        most
    }
}

/// A window base is a multiple of the window's size, holds the address it
/// was made for, and has the same window as every address in it.
pub proof fn lemma_window_of(addr: u32)
    ensures
        window_of(addr) % 0x8000 == 0,
        window_of(addr) <= addr < window_of(addr) + 0x8000,
        window_of(window_of(addr)) == window_of(addr),
{
}

/// The three bytes that select a window, under an address of 32 KiB
/// granularity, give the window back.
pub proof fn lemma_window_bytes(addr: u32)
    ensures
        window_bytes(window_of(addr))[0] * 0x100 + window_bytes(window_of(addr))[1] * 0x1_0000
            + window_bytes(window_of(addr))[2] * 0x100_0000 == window_of(addr),
{
    let w = window_of(addr);
    assert(w % 0x100 == 0);
}

} // verus!
