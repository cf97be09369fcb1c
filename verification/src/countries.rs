//! Regulatory domains.

use vstd::prelude::*;

verus! {

/// A regulatory domain: a two-letter code and the revision of its rules.
#[derive(Debug, Clone, Copy, PartialEq, Eq)]
pub struct Country {
    /// The two letters.
    pub code: [u8; 2],
    /// Revision of the rules; zero where the firmware is to pick.
    pub rev: u16,
}

/// The domain that is legal everywhere: `XX`, revision zero.
pub fn world_wide_xx() -> (c: Country)
    ensures
        c.code@ == seq![0x58u8, 0x58u8],
        c.rev == 0,
{
    let c = Country { code: [0x58, 0x58], rev: 0 };
    assert(c.code@ =~= seq![0x58u8, 0x58u8]);
    c
}

} // verus!
