//! Power-save modes.

use vstd::prelude::*;

verus! {

/// How eagerly the chip saves power.
#[derive(Debug, Clone, Copy, PartialEq, Eq, Structural)]
pub enum PowerManagementMode {
    /// No power management is configured. This consumes the most power.
    Disabled,
    /// Aggressive power saving mode.
    Aggressive,
    /// Performance is preferred over power consumption, but some power is
    /// still saved.
    Balanced,
    /// The default mode.
    PowerSave,
}

impl PowerManagementMode {
    /// How long the radio stays awake after traffic, in milliseconds.
    pub open spec fn spec_sleep_ret_ms(&self) -> u16 {
        match *self {
            PowerManagementMode::Disabled => 0,
            PowerManagementMode::Aggressive => 2000,
            PowerManagementMode::Balanced => 20,
            PowerManagementMode::PowerSave => 200,
        }
    }

    /// How many beacons the radio may skip.
    pub open spec fn spec_beacon_period(&self) -> u8 {
        match *self {
            PowerManagementMode::Disabled => 0,
            _ => 1,
        }
    }

    /// How many DTIM beacons the radio may skip.
    pub open spec fn spec_dtim_period(&self) -> u8 {
        match *self {
            PowerManagementMode::Disabled => 0,
            _ => 1,
        }
    }

    /// The listen interval that the association asks for.
    pub open spec fn spec_assoc(&self) -> u8 {
        match *self {
            PowerManagementMode::Disabled => 0,
            PowerManagementMode::Aggressive => 10,
            PowerManagementMode::Balanced => 1,
            PowerManagementMode::PowerSave => 10,
        }
    }

    /// The number of the firmware's power-save mode.
    pub open spec fn spec_mode(&self) -> u32 {
        match *self {
            PowerManagementMode::Disabled => 0,
            _ => 2,
        }
    }

    /// How long the radio stays awake after traffic, in milliseconds.
    #[verifier::when_used_as_spec(spec_sleep_ret_ms)]
    pub fn sleep_ret_ms(&self) -> (r: u16)
        ensures
            r == self.spec_sleep_ret_ms(),
    {
        match *self {
            PowerManagementMode::Disabled => 0,
            PowerManagementMode::Aggressive => 2000,
            PowerManagementMode::Balanced => 20,
            PowerManagementMode::PowerSave => 200,
        }
    }

    /// How many beacons the radio may skip.
    #[verifier::when_used_as_spec(spec_beacon_period)]
    pub fn beacon_period(&self) -> (r: u8)
        ensures
            r == self.spec_beacon_period(),
    {
        match *self {
            PowerManagementMode::Disabled => 0,
            _ => 1,
        }
    }

    /// How many DTIM beacons the radio may skip.
    #[verifier::when_used_as_spec(spec_dtim_period)]
    pub fn dtim_period(&self) -> (r: u8)
        ensures
            r == self.spec_dtim_period(),
    {
        match *self {
            PowerManagementMode::Disabled => 0,
            _ => 1,
        }
    }

    /// The listen interval that the association asks for.
    #[verifier::when_used_as_spec(spec_assoc)]
    pub fn assoc(&self) -> (r: u8)
        ensures
            r == self.spec_assoc(),
    {
        match *self {
            PowerManagementMode::Disabled => 0,
            PowerManagementMode::Aggressive => 10,
            PowerManagementMode::Balanced => 1,
            PowerManagementMode::PowerSave => 10,
        }
    }

    /// The number of the firmware's power-save mode.
    #[verifier::when_used_as_spec(spec_mode)]
    pub fn mode(&self) -> (r: u32)
        ensures
            r == self.spec_mode(),
    {
        match *self {
            PowerManagementMode::Disabled => 0,
            _ => 2,
        }
    }
}

} // verus!
