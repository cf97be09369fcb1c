//! Numbers that the firmware's protocol fixes.

use vstd::prelude::*;

verus! {

/// Ioctl that brings the interface up.
pub const IOCTL_CMD_UP: u32 = 2;

/// Ioctl that selects infrastructure mode.
pub const IOCTL_CMD_SET_INFRA: u32 = 20;

/// Ioctl that selects the 802.11 authentication mode.
pub const IOCTL_CMD_SET_AUTH: u32 = 22;

/// Ioctl that names the network to join, which starts the join.
pub const IOCTL_CMD_SET_SSID: u32 = 26;

/// Ioctl that selects the antenna.
pub const IOCTL_CMD_ANTDIV: u32 = 64;

/// Ioctl that selects the power-save mode.
pub const IOCTL_CMD_SET_PM: u32 = 86;

/// Ioctl that selects the 802.11g mode.
pub const IOCTL_CMD_SET_GMODE: u32 = 110;

/// Ioctl that selects the wireless security.
pub const IOCTL_CMD_SET_WSEC: u32 = 134;

/// Ioctl that selects the band.
pub const IOCTL_CMD_SET_BAND: u32 = 142;

/// Ioctl that selects the WPA authentication mode.
pub const IOCTL_CMD_SET_WPA_AUTH: u32 = 165;

/// Ioctl that reads a named variable.
pub const IOCTL_CMD_GET_VAR: u32 = 262;

/// Ioctl that writes a named variable.
pub const IOCTL_CMD_SET_VAR: u32 = 263;

/// Ioctl that hands over the passphrase.
pub const IOCTL_CMD_SET_PASSPHRASE: u32 = 268;

/// SDPCM channel of ioctl requests and responses.
pub const CHANNEL_TYPE_CONTROL: u8 = 0;

/// SDPCM channel of events.
pub const CHANNEL_TYPE_EVENT: u8 = 1;

/// SDPCM channel of Ethernet frames.
pub const CHANNEL_TYPE_DATA: u8 = 2;

/// How far the interface index is shifted within the flags of a CDC header.
pub const CDCF_IOC_IF_SHIFT: u32 = 12;

/// Wireless security: none.
pub const WSEC_NONE: u32 = 0;

/// Wireless security: AES, as WPA2 uses it.
pub const WSEC_AES: u32 = 4;

/// WPA authentication mode: WPA2 with a pre-shared key.
pub const WPA2_AUTH_PSK: u32 = 0x80;

/// Status of an `ESCAN_RESULT` event that ends the scan.
pub const ESCAN_STATUS_COMPLETE: u32 = 0;

/// How long the chip is given to settle after a group of settings.
pub const SETTLE_MILLIS: u64 = 100;

} // verus!
