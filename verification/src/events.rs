//! The events that the firmware reports on the event channel, and the
//! queue through which they reach whoever listens.

use crate::bytes::copy_bytes;
use crate::structs::EventMessage;
use vstd::prelude::*;

verus! {

/// An event of the firmware, by name.
///
/// The firmware identifies each event by a number; [`Event::number`] and
/// [`Event::from_number`] translate. Numbers without a name here are
/// [`Event::Unknown`].
#[allow(non_camel_case_types)]
#[derive(Debug, Clone, Copy, PartialEq, Eq, Structural)]
pub enum Event {
    /// Indicates status of set SSID.
    SET_SSID,
    /// Differentiates join IBSS from found (START) IBSS.
    JOIN,
    /// STA founded an IBSS or AP started a BSS.
    START,
    /// 802.11 AUTH request.
    AUTH,
    /// 802.11 AUTH indication.
    AUTH_IND,
    /// 802.11 DEAUTH request.
    DEAUTH,
    /// 802.11 DEAUTH indication.
    DEAUTH_IND,
    /// 802.11 ASSOC request.
    ASSOC,
    /// 802.11 ASSOC indication.
    ASSOC_IND,
    /// 802.11 REASSOC request.
    REASSOC,
    /// 802.11 REASSOC indication.
    REASSOC_IND,
    /// 802.11 DISASSOC request.
    DISASSOC,
    /// 802.11 DISASSOC indication.
    DISASSOC_IND,
    /// 802.11h quiet period started.
    QUIET_START,
    /// 802.11h quiet period ended.
    QUIET_END,
    /// Beacons received or lost indication.
    BEACON_RX,
    /// Generic link indication.
    LINK,
    /// TKIP MIC error occurred.
    MIC_ERROR,
    /// NDIS style link indication.
    NDIS_LINK,
    /// Roam attempt occurred: indicate status and reason.
    ROAM,
    /// Change in 802.11 packet delivery status.
    TXFAIL,
    /// WPA2 pmkid cache indication.
    PMKID_CACHE,
    /// Current AP's TSF value went backward.
    RETROGRADE_TSF,
    /// AP was pruned from join list for reason.
    PRUNE,
    /// Report AutoAuth table entry match for join attempt.
    AUTOAUTH,
    /// Event encapsulating an EAPOL message.
    EAPOL_MSG,
    /// Scan results are ready or scan was aborted.
    SCAN_COMPLETE,
    /// Indicates ADDTS status.
    ADDTS_IND,
    /// Indicates a DELTS status.
    DELTS_IND,
    /// Indicates a beacon was sent.
    BCNSENT_IND,
    /// Wraps a received beacon.
    BCNRX_MSG,
    /// Indicates the loss of beacons.
    BCNLOST_MSG,
    /// Sent before a roam attempt.
    ROAM_PREP,
    /// A preferred network was found.
    PFN_NET_FOUND,
    /// A preferred network was lost.
    PFN_NET_LOST,
    /// The chip finished a reset.
    RESET_COMPLETE,
    /// A join attempt started.
    JOIN_START,
    /// A roam attempt started.
    ROAM_START,
    /// An association attempt started.
    ASSOC_START,
    /// A station joined the IBSS.
    IBSS_ASSOC,
    /// Radio state changed.
    RADIO,
    /// The PSM microcode watchdog fired.
    PSM_WATCHDOG,
    /// Probe request received.
    PROBREQ_MSG,
    /// Scan confirmation.
    SCAN_CONFIRM_IND,
    /// WPA handshake report.
    PSK_SUP,
    /// The country code changed.
    COUNTRY_CODE_CHANGED,
    /// WMM-AC medium time exceeded.
    EXCEEDED_MEDIUM_TIME,
    /// WEP ICV error occurred.
    ICV_ERROR,
    /// Unsupported unicast encrypted frame.
    UNICAST_DECODE_ERROR,
    /// Unsupported multicast encrypted frame.
    MULTICAST_DECODE_ERROR,
    /// Firmware trace output.
    TRACE,
    /// Interface change.
    IF,
    /// P2P discovery listen state expired.
    P2P_DISC_LISTEN_COMPLETE,
    /// RSSI crossed a threshold.
    RSSI,
    /// Preferred network scan finished.
    PFN_SCAN_COMPLETE,
    /// External log message.
    EXTLOG_MSG,
    /// Action frame received.
    ACTION_FRAME,
    /// Action frame transmit finished.
    ACTION_FRAME_COMPLETE,
    /// Association request received.
    PRE_ASSOC_IND,
    /// Re-association request received.
    PRE_REASSOC_IND,
    /// Channel adopted.
    CHANNEL_ADOPTED,
    /// Access point started.
    AP_STARTED,
    /// Access point stopped for radar.
    DFS_AP_STOP,
    /// Access point resumed after radar.
    DFS_AP_RESUME,
    /// WAI station event.
    WAI_STA_EVENT,
    /// Event encapsulating a WAI message.
    WAI_MSG,
    /// Escan result.
    ESCAN_RESULT,
    /// Off-channel action frame finished.
    ACTION_FRAME_OFF_CHAN_COMPLETE,
    /// Probe response received.
    PROBRESP_MSG,
    /// P2P probe request received.
    P2P_PROBREQ_MSG,
    /// Dynamic channel selection request.
    DCS_REQUEST,
    /// Credits for the firmware's FIFOs.
    FIFO_CREDIT_MAP,
    /// Action frame received, with channel information.
    ACTION_FRAME_RX,
    /// Wake event timer fired.
    WAKE_EVENT,
    /// Radio measurement finished.
    RM_COMPLETE,
    /// Synchronise the TSF with the host.
    HTSFSYNC,
    /// Request for an overlay ioctl or iovar.
    OVERLAY_REQ,
    /// Channel switch announcement finished.
    CSA_COMPLETE_IND,
    /// Excessive wakeups from power save.
    EXCESS_PM_WAKE_EVENT,
    /// Preferred network scan found nothing.
    PFN_SCAN_NONE,
    /// All preferred networks were lost.
    PFN_SCAN_ALLGONE,
    /// Group key installed.
    GTK_PLUMBED,
    /// 802.11 ASSOC indication for NDIS.
    ASSOC_IND_NDIS,
    /// 802.11 REASSOC indication for NDIS.
    REASSOC_IND_NDIS,
    /// Information elements of the association request.
    ASSOC_REQ_IE,
    /// Information elements of the association response.
    ASSOC_RESP_IE,
    /// Association recreated on resume.
    ASSOC_RECREATED,
    /// Action frame received, for NDIS.
    ACTION_FRAME_RX_NDIS,
    /// Authentication request received.
    AUTH_REQ,
    /// TDLS peer discovered, connected or disconnected.
    TDLS_PEER_EVENT,
    /// Fast association recreation failed.
    SPEEDY_RECREATE_FAIL,
    /// Probe request received, with channel information.
    PROBREQ_MSG_RX,
    /// Any number that has no name above.
    Unknown,
}

/// The number that stands for [`Event::Unknown`].
pub const EVENT_UNKNOWN: u8 = 0xff;

/// How many event numbers an [`crate::structs::EventMask`] has a bit for.
pub const EVENT_MASK_BITS: u8 = 192;

impl Event {
    /// The number by which the firmware knows this event.
    pub open spec fn spec_number(self) -> u8 {
        match self {
            Event::SET_SSID => 0,
            Event::JOIN => 1,
            Event::START => 2,
            Event::AUTH => 3,
            Event::AUTH_IND => 4,
            Event::DEAUTH => 5,
            Event::DEAUTH_IND => 6,
            Event::ASSOC => 7,
            Event::ASSOC_IND => 8,
            Event::REASSOC => 9,
            Event::REASSOC_IND => 10,
            Event::DISASSOC => 11,
            Event::DISASSOC_IND => 12,
            Event::QUIET_START => 13,
            Event::QUIET_END => 14,
            Event::BEACON_RX => 15,
            Event::LINK => 16,
            Event::MIC_ERROR => 17,
            Event::NDIS_LINK => 18,
            Event::ROAM => 19,
            Event::TXFAIL => 20,
            Event::PMKID_CACHE => 21,
            Event::RETROGRADE_TSF => 22,
            Event::PRUNE => 23,
            Event::AUTOAUTH => 24,
            Event::EAPOL_MSG => 25,
            Event::SCAN_COMPLETE => 26,
            Event::ADDTS_IND => 27,
            Event::DELTS_IND => 28,
            Event::BCNSENT_IND => 29,
            Event::BCNRX_MSG => 30,
            Event::BCNLOST_MSG => 31,
            Event::ROAM_PREP => 32,
            Event::PFN_NET_FOUND => 33,
            Event::PFN_NET_LOST => 34,
            Event::RESET_COMPLETE => 35,
            Event::JOIN_START => 36,
            Event::ROAM_START => 37,
            Event::ASSOC_START => 38,
            Event::IBSS_ASSOC => 39,
            Event::RADIO => 40,
            Event::PSM_WATCHDOG => 41,
            Event::PROBREQ_MSG => 44,
            Event::SCAN_CONFIRM_IND => 45,
            Event::PSK_SUP => 46,
            Event::COUNTRY_CODE_CHANGED => 47,
            Event::EXCEEDED_MEDIUM_TIME => 48,
            Event::ICV_ERROR => 49,
            Event::UNICAST_DECODE_ERROR => 50,
            Event::MULTICAST_DECODE_ERROR => 51,
            Event::TRACE => 52,
            Event::IF => 54,
            Event::P2P_DISC_LISTEN_COMPLETE => 55,
            Event::RSSI => 56,
            Event::PFN_SCAN_COMPLETE => 57,
            Event::EXTLOG_MSG => 58,
            Event::ACTION_FRAME => 59,
            Event::ACTION_FRAME_COMPLETE => 60,
            Event::PRE_ASSOC_IND => 61,
            Event::PRE_REASSOC_IND => 62,
            Event::CHANNEL_ADOPTED => 63,
            Event::AP_STARTED => 64,
            Event::DFS_AP_STOP => 65,
            Event::DFS_AP_RESUME => 66,
            Event::WAI_STA_EVENT => 67,
            Event::WAI_MSG => 68,
            Event::ESCAN_RESULT => 69,
            Event::ACTION_FRAME_OFF_CHAN_COMPLETE => 70,
            Event::PROBRESP_MSG => 71,
            Event::P2P_PROBREQ_MSG => 72,
            Event::DCS_REQUEST => 73,
            Event::FIFO_CREDIT_MAP => 74,
            Event::ACTION_FRAME_RX => 75,
            Event::WAKE_EVENT => 76,
            Event::RM_COMPLETE => 77,
            Event::HTSFSYNC => 78,
            Event::OVERLAY_REQ => 79,
            Event::CSA_COMPLETE_IND => 80,
            Event::EXCESS_PM_WAKE_EVENT => 81,
            Event::PFN_SCAN_NONE => 82,
            Event::PFN_SCAN_ALLGONE => 83,
            Event::GTK_PLUMBED => 84,
            Event::ASSOC_IND_NDIS => 85,
            Event::REASSOC_IND_NDIS => 86,
            Event::ASSOC_REQ_IE => 87,
            Event::ASSOC_RESP_IE => 88,
            Event::ASSOC_RECREATED => 89,
            Event::ACTION_FRAME_RX_NDIS => 90,
            Event::AUTH_REQ => 91,
            Event::TDLS_PEER_EVENT => 92,
            Event::SPEEDY_RECREATE_FAIL => 93,
            Event::PROBREQ_MSG_RX => 137,
            Event::Unknown => 0xff,
        }
    }

    /// The event that the firmware knows by the number `n`.
    pub open spec fn spec_from_number(n: u8) -> Event {
        if n == 0 {
            Event::SET_SSID
        } else if n == 1 {
            Event::JOIN
        } else if n == 2 {
            Event::START
        } else if n == 3 {
            Event::AUTH
        } else if n == 4 {
            Event::AUTH_IND
        } else if n == 5 {
            Event::DEAUTH
        } else if n == 6 {
            Event::DEAUTH_IND
        } else if n == 7 {
            Event::ASSOC
        } else if n == 8 {
            Event::ASSOC_IND
        } else if n == 9 {
            Event::REASSOC
        } else if n == 10 {
            Event::REASSOC_IND
        } else if n == 11 {
            Event::DISASSOC
        } else if n == 12 {
            Event::DISASSOC_IND
        } else if n == 13 {
            Event::QUIET_START
        } else if n == 14 {
            Event::QUIET_END
        } else if n == 15 {
            Event::BEACON_RX
        } else if n == 16 {
            Event::LINK
        } else if n == 17 {
            Event::MIC_ERROR
        } else if n == 18 {
            Event::NDIS_LINK
        } else if n == 19 {
            Event::ROAM
        } else if n == 20 {
            Event::TXFAIL
        } else if n == 21 {
            Event::PMKID_CACHE
        } else if n == 22 {
            Event::RETROGRADE_TSF
        } else if n == 23 {
            Event::PRUNE
        } else if n == 24 {
            Event::AUTOAUTH
        } else if n == 25 {
            Event::EAPOL_MSG
        } else if n == 26 {
            Event::SCAN_COMPLETE
        } else if n == 27 {
            Event::ADDTS_IND
        } else if n == 28 {
            Event::DELTS_IND
        } else if n == 29 {
            Event::BCNSENT_IND
        } else if n == 30 {
            Event::BCNRX_MSG
        } else if n == 31 {
            Event::BCNLOST_MSG
        } else if n == 32 {
            Event::ROAM_PREP
        } else if n == 33 {
            Event::PFN_NET_FOUND
        } else if n == 34 {
            Event::PFN_NET_LOST
        } else if n == 35 {
            Event::RESET_COMPLETE
        } else if n == 36 {
            Event::JOIN_START
        } else if n == 37 {
            Event::ROAM_START
        } else if n == 38 {
            Event::ASSOC_START
        } else if n == 39 {
            Event::IBSS_ASSOC
        } else if n == 40 {
            Event::RADIO
        } else if n == 41 {
            Event::PSM_WATCHDOG
        } else if n == 44 {
            Event::PROBREQ_MSG
        } else if n == 45 {
            Event::SCAN_CONFIRM_IND
        } else if n == 46 {
            Event::PSK_SUP
        } else if n == 47 {
            Event::COUNTRY_CODE_CHANGED
        } else if n == 48 {
            Event::EXCEEDED_MEDIUM_TIME
        } else if n == 49 {
            Event::ICV_ERROR
        } else if n == 50 {
            Event::UNICAST_DECODE_ERROR
        } else if n == 51 {
            Event::MULTICAST_DECODE_ERROR
        } else if n == 52 {
            Event::TRACE
        } else if n == 54 {
            Event::IF
        } else if n == 55 {
            Event::P2P_DISC_LISTEN_COMPLETE
        } else if n == 56 {
            Event::RSSI
        } else if n == 57 {
            Event::PFN_SCAN_COMPLETE
        } else if n == 58 {
            Event::EXTLOG_MSG
        } else if n == 59 {
            Event::ACTION_FRAME
        } else if n == 60 {
            Event::ACTION_FRAME_COMPLETE
        } else if n == 61 {
            Event::PRE_ASSOC_IND
        } else if n == 62 {
            Event::PRE_REASSOC_IND
        } else if n == 63 {
            Event::CHANNEL_ADOPTED
        } else if n == 64 {
            Event::AP_STARTED
        } else if n == 65 {
            Event::DFS_AP_STOP
        } else if n == 66 {
            Event::DFS_AP_RESUME
        } else if n == 67 {
            Event::WAI_STA_EVENT
        } else if n == 68 {
            Event::WAI_MSG
        } else if n == 69 {
            Event::ESCAN_RESULT
        } else if n == 70 {
            Event::ACTION_FRAME_OFF_CHAN_COMPLETE
        } else if n == 71 {
            Event::PROBRESP_MSG
        } else if n == 72 {
            Event::P2P_PROBREQ_MSG
        } else if n == 73 {
            Event::DCS_REQUEST
        } else if n == 74 {
            Event::FIFO_CREDIT_MAP
        } else if n == 75 {
            Event::ACTION_FRAME_RX
        } else if n == 76 {
            Event::WAKE_EVENT
        } else if n == 77 {
            Event::RM_COMPLETE
        } else if n == 78 {
            Event::HTSFSYNC
        } else if n == 79 {
            Event::OVERLAY_REQ
        } else if n == 80 {
            Event::CSA_COMPLETE_IND
        } else if n == 81 {
            Event::EXCESS_PM_WAKE_EVENT
        } else if n == 82 {
            Event::PFN_SCAN_NONE
        } else if n == 83 {
            Event::PFN_SCAN_ALLGONE
        } else if n == 84 {
            Event::GTK_PLUMBED
        } else if n == 85 {
            Event::ASSOC_IND_NDIS
        } else if n == 86 {
            Event::REASSOC_IND_NDIS
        } else if n == 87 {
            Event::ASSOC_REQ_IE
        } else if n == 88 {
            Event::ASSOC_RESP_IE
        } else if n == 89 {
            Event::ASSOC_RECREATED
        } else if n == 90 {
            Event::ACTION_FRAME_RX_NDIS
        } else if n == 91 {
            Event::AUTH_REQ
        } else if n == 92 {
            Event::TDLS_PEER_EVENT
        } else if n == 93 {
            Event::SPEEDY_RECREATE_FAIL
        } else if n == 137 {
            Event::PROBREQ_MSG_RX
        } else {
            Event::Unknown
        }
    }

    /// The number by which the firmware knows this event.
    #[verifier::when_used_as_spec(spec_number)]
    pub fn number(self) -> (n: u8)
        ensures
            n == self.spec_number(),
    {
        match self {
            Event::SET_SSID => 0,
            Event::JOIN => 1,
            Event::START => 2,
            Event::AUTH => 3,
            Event::AUTH_IND => 4,
            Event::DEAUTH => 5,
            Event::DEAUTH_IND => 6,
            Event::ASSOC => 7,
            Event::ASSOC_IND => 8,
            Event::REASSOC => 9,
            Event::REASSOC_IND => 10,
            Event::DISASSOC => 11,
            Event::DISASSOC_IND => 12,
            Event::QUIET_START => 13,
            Event::QUIET_END => 14,
            Event::BEACON_RX => 15,
            Event::LINK => 16,
            Event::MIC_ERROR => 17,
            Event::NDIS_LINK => 18,
            Event::ROAM => 19,
            Event::TXFAIL => 20,
            Event::PMKID_CACHE => 21,
            Event::RETROGRADE_TSF => 22,
            Event::PRUNE => 23,
            Event::AUTOAUTH => 24,
            Event::EAPOL_MSG => 25,
            Event::SCAN_COMPLETE => 26,
            Event::ADDTS_IND => 27,
            Event::DELTS_IND => 28,
            Event::BCNSENT_IND => 29,
            Event::BCNRX_MSG => 30,
            Event::BCNLOST_MSG => 31,
            Event::ROAM_PREP => 32,
            Event::PFN_NET_FOUND => 33,
            Event::PFN_NET_LOST => 34,
            Event::RESET_COMPLETE => 35,
            Event::JOIN_START => 36,
            Event::ROAM_START => 37,
            Event::ASSOC_START => 38,
            Event::IBSS_ASSOC => 39,
            Event::RADIO => 40,
            Event::PSM_WATCHDOG => 41,
            Event::PROBREQ_MSG => 44,
            Event::SCAN_CONFIRM_IND => 45,
            Event::PSK_SUP => 46,
            Event::COUNTRY_CODE_CHANGED => 47,
            Event::EXCEEDED_MEDIUM_TIME => 48,
            Event::ICV_ERROR => 49,
            Event::UNICAST_DECODE_ERROR => 50,
            Event::MULTICAST_DECODE_ERROR => 51,
            Event::TRACE => 52,
            Event::IF => 54,
            Event::P2P_DISC_LISTEN_COMPLETE => 55,
            Event::RSSI => 56,
            Event::PFN_SCAN_COMPLETE => 57,
            Event::EXTLOG_MSG => 58,
            Event::ACTION_FRAME => 59,
            Event::ACTION_FRAME_COMPLETE => 60,
            Event::PRE_ASSOC_IND => 61,
            Event::PRE_REASSOC_IND => 62,
            Event::CHANNEL_ADOPTED => 63,
            Event::AP_STARTED => 64,
            Event::DFS_AP_STOP => 65,
            Event::DFS_AP_RESUME => 66,
            Event::WAI_STA_EVENT => 67,
            Event::WAI_MSG => 68,
            Event::ESCAN_RESULT => 69,
            Event::ACTION_FRAME_OFF_CHAN_COMPLETE => 70,
            Event::PROBRESP_MSG => 71,
            Event::P2P_PROBREQ_MSG => 72,
            Event::DCS_REQUEST => 73,
            Event::FIFO_CREDIT_MAP => 74,
            Event::ACTION_FRAME_RX => 75,
            Event::WAKE_EVENT => 76,
            Event::RM_COMPLETE => 77,
            Event::HTSFSYNC => 78,
            Event::OVERLAY_REQ => 79,
            Event::CSA_COMPLETE_IND => 80,
            Event::EXCESS_PM_WAKE_EVENT => 81,
            Event::PFN_SCAN_NONE => 82,
            Event::PFN_SCAN_ALLGONE => 83,
            Event::GTK_PLUMBED => 84,
            Event::ASSOC_IND_NDIS => 85,
            Event::REASSOC_IND_NDIS => 86,
            Event::ASSOC_REQ_IE => 87,
            Event::ASSOC_RESP_IE => 88,
            Event::ASSOC_RECREATED => 89,
            Event::ACTION_FRAME_RX_NDIS => 90,
            Event::AUTH_REQ => 91,
            Event::TDLS_PEER_EVENT => 92,
            Event::SPEEDY_RECREATE_FAIL => 93,
            Event::PROBREQ_MSG_RX => 137,
            Event::Unknown => 0xff,
        }
    }

    /// The event that the firmware knows by the number `n`.
    #[verifier::when_used_as_spec(spec_from_number)]
    pub fn from_number(n: u8) -> (e: Event)
        ensures
            e == Event::spec_from_number(n),
    {
        match n {
            0 => Event::SET_SSID,
            1 => Event::JOIN,
            2 => Event::START,
            3 => Event::AUTH,
            4 => Event::AUTH_IND,
            5 => Event::DEAUTH,
            6 => Event::DEAUTH_IND,
            7 => Event::ASSOC,
            8 => Event::ASSOC_IND,
            9 => Event::REASSOC,
            10 => Event::REASSOC_IND,
            11 => Event::DISASSOC,
            12 => Event::DISASSOC_IND,
            13 => Event::QUIET_START,
            14 => Event::QUIET_END,
            15 => Event::BEACON_RX,
            16 => Event::LINK,
            17 => Event::MIC_ERROR,
            18 => Event::NDIS_LINK,
            19 => Event::ROAM,
            20 => Event::TXFAIL,
            21 => Event::PMKID_CACHE,
            22 => Event::RETROGRADE_TSF,
            23 => Event::PRUNE,
            24 => Event::AUTOAUTH,
            25 => Event::EAPOL_MSG,
            26 => Event::SCAN_COMPLETE,
            27 => Event::ADDTS_IND,
            28 => Event::DELTS_IND,
            29 => Event::BCNSENT_IND,
            30 => Event::BCNRX_MSG,
            31 => Event::BCNLOST_MSG,
            32 => Event::ROAM_PREP,
            33 => Event::PFN_NET_FOUND,
            34 => Event::PFN_NET_LOST,
            35 => Event::RESET_COMPLETE,
            36 => Event::JOIN_START,
            37 => Event::ROAM_START,
            38 => Event::ASSOC_START,
            39 => Event::IBSS_ASSOC,
            40 => Event::RADIO,
            41 => Event::PSM_WATCHDOG,
            44 => Event::PROBREQ_MSG,
            45 => Event::SCAN_CONFIRM_IND,
            46 => Event::PSK_SUP,
            47 => Event::COUNTRY_CODE_CHANGED,
            48 => Event::EXCEEDED_MEDIUM_TIME,
            49 => Event::ICV_ERROR,
            50 => Event::UNICAST_DECODE_ERROR,
            51 => Event::MULTICAST_DECODE_ERROR,
            52 => Event::TRACE,
            54 => Event::IF,
            55 => Event::P2P_DISC_LISTEN_COMPLETE,
            56 => Event::RSSI,
            57 => Event::PFN_SCAN_COMPLETE,
            58 => Event::EXTLOG_MSG,
            59 => Event::ACTION_FRAME,
            60 => Event::ACTION_FRAME_COMPLETE,
            61 => Event::PRE_ASSOC_IND,
            62 => Event::PRE_REASSOC_IND,
            63 => Event::CHANNEL_ADOPTED,
            64 => Event::AP_STARTED,
            65 => Event::DFS_AP_STOP,
            66 => Event::DFS_AP_RESUME,
            67 => Event::WAI_STA_EVENT,
            68 => Event::WAI_MSG,
            69 => Event::ESCAN_RESULT,
            70 => Event::ACTION_FRAME_OFF_CHAN_COMPLETE,
            71 => Event::PROBRESP_MSG,
            72 => Event::P2P_PROBREQ_MSG,
            73 => Event::DCS_REQUEST,
            74 => Event::FIFO_CREDIT_MAP,
            75 => Event::ACTION_FRAME_RX,
            76 => Event::WAKE_EVENT,
            77 => Event::RM_COMPLETE,
            78 => Event::HTSFSYNC,
            79 => Event::OVERLAY_REQ,
            80 => Event::CSA_COMPLETE_IND,
            81 => Event::EXCESS_PM_WAKE_EVENT,
            82 => Event::PFN_SCAN_NONE,
            83 => Event::PFN_SCAN_ALLGONE,
            84 => Event::GTK_PLUMBED,
            85 => Event::ASSOC_IND_NDIS,
            86 => Event::REASSOC_IND_NDIS,
            87 => Event::ASSOC_REQ_IE,
            88 => Event::ASSOC_RESP_IE,
            89 => Event::ASSOC_RECREATED,
            90 => Event::ACTION_FRAME_RX_NDIS,
            91 => Event::AUTH_REQ,
            92 => Event::TDLS_PEER_EVENT,
            93 => Event::SPEEDY_RECREATE_FAIL,
            137 => Event::PROBREQ_MSG_RX,
            _ => Event::Unknown,
        }
    }

    /// Whether a 32-bit event type, as an event message carries it, names
    /// this event.
    pub open spec fn spec_matches(self, event_type: u32) -> bool {
        event_type == self.spec_number()
    }

    /// Whether a 32-bit event type, as an event message carries it, names
    /// this event.
    #[verifier::when_used_as_spec(spec_matches)]
    pub fn matches(self, event_type: u32) -> (b: bool)
        ensures
            b == self.spec_matches(event_type),
    {
        let n: u8 = self.number();
        event_type == n as u32
    }
}

/// A named event keeps its name on the way through its number.
pub proof fn lemma_event_number_round_trip(e: Event)
    ensures
        Event::spec_from_number(e.spec_number()) == e,
{
}

/// Every named event has a bit in the event mask.
pub proof fn lemma_named_event_has_mask_bit(e: Event)
    requires
        e != Event::Unknown,
    ensures
        e.spec_number() < EVENT_MASK_BITS,
{
}

/// An event as it is queued: the message, and the data that came with it.
#[derive(Debug, Clone, PartialEq, Eq)]
pub struct EventRecord {
    /// The message, in host byte order.
    pub msg: EventMessage,
    /// The data that followed the message.
    pub data: Vec<u8>,
}

/// What an [`EventRecord`] is, with its data as a sequence.
pub struct EventRecordView {
    pub msg: EventMessage,
    pub data: Seq<u8>,
}

impl View for EventRecord {
    type V = EventRecordView;

    open spec fn view(&self) -> EventRecordView {
        EventRecordView { msg: self.msg, data: self.data@ }
    }
}

/// The views of queued events, in order.
pub open spec fn record_views(records: Seq<EventRecord>) -> Seq<EventRecordView> {
    Seq::new(records.len(), |i: int| records[i]@)
}

/// What an [`EventQueue`] is: all events that were ever published, of which
/// those before `first` are gone, and how many it keeps at most.
pub struct EventQueueView {
    pub history: Seq<EventRecordView>,
    pub first: int,
    pub capacity: int,
}

impl EventQueueView {
    /// The queue after `record` was published: the record is the newest, and
    /// where the queue was full the oldest is gone.
    pub open spec fn published(self, record: EventRecordView) -> EventQueueView {
        EventQueueView {
            history: self.history.push(record),
            first: if self.history.len() - self.first >= self.capacity {
                self.first + 1
            } else {
                self.first
            },
            capacity: self.capacity,
        }
    }

    /// The place in the history of the event that a subscriber at `next`
    /// gets next: the one it is at, or the oldest that is left where that
    /// one is gone.
    pub open spec fn place(self, next: int) -> int {
        if next < self.first {
            self.first
        } else {
            next
        }
    }
}

/// A queue that hands every event to every subscriber, and keeps no more
/// than a fixed number of events for those that lag.
pub struct EventQueue {
    records: Vec<EventRecord>,
    first: u64,
    capacity: usize,
    history: Ghost<Seq<EventRecordView>>,
}

/// A place in the queue from which one listener reads.
#[derive(Debug, Clone, Copy, PartialEq, Eq)]
pub struct Subscriber {
    /// How many events were published before the one that is read next.
    pub next: u64,
    /// How many events this subscriber lost because it lagged.
    pub lagged: u64,
}

impl View for EventQueue {
    type V = EventQueueView;

    closed spec fn view(&self) -> EventQueueView {
        EventQueueView {
            history: self.history@,
            first: self.first as int,
            capacity: self.capacity as int,
        }
    }
}

impl EventQueue {
    /// Whether the queue is in order: it keeps the newest events of its
    /// history, no more than its capacity.
    pub closed spec fn wf(&self) -> bool {
        &&& self.capacity >= 1
        &&& self.records@.len() <= self.capacity
        &&& self.first == 0 || self.records@.len() >= 1
        &&& self.first + self.records@.len() == self.history@.len()
        &&& self.history@.len() <= u64::MAX
        &&& record_views(self.records@) == self.history@.subrange(
            self.first as int,
            self.history@.len() as int,
        )
    }

    /// What a queue in order has to offer.
    pub proof fn lemma_wf(&self)
        requires
            self.wf(),
        ensures
            self@.capacity >= 1,
            0 <= self@.first <= self@.history.len() <= u64::MAX,
            self@.history.len() - self@.first <= self@.capacity,
            self@.first == 0 || self@.first < self@.history.len(),
    {
    }

    /// An empty queue that keeps at most `capacity` events, and at least
    /// one.
    pub fn new(capacity: usize) -> (q: EventQueue)
        ensures
            q.wf(),
            q@ == (EventQueueView {
                history: Seq::<EventRecordView>::empty(),
                first: 0,
                capacity: if capacity >= 1 {
                    capacity as int
                } else {
                    1
                },
            }),
    {
        let q = EventQueue {
            records: Vec::new(),
            first: 0,
            capacity: if capacity >= 1 {
                capacity
            } else {
                1
            },
            history: Ghost(Seq::empty()),
        };
        assert(record_views(q.records@) =~= q.history@.subrange(0, 0));
        q
    }

    /// How many events were published so far.
    pub fn published_count(&self) -> (n: u64)
        requires
            self.wf(),
        ensures
            n == self@.history.len(),
    {
        self.first + self.records.len() as u64
    }

    /// Publishes an event to all subscribers.
    ///
    /// Where the queue is full, the oldest event is dropped: a subscriber
    /// that has not read it yet has lost it.
    pub fn publish(&mut self, msg: EventMessage, data: &[u8])
        requires
            old(self).wf(),
            old(self)@.history.len() < u64::MAX,
        ensures
            final(self).wf(),
            final(self)@ == old(self)@.published(EventRecordView { msg, data: data@ }),
    {
        let record = EventRecord { msg, data: copy_bytes(data) };
        let ghost before = self.records@;
        if self.records.len() >= self.capacity {
            let _ = self.records.remove(0);
            self.first = self.first + 1;
        }
        let ghost kept = self.records@;
        self.records.push(record);
        proof {
            self.history@ = self.history@.push(record@);
            assert(record_views(self.records@) =~= self.history@.subrange(
                self.first as int,
                self.history@.len() as int,
            )) by {
                assert forall|i: int| 0 <= i < kept.len() implies (#[trigger] kept[i])@ == old(
                    self,
                ).history@[self.first + i] by {
                    if before.len() >= self.capacity {
                        assert(kept[i] == before[i + 1]);
                        assert(record_views(before)[i + 1] == before[i + 1]@);
                    } else {
                        assert(kept[i] == before[i]);
                        assert(record_views(before)[i] == before[i]@);
                    }
                }
            }
        }
    }

    /// A subscriber that gets every event published from now on.
    pub fn subscriber(&self) -> (s: Subscriber)
        requires
            self.wf(),
        ensures
            s.next == self@.history.len(),
            s.lagged == 0,
    {
        Subscriber { next: self.published_count(), lagged: 0 }
    }

    /// The next event for `subscriber`, if one is there.
    ///
    /// Events come in the order in which they were published. Where the
    /// subscriber lagged so far that events it has not read are gone, it
    /// goes on with the oldest that is left, and counts the lost ones.
    pub fn next_message(&self, subscriber: &mut Subscriber) -> (r: Option<EventRecord>)
        requires
            self.wf(),
        ensures
            old(subscriber).next >= self@.history.len() ==> r.is_none() && *final(subscriber)
                == *old(subscriber),
            old(subscriber).next < self@.history.len() ==> {
                let place = self@.place(old(subscriber).next as int);
                &&& r.is_some()
                &&& r.unwrap()@ == self@.history[place]
                &&& final(subscriber).next == place + 1
                &&& final(subscriber).lagged == if old(subscriber).lagged + (place - old(
                    subscriber,
                ).next) > u64::MAX {
                    u64::MAX as int
                } else {
                    old(subscriber).lagged + (place - old(subscriber).next)
                }
            },
    {
        let end: u64 = self.published_count();
        if subscriber.next >= end {
            return None;
        }
        if subscriber.next < self.first {
            let lost: u64 = self.first - subscriber.next;
            subscriber.lagged = if subscriber.lagged > u64::MAX - lost {
                u64::MAX
            } else {
                subscriber.lagged + lost
            };
            subscriber.next = self.first;
        }
        let index: usize = (subscriber.next - self.first) as usize;
        let record = &self.records[index];
        assert(record_views(self.records@)[index as int] == record@);
        subscriber.next = subscriber.next + 1;
        Some(EventRecord { msg: record.msg, data: copy_bytes(record.data.as_slice()) })
    }
}

/// A subscriber gets events in the order in which they were published: of
/// two events that it gets one after the other, the later was published
/// later.
pub proof fn lemma_events_in_order(q: EventQueueView, later: EventQueueView, next: int)
    requires
        q.first <= later.first,
    ensures
        q.place(next) < later.place(q.place(next) + 1),
{
}

/// A subscriber that keeps up loses nothing: while no more events are
/// published than the queue keeps, the event it gets is the one it is at.
pub proof fn lemma_no_loss_within_capacity(q: EventQueueView, next: int)
    requires
        q.first <= next,
    ensures
        q.place(next) == next,
{
}

} // verus!
