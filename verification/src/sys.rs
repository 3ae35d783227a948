//! OS-defined SCTP constants and control structures, modeled as plain
//! values. The numeric values are the OS ABI's and are not renegotiable.
#![allow(non_camel_case_types)]
#![allow(non_upper_case_globals)]
use vstd::prelude::*;

verus! {

/// The socket-option level of the SCTP protocol.
pub const SOL_SCTP: i32 = 132;

/// The protocol number of SCTP.
pub const IPPROTO_SCTP: i32 = 132;

pub const SCTP_RTOINFO: i32 = 0;

pub const SCTP_ASSOCINFO: i32 = 1;

pub const SCTP_INITMSG: i32 = 2;

pub const SCTP_NODELAY: i32 = 3;

pub const SCTP_AUTOCLOSE: i32 = 4;

pub const SCTP_SET_PEER_PRIMARY_ADDR: i32 = 5;

pub const SCTP_PRIMARY_ADDR: i32 = 6;

pub const SCTP_ADAPTATION_LAYER: i32 = 7;

pub const SCTP_DISABLE_FRAGMENTS: i32 = 8;

pub const SCTP_PEER_ADDR_PARAMS: i32 = 9;

pub const SCTP_DEFAULT_SEND_PARAM: i32 = 10;

pub const SCTP_EVENTS: i32 = 11;

pub const SCTP_I_WANT_MAPPED_V4_ADDR: i32 = 12;

pub const SCTP_MAXSEG: i32 = 13;

pub const SCTP_STATUS: i32 = 14;

pub const SCTP_GET_PEER_ADDR_INFO: i32 = 15;

pub const SCTP_DELAYED_ACK_TIME: i32 = 16;

pub const SCTP_CONTEXT: i32 = 17;

pub const SCTP_FRAGMENT_INTERLEAVE: i32 = 18;

pub const SCTP_PARTIAL_DELIVERY_POINT: i32 = 19;

pub const SCTP_MAX_BURST: i32 = 20;

pub const SCTP_AUTH_CHUNK: i32 = 21;

pub const SCTP_HMAC_IDENT: i32 = 22;

pub const SCTP_AUTH_KEY: i32 = 23;

pub const SCTP_AUTH_ACTIVE_KEY: i32 = 24;

pub const SCTP_AUTH_DELETE_KEY: i32 = 25;

pub const SCTP_PEER_AUTH_CHUNKS: i32 = 26;

pub const SCTP_LOCAL_AUTH_CHUNKS: i32 = 27;

pub const SCTP_GET_ASSOC_NUMBER: i32 = 28;

pub const SCTP_SOCKOPT_BINDX_ADD: i32 = 100;

pub const SCTP_SOCKOPT_BINDX_REM: i32 = 101;

pub const SCTP_SOCKOPT_PEELOFF: i32 = 102;

pub const SCTP_SOCKOPT_CONNECTX_OLD: i32 = 107;

pub const SCTP_GET_PEER_ADDRS: i32 = 108;

pub const SCTP_GET_LOCAL_ADDRS: i32 = 109;

pub const SCTP_SOCKOPT_CONNECTX: i32 = 110;

pub const SCTP_SOCKOPT_CONNECTX3: i32 = 111;

pub const SCTP_GET_ASSOC_STATS: i32 = 112;

/// The flag of the multi-address bind call that adds addresses.
pub const SCTP_BINDX_ADD_ADDR: i32 = 1;

/// The flag of the multi-address bind call that removes addresses.
pub const SCTP_BINDX_REM_ADDR: i32 = 2;

/// The receive flag the kernel sets when the buffer holds a notification
/// rather than data.
pub const MSG_NOTIFICATION: i32 = 0x8000;

/// The kernel's identifier of one association on a one-to-many socket;
/// zero names the only association of a one-to-one socket.
pub type sctp_assoc_t = i32;

/// The initialisation parameters of a new association.
#[derive(Clone, Copy, Debug, PartialEq, Eq, Structural)]
pub struct sctp_initmsg {
    pub sinit_num_ostreams: u16,
    pub sinit_max_instreams: u16,
    pub sinit_max_attempts: u16,
    pub sinit_max_init_timeo: u16,
}

/// The per-message control record of the send and receive calls: stream,
/// sequence number, flags, payload protocol, context, time-to-live,
/// transmission sequence numbers, and the association.
#[derive(Clone, Copy, Debug, PartialEq, Eq, Structural)]
pub struct sctp_sndrcvinfo {
    pub sinfo_stream: u16,
    pub sinfo_ssn: u16,
    pub sinfo_flags: u16,
    pub sinfo_ppid: u32,
    pub sinfo_context: u32,
    pub sinfo_timetolive: u32,
    pub sinfo_tsn: u32,
    pub sinfo_cumtsn: u32,
    pub sinfo_assoc_id: sctp_assoc_t,
}

/// The OS subscription record: one boolean field, in ABI order, for each of
/// the ten subscribable notification categories.
#[derive(Clone, Copy, Debug, PartialEq, Eq, Structural)]
pub struct sctp_event_subscribe {
    pub sctp_data_io_event: u8,
    pub sctp_association_event: u8,
    pub sctp_address_event: u8,
    pub sctp_send_failure_event: u8,
    pub sctp_peer_error_event: u8,
    pub sctp_shutdown_event: u8,
    pub sctp_partial_delivery_event: u8,
    pub sctp_adaptation_layer_event: u8,
    pub sctp_authentication_event: u8,
    pub sctp_sender_dry_event: u8,
}

/// The common header every notification starts with.
#[derive(Clone, Copy, Debug, PartialEq, Eq, Structural)]
pub struct sctp_notification_header {
    pub sn_type: u16,
    pub sn_flags: u16,
    pub sn_length: u32,
}

/// The type tags of the kernel's notification variants.
#[derive(Clone, Copy, Debug, PartialEq, Eq, Structural)]
pub enum sctp_sn_type {
    SCTP_SN_TYPE_BASE,
    SCTP_ASSOC_CHANGE,
    SCTP_PEER_ADDR_CHANGE,
    SCTP_SEND_FAILED,
    SCTP_REMOTE_ERROR,
    SCTP_SHUTDOWN_EVENT,
    SCTP_PARTIAL_DELIVERY_EVENT,
    SCTP_ADAPTATION_INDICATION,
    SCTP_AUTHENTICATION_INDICATION,
    SCTP_SENDER_DRY_EVENT,
}

impl sctp_sn_type {
    /// The tag's value on the wire.
    pub open spec fn spec_as_u16(self) -> u16 {
        match self {
            sctp_sn_type::SCTP_SN_TYPE_BASE => 32768,
            sctp_sn_type::SCTP_ASSOC_CHANGE => 32769,
            sctp_sn_type::SCTP_PEER_ADDR_CHANGE => 32770,
            sctp_sn_type::SCTP_SEND_FAILED => 32771,
            sctp_sn_type::SCTP_REMOTE_ERROR => 32772,
            sctp_sn_type::SCTP_SHUTDOWN_EVENT => 32773,
            sctp_sn_type::SCTP_PARTIAL_DELIVERY_EVENT => 32774,
            sctp_sn_type::SCTP_ADAPTATION_INDICATION => 32775,
            sctp_sn_type::SCTP_AUTHENTICATION_INDICATION => 32776,
            sctp_sn_type::SCTP_SENDER_DRY_EVENT => 32777,
        }
    }

    /// The tag's value on the wire.
    pub fn as_u16(&self) -> (r: u16)
        ensures
            r == self.spec_as_u16(),
    {
        match self {
            sctp_sn_type::SCTP_SN_TYPE_BASE => 32768,
            sctp_sn_type::SCTP_ASSOC_CHANGE => 32769,
            sctp_sn_type::SCTP_PEER_ADDR_CHANGE => 32770,
            sctp_sn_type::SCTP_SEND_FAILED => 32771,
            sctp_sn_type::SCTP_REMOTE_ERROR => 32772,
            sctp_sn_type::SCTP_SHUTDOWN_EVENT => 32773,
            sctp_sn_type::SCTP_PARTIAL_DELIVERY_EVENT => 32774,
            sctp_sn_type::SCTP_ADAPTATION_INDICATION => 32775,
            sctp_sn_type::SCTP_AUTHENTICATION_INDICATION => 32776,
            sctp_sn_type::SCTP_SENDER_DRY_EVENT => 32777,
        }
    }

    /// The tag a wire value names, if any.
    pub open spec fn spec_from_u16(t: u16) -> Option<sctp_sn_type> {
        if t == 32768 {
            Some(sctp_sn_type::SCTP_SN_TYPE_BASE)
        } else if t == 32769 {
            Some(sctp_sn_type::SCTP_ASSOC_CHANGE)
        } else if t == 32770 {
            Some(sctp_sn_type::SCTP_PEER_ADDR_CHANGE)
        } else if t == 32771 {
            Some(sctp_sn_type::SCTP_SEND_FAILED)
        } else if t == 32772 {
            Some(sctp_sn_type::SCTP_REMOTE_ERROR)
        } else if t == 32773 {
            Some(sctp_sn_type::SCTP_SHUTDOWN_EVENT)
        } else if t == 32774 {
            Some(sctp_sn_type::SCTP_PARTIAL_DELIVERY_EVENT)
        } else if t == 32775 {
            Some(sctp_sn_type::SCTP_ADAPTATION_INDICATION)
        } else if t == 32776 {
            Some(sctp_sn_type::SCTP_AUTHENTICATION_INDICATION)
        } else if t == 32777 {
            Some(sctp_sn_type::SCTP_SENDER_DRY_EVENT)
        } else {
            None
        }
    }

    /// The tag a wire value names, if any.
    pub fn from_u16(t: u16) -> (r: Option<sctp_sn_type>)
        ensures
            r == Self::spec_from_u16(t),
    {
        if t == 32768 {
            Some(sctp_sn_type::SCTP_SN_TYPE_BASE)
        } else if t == 32769 {
            Some(sctp_sn_type::SCTP_ASSOC_CHANGE)
        } else if t == 32770 {
            Some(sctp_sn_type::SCTP_PEER_ADDR_CHANGE)
        } else if t == 32771 {
            Some(sctp_sn_type::SCTP_SEND_FAILED)
        } else if t == 32772 {
            Some(sctp_sn_type::SCTP_REMOTE_ERROR)
        } else if t == 32773 {
            Some(sctp_sn_type::SCTP_SHUTDOWN_EVENT)
        } else if t == 32774 {
            Some(sctp_sn_type::SCTP_PARTIAL_DELIVERY_EVENT)
        } else if t == 32775 {
            Some(sctp_sn_type::SCTP_ADAPTATION_INDICATION)
        } else if t == 32776 {
            Some(sctp_sn_type::SCTP_AUTHENTICATION_INDICATION)
        } else if t == 32777 {
            Some(sctp_sn_type::SCTP_SENDER_DRY_EVENT)
        } else {
            None
        }
    }
}

/// The retransmission-timeout parameters of an association.
#[derive(Clone, Copy, Debug, PartialEq, Eq, Structural)]
pub struct sctp_rtoinfo {
    pub srto_assoc_id: sctp_assoc_t,
    pub srto_initial: u32,
    pub srto_max: u32,
    pub srto_min: u32,
}

/// The association parameters option record.
#[derive(Clone, Copy, Debug, PartialEq, Eq, Structural)]
pub struct sctp_assocparams {
    pub sasoc_assoc_id: sctp_assoc_t,
    pub sasoc_asocmaxrxt: u16,
    pub sasoc_number_peer_destinations: u16,
    pub sasoc_peer_rwnd: u32,
    pub sasoc_local_rwnd: u32,
    pub sasoc_cookie_life: u32,
}

/// The adaptation-layer indication option record.
#[derive(Clone, Copy, Debug, PartialEq, Eq, Structural)]
pub struct sctp_setadaptation {
    pub ssb_adaptation_ind: u32,
}

/// One chunk identifier of the authentication option.
#[derive(Clone, Copy, Debug, PartialEq, Eq, Structural)]
pub struct sctp_authchunk {
    pub sauth_chunk: u8,
}

/// The key identifier of the authentication option.
#[derive(Clone, Copy, Debug, PartialEq, Eq, Structural)]
pub struct sctp_authkeyid {
    pub scact_assoc_id: sctp_assoc_t,
    pub scact_keynumber: u16,
}

/// The delayed-acknowledgement option record.
#[derive(Clone, Copy, Debug, PartialEq, Eq, Structural)]
pub struct sctp_sack_info {
    pub sack_assoc_id: sctp_assoc_t,
    pub sack_delay: u32,
    pub sack_freq: u32,
}

/// A generic (association, value) option record.
#[derive(Clone, Copy, Debug, PartialEq, Eq, Structural)]
pub struct sctp_assoc_value {
    pub assoc_id: sctp_assoc_t,
    pub assoc_value: u32,
}

} // verus!
