//! The notification decoder: recognizes and decodes the nine kernel
//! notification variants from a raw received buffer.
//!
//! Every notification starts with a common header (type, flags, length).
//! A buffer whose declared length differs from its actual length, or whose
//! type tag is unknown, is not a notification: the decode returns `None`
//! rather than a partial value. Each variant's trailing payload is an owned
//! copy of the bytes after the variant's fixed-size header, its length
//! computed from the validated declared length.
use vstd::prelude::*;
use vstd::slice::slice_subrange;
use vstd::slice::slice_to_vec;

use crate::addr::spec_decode;
use crate::addr::SOCKADDR_STORAGE_LEN;
use crate::addr::sockaddr_to_addr;
use crate::addr::TransportAddress;
use crate::error::SctpError;
use crate::sys::sctp_sn_type;
use crate::wire::le16_at;
use crate::wire::le32_at;
use crate::wire::le32_signed_at;
use crate::wire::read_i32_le;
use crate::wire::read_u16_le;
use crate::wire::read_u32_le;

verus! {

/// The size of the common notification header.
pub const NOTIFICATION_HEADER_LEN: usize = 8;

/// The fixed-header size of the association-change variant.
pub const ASSOC_CHANGE_FIXED_LEN: usize = 20;

/// The fixed size of the peer-address-change variant (no trailing payload).
pub const PADDR_CHANGE_LEN: usize = 148;

/// The fixed-header size of the remote-error variant.
pub const REMOTE_ERROR_FIXED_LEN: usize = 16;

/// The fixed-header size of the send-failed variant.
pub const SEND_FAILED_FIXED_LEN: usize = 48;

/// The fixed size of the shutdown variant.
pub const SHUTDOWN_EVENT_LEN: usize = 12;

/// The fixed size of the adaptation-layer variant.
pub const ADAPTATION_EVENT_LEN: usize = 16;

/// The fixed size of the partial-delivery variant.
pub const PDAPI_EVENT_LEN: usize = 16;

/// The fixed size of the authentication-key variant.
pub const AUTHKEY_EVENT_LEN: usize = 20;

/// The fixed size of the sender-dry variant.
pub const SENDER_DRY_EVENT_LEN: usize = 12;

/// The shared notification-error enumeration, decoded from a 16-bit error
/// code field.
#[derive(Clone, Copy, Debug, PartialEq, Eq, Structural)]
pub enum NotificationError {
    FailedThreshold,
    ReceivedSack,
    HeartbeatSuccess,
    ResponseToUserRequest,
    InternalError,
    ShutdownGuardExpires,
    PeerFaulty,
    Unknown,
}

/// The state an association-change notification carries.
#[derive(Clone, Copy, Debug, PartialEq, Eq, Structural)]
pub enum AssocChangeState {
    CommUp,
    CommLost,
    Restart,
    ShutdownComplete,
    CantStartAssoc,
    Unknown,
}

/// The state a peer-address-change notification carries.
#[derive(Clone, Copy, Debug, PartialEq, Eq, Structural)]
pub enum PaddrChangeState {
    AddrAvailable,
    AddrUnreachable,
    AddrRemoved,
    AddrAdded,
    AddrMadePrimary,
    AddrConfirmed,
    Unknown,
}

/// The disposition a send-failed notification carries.
#[derive(Clone, Copy, Debug, PartialEq, Eq, Structural)]
pub enum SendFailedState {
    DataUnsent,
    DataSent,
    Unknown,
}

/// An association has come up, been lost, restarted, or failed to start.
#[derive(Clone, Debug, PartialEq, Eq)]
pub struct AssocChange {
    pub state: AssocChangeState,
    pub error: NotificationError,
    pub outbound_streams: u16,
    pub inbound_streams: u16,
    pub assoc_id: i32,
    pub data: Vec<u8>,
}

/// The mathematical reading of an association-change notification.
pub struct AssocChangeView {
    pub state: AssocChangeState,
    pub error: NotificationError,
    pub outbound_streams: u16,
    pub inbound_streams: u16,
    pub assoc_id: i32,
    pub data: Seq<u8>,
}

impl View for AssocChange {
    type V = AssocChangeView;

    open spec fn view(&self) -> AssocChangeView {
        AssocChangeView {
            state: self.state,
            error: self.error,
            outbound_streams: self.outbound_streams,
            inbound_streams: self.inbound_streams,
            assoc_id: self.assoc_id,
            data: self.data@,
        }
    }
}

/// A peer address has become available, unreachable, been added, removed,
/// made primary, or confirmed.
#[derive(Clone, Copy, Debug, PartialEq, Eq, Structural)]
pub struct PaddrChange {
    pub addr: TransportAddress,
    pub state: PaddrChangeState,
    pub error: NotificationError,
    pub assoc_id: i32,
}

/// The peer reported an error on the association.
#[derive(Clone, Debug, PartialEq, Eq)]
pub struct RemoteError {
    pub error: NotificationError,
    pub assoc_id: i32,
    pub data: Vec<u8>,
}

/// The mathematical reading of a remote-error notification.
pub struct RemoteErrorView {
    pub error: NotificationError,
    pub assoc_id: i32,
    pub data: Seq<u8>,
}

impl View for RemoteError {
    type V = RemoteErrorView;

    open spec fn view(&self) -> RemoteErrorView {
        RemoteErrorView { error: self.error, assoc_id: self.assoc_id, data: self.data@ }
    }
}

/// A message could not be delivered; carries the send control record and
/// the undelivered payload.
#[derive(Clone, Debug, PartialEq, Eq)]
pub struct SendFailed {
    pub state: SendFailedState,
    pub error: NotificationError,
    pub info: crate::sys::sctp_sndrcvinfo,
    pub assoc_id: i32,
    pub data: Vec<u8>,
}

/// The mathematical reading of a send-failed notification.
pub struct SendFailedView {
    pub state: SendFailedState,
    pub error: NotificationError,
    pub info: crate::sys::sctp_sndrcvinfo,
    pub assoc_id: i32,
    pub data: Seq<u8>,
}

impl View for SendFailed {
    type V = SendFailedView;

    open spec fn view(&self) -> SendFailedView {
        SendFailedView {
            state: self.state,
            error: self.error,
            info: self.info,
            assoc_id: self.assoc_id,
            data: self.data@,
        }
    }
}

/// The peer has shut the association down.
#[derive(Clone, Copy, Debug, PartialEq, Eq, Structural)]
pub struct Shutdown {
    pub assoc_id: i32,
}

/// The peer's adaptation-layer indication.
#[derive(Clone, Copy, Debug, PartialEq, Eq, Structural)]
pub struct Adaptation {
    pub adaptation_ind: u32,
    pub assoc_id: i32,
}

/// A partial-delivery event on the association.
#[derive(Clone, Copy, Debug, PartialEq, Eq, Structural)]
pub struct PartialDelivery {
    pub indication: u32,
    pub assoc_id: i32,
}

/// An authentication-key event on the association.
#[derive(Clone, Copy, Debug, PartialEq, Eq, Structural)]
pub struct Authkey {
    pub keynumber: u16,
    pub altkeynumber: u16,
    pub indication: u32,
    pub assoc_id: i32,
}

/// The sender has no more queued data on the association.
#[derive(Clone, Copy, Debug, PartialEq, Eq, Structural)]
pub struct SenderDry {
    pub assoc_id: i32,
}

/// A decoded kernel notification: one of the nine variants the kernel
/// multiplexes onto the receive path.
#[derive(Clone, Debug, PartialEq, Eq)]
pub enum Notification {
    AssocChange(AssocChange),
    PaddrChange(PaddrChange),
    RemoteError(RemoteError),
    SendFailed(SendFailed),
    Shutdown(Shutdown),
    Adaptation(Adaptation),
    PartialDelivery(PartialDelivery),
    Authkey(Authkey),
    SenderDry(SenderDry),
}

/// The mathematical reading of a notification.
pub enum NotificationView {
    AssocChange(AssocChangeView),
    PaddrChange(PaddrChange),
    RemoteError(RemoteErrorView),
    SendFailed(SendFailedView),
    Shutdown(Shutdown),
    Adaptation(Adaptation),
    PartialDelivery(PartialDelivery),
    Authkey(Authkey),
    SenderDry(SenderDry),
}

impl View for Notification {
    type V = NotificationView;

    open spec fn view(&self) -> NotificationView {
        match self {
            Notification::AssocChange(n) => NotificationView::AssocChange(n@),
            Notification::PaddrChange(n) => NotificationView::PaddrChange(*n),
            Notification::RemoteError(n) => NotificationView::RemoteError(n@),
            Notification::SendFailed(n) => NotificationView::SendFailed(n@),
            Notification::Shutdown(n) => NotificationView::Shutdown(*n),
            Notification::Adaptation(n) => NotificationView::Adaptation(*n),
            Notification::PartialDelivery(n) => NotificationView::PartialDelivery(*n),
            Notification::Authkey(n) => NotificationView::Authkey(*n),
            Notification::SenderDry(n) => NotificationView::SenderDry(*n),
        }
    }
}

/// The notification-error enumeration a 16-bit error code names.
pub open spec fn spec_notification_error(error: u16) -> NotificationError {
    if error == 0 {
        NotificationError::FailedThreshold
    } else if error == 1 {
        NotificationError::ReceivedSack
    } else if error == 2 {
        NotificationError::HeartbeatSuccess
    } else if error == 3 {
        NotificationError::ResponseToUserRequest
    } else if error == 4 {
        NotificationError::InternalError
    } else if error == 5 {
        NotificationError::ShutdownGuardExpires
    } else if error == 6 {
        NotificationError::PeerFaulty
    } else {
        NotificationError::Unknown
    }
}

/// Decodes the shared notification-error enumeration from its 16-bit error
/// code.
pub fn notification_error_parse(error: u16) -> (r: NotificationError)
    ensures
        r == spec_notification_error(error),
{
    match error {
        0 => NotificationError::FailedThreshold,
        1 => NotificationError::ReceivedSack,
        2 => NotificationError::HeartbeatSuccess,
        3 => NotificationError::ResponseToUserRequest,
        4 => NotificationError::InternalError,
        5 => NotificationError::ShutdownGuardExpires,
        6 => NotificationError::PeerFaulty,
        _ => NotificationError::Unknown,
    }
}

/// The association-change state a 16-bit field names.
pub open spec fn spec_assoc_change_state(v: u16) -> AssocChangeState {
    if v == 0 {
        AssocChangeState::CommUp
    } else if v == 1 {
        AssocChangeState::CommLost
    } else if v == 2 {
        AssocChangeState::Restart
    } else if v == 3 {
        AssocChangeState::ShutdownComplete
    } else if v == 4 {
        AssocChangeState::CantStartAssoc
    } else {
        AssocChangeState::Unknown
    }
}

/// The peer-address-change state a signed 32-bit field names.
pub open spec fn spec_paddr_change_state(v: i32) -> PaddrChangeState {
    if v == 0 {
        PaddrChangeState::AddrAvailable
    } else if v == 1 {
        PaddrChangeState::AddrUnreachable
    } else if v == 2 {
        PaddrChangeState::AddrRemoved
    } else if v == 3 {
        PaddrChangeState::AddrAdded
    } else if v == 4 {
        PaddrChangeState::AddrMadePrimary
    } else if v == 5 {
        PaddrChangeState::AddrConfirmed
    } else {
        PaddrChangeState::Unknown
    }
}

/// The send-failed disposition a 16-bit flags field names.
pub open spec fn spec_send_failed_state(v: u16) -> SendFailedState {
    if v == 0 {
        SendFailedState::DataUnsent
    } else if v == 1 {
        SendFailedState::DataSent
    } else {
        SendFailedState::Unknown
    }
}

/// The low 16 bits of a 32-bit error field: some variants store the shared
/// error code natively as 16 bits, others as 32 bits needing this
/// narrowing read.
pub open spec fn spec_narrow_error(v: u32) -> u16 {
    (v % 0x1_0000) as u16
}

/// The reading of an association-change notification body.
pub open spec fn spec_assoc_change_view(b: Seq<u8>) -> AssocChangeView {
    AssocChangeView {
        state: spec_assoc_change_state(le16_at(b, 8)),
        error: spec_notification_error(le16_at(b, 10)),
        outbound_streams: le16_at(b, 12),
        inbound_streams: le16_at(b, 14),
        assoc_id: le32_signed_at(b, 16),
        data: b.subrange(ASSOC_CHANGE_FIXED_LEN as int, b.len() as int),
    }
}

/// The reading of a remote-error notification body.
pub open spec fn spec_remote_error_view(b: Seq<u8>) -> RemoteErrorView {
    RemoteErrorView {
        error: spec_notification_error(le16_at(b, 8)),
        assoc_id: le32_signed_at(b, 12),
        data: b.subrange(REMOTE_ERROR_FIXED_LEN as int, b.len() as int),
    }
}

/// The reading of a send-failed notification body. The disposition lives
/// in the header's flags field; the error code is stored as 32 bits.
pub open spec fn spec_send_failed_view(b: Seq<u8>) -> SendFailedView {
    SendFailedView {
        state: spec_send_failed_state(le16_at(b, 2)),
        error: spec_notification_error(spec_narrow_error(le32_at(b, 8))),
        info: crate::sys::sctp_sndrcvinfo {
            sinfo_stream: le16_at(b, 12),
            sinfo_ssn: le16_at(b, 14),
            sinfo_flags: le16_at(b, 16),
            sinfo_ppid: le32_at(b, 20),
            sinfo_context: le32_at(b, 24),
            sinfo_timetolive: le32_at(b, 28),
            sinfo_tsn: le32_at(b, 32),
            sinfo_cumtsn: le32_at(b, 36),
            sinfo_assoc_id: le32_signed_at(b, 40),
        },
        assoc_id: le32_signed_at(b, 44),
        data: b.subrange(SEND_FAILED_FIXED_LEN as int, b.len() as int),
    }
}

/// The reading of a peer-address-change notification body, given the
/// decoded transport address embedded at offset 8. The state and error are
/// signed 32-bit fields; the error code is narrowed to 16 bits.
pub open spec fn spec_paddr_change_view(b: Seq<u8>, a: TransportAddress) -> PaddrChange {
    PaddrChange {
        addr: a,
        state: spec_paddr_change_state(le32_signed_at(b, 136)),
        error: spec_notification_error(spec_narrow_error(le32_at(b, 140))),
        assoc_id: le32_signed_at(b, 144),
    }
}

/// The decoding of a received buffer as a notification.
///
/// `Ok(None)` means "not a notification": the buffer is shorter than the
/// common header, its declared length differs from its actual length, its
/// type tag is unknown or the base tag, or the buffer is too short for the
/// tagged variant's fixed part. The only hard failure is an unsupported
/// address family inside a peer-address-change variant.
pub open spec fn spec_notification_parse(b: Seq<u8>) -> Result<
    Option<NotificationView>,
    SctpError,
> {
    if b.len() < NOTIFICATION_HEADER_LEN {
        Ok(None)
    } else if le32_at(b, 4) != b.len() {
        Ok(None)
    } else {
        match sctp_sn_type::spec_from_u16(le16_at(b, 0)) {
            Option::None => Ok(None),
            Option::Some(tag) => match tag {
                sctp_sn_type::SCTP_SN_TYPE_BASE => Ok(None),
                sctp_sn_type::SCTP_ASSOC_CHANGE => {
                    if b.len() >= ASSOC_CHANGE_FIXED_LEN {
                        Ok(Some(NotificationView::AssocChange(spec_assoc_change_view(b))))
                    } else {
                        Ok(None)
                    }
                },
                sctp_sn_type::SCTP_PEER_ADDR_CHANGE => {
                    if b.len() >= PADDR_CHANGE_LEN {
                        match spec_decode(b.subrange(8, 136), SOCKADDR_STORAGE_LEN as int) {
                            Ok(a) => Ok(
                                Some(NotificationView::PaddrChange(spec_paddr_change_view(b, a))),
                            ),
                            Err(e) => Err(e),
                        }
                    } else {
                        Ok(None)
                    }
                },
                sctp_sn_type::SCTP_SEND_FAILED => {
                    if b.len() >= SEND_FAILED_FIXED_LEN {
                        Ok(Some(NotificationView::SendFailed(spec_send_failed_view(b))))
                    } else {
                        Ok(None)
                    }
                },
                sctp_sn_type::SCTP_REMOTE_ERROR => {
                    if b.len() >= REMOTE_ERROR_FIXED_LEN {
                        Ok(Some(NotificationView::RemoteError(spec_remote_error_view(b))))
                    } else {
                        Ok(None)
                    }
                },
                sctp_sn_type::SCTP_SHUTDOWN_EVENT => {
                    if b.len() >= SHUTDOWN_EVENT_LEN {
                        Ok(
                            Some(
                                NotificationView::Shutdown(
                                    Shutdown { assoc_id: le32_signed_at(b, 8) },
                                ),
                            ),
                        )
                    } else {
                        Ok(None)
                    }
                },
                sctp_sn_type::SCTP_PARTIAL_DELIVERY_EVENT => {
                    if b.len() >= PDAPI_EVENT_LEN {
                        Ok(
                            Some(
                                NotificationView::PartialDelivery(
                                    PartialDelivery {
                                        indication: le32_at(b, 8),
                                        assoc_id: le32_signed_at(b, 12),
                                    },
                                ),
                            ),
                        )
                    } else {
                        Ok(None)
                    }
                },
                sctp_sn_type::SCTP_ADAPTATION_INDICATION => {
                    if b.len() >= ADAPTATION_EVENT_LEN {
                        Ok(
                            Some(
                                NotificationView::Adaptation(
                                    Adaptation {
                                        adaptation_ind: le32_at(b, 8),
                                        assoc_id: le32_signed_at(b, 12),
                                    },
                                ),
                            ),
                        )
                    } else {
                        Ok(None)
                    }
                },
                sctp_sn_type::SCTP_AUTHENTICATION_INDICATION => {
                    if b.len() >= AUTHKEY_EVENT_LEN {
                        Ok(
                            Some(
                                NotificationView::Authkey(
                                    Authkey {
                                        keynumber: le16_at(b, 8),
                                        altkeynumber: le16_at(b, 10),
                                        indication: le32_at(b, 12),
                                        assoc_id: le32_signed_at(b, 16),
                                    },
                                ),
                            ),
                        )
                    } else {
                        Ok(None)
                    }
                },
                sctp_sn_type::SCTP_SENDER_DRY_EVENT => {
                    if b.len() >= SENDER_DRY_EVENT_LEN {
                        Ok(
                            Some(
                                NotificationView::SenderDry(
                                    SenderDry { assoc_id: le32_signed_at(b, 8) },
                                ),
                            ),
                        )
                    } else {
                        Ok(None)
                    }
                },
            },
        }
    }
}

/// The length guard: a buffer whose declared length differs from its
/// actual length decodes to "no notification", whichever of the nine
/// variant tags its header carries — never a partial value.
pub proof fn lemma_notification_length_guard(b: Seq<u8>)
    requires
        b.len() < NOTIFICATION_HEADER_LEN || le32_at(b, 4) != b.len(),
    ensures
        spec_notification_parse(b) == Ok::<Option<NotificationView>, SctpError>(None),
{
}

/// Decodes the association-change state field.
pub fn assoc_change_state_parse(v: u16) -> (r: AssocChangeState)
    ensures
        r == spec_assoc_change_state(v),
{
    match v {
        0 => AssocChangeState::CommUp,
        1 => AssocChangeState::CommLost,
        2 => AssocChangeState::Restart,
        3 => AssocChangeState::ShutdownComplete,
        4 => AssocChangeState::CantStartAssoc,
        _ => AssocChangeState::Unknown,
    }
}

/// Decodes the peer-address-change state field.
pub fn paddr_change_state_parse(v: i32) -> (r: PaddrChangeState)
    ensures
        r == spec_paddr_change_state(v),
{
    match v {
        0 => PaddrChangeState::AddrAvailable,
        1 => PaddrChangeState::AddrUnreachable,
        2 => PaddrChangeState::AddrRemoved,
        3 => PaddrChangeState::AddrAdded,
        4 => PaddrChangeState::AddrMadePrimary,
        5 => PaddrChangeState::AddrConfirmed,
        _ => PaddrChangeState::Unknown,
    }
}

/// Decodes the send-failed disposition from the header's flags field.
pub fn send_failed_state_parse(v: u16) -> (r: SendFailedState)
    ensures
        r == spec_send_failed_state(v),
{
    match v {
        0 => SendFailedState::DataUnsent,
        1 => SendFailedState::DataSent,
        _ => SendFailedState::Unknown,
    }
}

/// Decodes a received buffer as a notification.
///
/// Returns `Ok(None)` ("not a notification") where the declared length in
/// the header differs from the buffer's length, the type tag is unknown,
/// or the buffer is too short for the tagged variant; never a partial
/// value. The only hard failure is an unsupported address family inside a
/// peer-address-change variant.
#[verifier::rlimit(60)]
pub fn notification_parse(buf: &[u8]) -> (r: Result<Option<Notification>, SctpError>)
    ensures
        match (r, spec_notification_parse(buf@)) {
            (Ok(Some(n)), Ok(Some(nv))) => n@ == nv,
            (Ok(None), Ok(None)) => true,
            (Err(e), Err(se)) => e == se,
            _ => false,
        },
{
    if buf.len() < NOTIFICATION_HEADER_LEN {
        return Ok(None);
    }
    let declared = read_u32_le(buf, 4);
    if declared as usize != buf.len() {
        return Ok(None);
    }
    let tag = match sctp_sn_type::from_u16(read_u16_le(buf, 0)) {
        Option::Some(t) => t,
        Option::None => {
            return Ok(None);
        },
    };
    match tag {
        sctp_sn_type::SCTP_SN_TYPE_BASE => Ok(None),
        sctp_sn_type::SCTP_ASSOC_CHANGE => {
            if buf.len() >= ASSOC_CHANGE_FIXED_LEN {
                let data = slice_to_vec(slice_subrange(buf, ASSOC_CHANGE_FIXED_LEN, buf.len()));
                Ok(
                    Some(
                        Notification::AssocChange(
                            AssocChange {
                                state: assoc_change_state_parse(read_u16_le(buf, 8)),
                                error: notification_error_parse(read_u16_le(buf, 10)),
                                outbound_streams: read_u16_le(buf, 12),
                                inbound_streams: read_u16_le(buf, 14),
                                assoc_id: read_i32_le(buf, 16),
                                data,
                            },
                        ),
                    ),
                )
            } else {
                Ok(None)
            }
        },
        sctp_sn_type::SCTP_PEER_ADDR_CHANGE => {
            if buf.len() >= PADDR_CHANGE_LEN {
                let storage = slice_subrange(buf, 8, 136);
                match sockaddr_to_addr(storage, SOCKADDR_STORAGE_LEN) {
                    Ok(a) => Ok(
                        Some(
                            Notification::PaddrChange(
                                PaddrChange {
                                    addr: a,
                                    state: paddr_change_state_parse(read_i32_le(buf, 136)),
                                    error: notification_error_parse(
                                        (read_u32_le(buf, 140) % 0x1_0000) as u16,
                                    ),
                                    assoc_id: read_i32_le(buf, 144),
                                },
                            ),
                        ),
                    ),
                    Err(e) => Err(e),
                }
            } else {
                Ok(None)
            }
        },
        sctp_sn_type::SCTP_SEND_FAILED => {
            if buf.len() >= SEND_FAILED_FIXED_LEN {
                let data = slice_to_vec(slice_subrange(buf, SEND_FAILED_FIXED_LEN, buf.len()));
                Ok(
                    Some(
                        Notification::SendFailed(
                            SendFailed {
                                state: send_failed_state_parse(read_u16_le(buf, 2)),
                                error: notification_error_parse(
                                    (read_u32_le(buf, 8) % 0x1_0000) as u16,
                                ),
                                info: crate::sys::sctp_sndrcvinfo {
                                    sinfo_stream: read_u16_le(buf, 12),
                                    sinfo_ssn: read_u16_le(buf, 14),
                                    sinfo_flags: read_u16_le(buf, 16),
                                    sinfo_ppid: read_u32_le(buf, 20),
                                    sinfo_context: read_u32_le(buf, 24),
                                    sinfo_timetolive: read_u32_le(buf, 28),
                                    sinfo_tsn: read_u32_le(buf, 32),
                                    sinfo_cumtsn: read_u32_le(buf, 36),
                                    sinfo_assoc_id: read_i32_le(buf, 40),
                                },
                                assoc_id: read_i32_le(buf, 44),
                                data,
                            },
                        ),
                    ),
                )
            } else {
                Ok(None)
            }
        },
        sctp_sn_type::SCTP_REMOTE_ERROR => {
            if buf.len() >= REMOTE_ERROR_FIXED_LEN {
                let data = slice_to_vec(slice_subrange(buf, REMOTE_ERROR_FIXED_LEN, buf.len()));
                Ok(
                    Some(
                        Notification::RemoteError(
                            RemoteError {
                                error: notification_error_parse(read_u16_le(buf, 8)),
                                assoc_id: read_i32_le(buf, 12),
                                data,
                            },
                        ),
                    ),
                )
            } else {
                Ok(None)
            }
        },
        sctp_sn_type::SCTP_SHUTDOWN_EVENT => {
            if buf.len() >= SHUTDOWN_EVENT_LEN {
                Ok(Some(Notification::Shutdown(Shutdown { assoc_id: read_i32_le(buf, 8) })))
            } else {
                Ok(None)
            }
        },
        sctp_sn_type::SCTP_PARTIAL_DELIVERY_EVENT => {
            if buf.len() >= PDAPI_EVENT_LEN {
                Ok(
                    Some(
                        Notification::PartialDelivery(
                            PartialDelivery {
                                indication: read_u32_le(buf, 8),
                                assoc_id: read_i32_le(buf, 12),
                            },
                        ),
                    ),
                )
            } else {
                Ok(None)
            }
        },
        sctp_sn_type::SCTP_ADAPTATION_INDICATION => {
            if buf.len() >= ADAPTATION_EVENT_LEN {
                Ok(
                    Some(
                        Notification::Adaptation(
                            Adaptation {
                                adaptation_ind: read_u32_le(buf, 8),
                                assoc_id: read_i32_le(buf, 12),
                            },
                        ),
                    ),
                )
            } else {
                Ok(None)
            }
        },
        sctp_sn_type::SCTP_AUTHENTICATION_INDICATION => {
            if buf.len() >= AUTHKEY_EVENT_LEN {
                Ok(
                    Some(
                        Notification::Authkey(
                            Authkey {
                                keynumber: read_u16_le(buf, 8),
                                altkeynumber: read_u16_le(buf, 10),
                                indication: read_u32_le(buf, 12),
                                assoc_id: read_i32_le(buf, 16),
                            },
                        ),
                    ),
                )
            } else {
                Ok(None)
            }
        },
        sctp_sn_type::SCTP_SENDER_DRY_EVENT => {
            if buf.len() >= SENDER_DRY_EVENT_LEN {
                Ok(Some(Notification::SenderDry(SenderDry { assoc_id: read_i32_le(buf, 8) })))
            } else {
                Ok(None)
            }
        },
    }
}

} // verus!
