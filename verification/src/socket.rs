//! The pure decision logic of the socket control layer: OS return-code
//! conversion, timeout translation, multi-address planning, transfer-size
//! clamping, and the classification of a received buffer as data or
//! notification. The system calls themselves live outside this crate and
//! hand these functions plain values.
use vstd::prelude::*;

use crate::addr::spec_encode_list;
use crate::addr::encode_list;
use crate::addr::AF_INET;
use crate::addr::AF_INET6;
use crate::addr::spec_decode;
use crate::addr::sockaddr_to_addr;
use crate::addr::TransportAddress;
use crate::error::SctpError;
use crate::notification::notification_parse;
use crate::notification::spec_notification_parse;
use crate::notification::Notification;
use crate::sys::MSG_NOTIFICATION;
use crate::sys::SCTP_BINDX_ADD_ADDR;
use crate::sys::SCTP_BINDX_REM_ADDR;

verus! {

/// A value an OS call can return: `-1` reports a failure.
pub trait IsMinusOne: Sized {
    /// Whether this value is the failure sentinel.
    spec fn spec_is_minus_one(&self) -> bool;

    /// Whether this value is the failure sentinel.
    fn is_minus_one(&self) -> (r: bool)
        ensures
            r == self.spec_is_minus_one(),
    ;
}

impl IsMinusOne for i8 {
    open spec fn spec_is_minus_one(&self) -> bool {
        *self == -1
    }

    fn is_minus_one(&self) -> (r: bool) {
        *self == -1
    }
}

impl IsMinusOne for i16 {
    open spec fn spec_is_minus_one(&self) -> bool {
        *self == -1
    }

    fn is_minus_one(&self) -> (r: bool) {
        *self == -1
    }
}

impl IsMinusOne for i32 {
    open spec fn spec_is_minus_one(&self) -> bool {
        *self == -1
    }

    fn is_minus_one(&self) -> (r: bool) {
        *self == -1
    }
}

impl IsMinusOne for i64 {
    open spec fn spec_is_minus_one(&self) -> bool {
        *self == -1
    }

    fn is_minus_one(&self) -> (r: bool) {
        *self == -1
    }
}

impl IsMinusOne for isize {
    open spec fn spec_is_minus_one(&self) -> bool {
        *self == -1
    }

    fn is_minus_one(&self) -> (r: bool) {
        *self == -1
    }
}

/// Converts an OS call's return value: `-1` becomes a system error carrying
/// the OS error code that accompanied it, any other value passes through.
pub fn cvt<T: IsMinusOne>(t: T, errno: i32) -> (r: Result<T, SctpError>)
    ensures
        t.spec_is_minus_one() ==> r == Err::<T, SctpError>(SctpError::Sys(errno)),
        !t.spec_is_minus_one() ==> r == Ok::<T, SctpError>(t),
{
    if t.is_minus_one() {
        Err(SctpError::Sys(errno))
    } else {
        Ok(t)
    }
}

/// The platform's maximum single-call transfer size.
pub fn max_len() -> (r: usize)
    ensures
        r == isize::MAX as usize,
{
    isize::MAX as usize
}

/// Clamps a buffer length to the platform's maximum single-call transfer
/// size.
pub fn clamp_len(len: usize) -> (r: usize)
    ensures
        r == if len <= isize::MAX as usize {
            len as int
        } else {
            isize::MAX as int
        },
{
    if len <= isize::MAX as usize {
        len
    } else {
        isize::MAX as usize
    }
}

/// The direction of a multi-address bind: graft addresses onto the socket,
/// or take them off.
#[derive(Clone, Copy, Debug, PartialEq, Eq, Structural)]
pub enum BindOp {
    /// Add bind addresses.
    AddAddr,
    /// Remove bind addresses.
    RemAddr,
}

impl BindOp {
    /// The OS flag of this direction.
    pub fn flag(&self) -> (r: i32)
        ensures
            self is AddAddr ==> r == SCTP_BINDX_ADD_ADDR,
            self is RemAddr ==> r == SCTP_BINDX_REM_ADDR,
    {
        match self {
            BindOp::AddAddr => SCTP_BINDX_ADD_ADDR,
            BindOp::RemAddr => SCTP_BINDX_REM_ADDR,
        }
    }
}

/// Whether the list holds an IPv6 endpoint.
pub open spec fn spec_has_v6(addrs: Seq<TransportAddress>) -> bool {
    exists|j: int| 0 <= j < addrs.len() && addrs[j] is V6
}

/// The address family a multihomed socket for these addresses needs: IPv6
/// where any address is IPv6, else IPv4.
pub open spec fn spec_multihome_family(addrs: Seq<TransportAddress>) -> u16 {
    if spec_has_v6(addrs) {
        AF_INET6
    } else {
        AF_INET
    }
}

/// Plans a multi-address bind or connect: rejects an empty list before any
/// system call, else returns the socket family the addresses need and the
/// flattened address buffer for the OS call.
pub fn prepare_multihome(addrs: &Vec<TransportAddress>) -> (r: Result<(u16, Vec<u8>), SctpError>)
    ensures
        addrs@.len() == 0 ==> r == Err::<(u16, Vec<u8>), SctpError>(SctpError::InvalidInput),
        addrs@.len() > 0 ==> (r matches Ok((family, buf)) && family == spec_multihome_family(
            addrs@,
        ) && buf@ == spec_encode_list(addrs@)),
{
    if addrs.len() == 0 {
        return Err(SctpError::InvalidInput);
    }
    let mut v6 = false;
    let mut i: usize = 0;
    while i < addrs.len()
        invariant
            i <= addrs@.len(),
            v6 == spec_has_v6(addrs@.subrange(0, i as int)),
        decreases addrs@.len() - i,
    {
        let this_v6 = addrs[i].is_v6();
        proof {
            let s0 = addrs@.subrange(0, i as int);
            let s1 = addrs@.subrange(0, i + 1);
            if this_v6 {
                assert(s1[i as int] is V6);
                assert(spec_has_v6(s1));
            } else {
                if spec_has_v6(s1) {
                    let j = choose|j: int| 0 <= j < s1.len() && s1[j] is V6;
                    assert(j < i);
                    assert(s0[j] is V6);
                }
                assert(spec_has_v6(s1) == spec_has_v6(s0));
            }
        }
        if this_v6 {
            v6 = true;
        }
        i = i + 1;
    }
    proof {
        assert(addrs@.subrange(0, addrs@.len() as int) =~= addrs@);
    }
    let family = if v6 {
        AF_INET6
    } else {
        AF_INET
    };
    let buf = encode_list(addrs);
    Ok((family, buf))
}

/// What one receive call yielded: the byte count, the stream the message
/// arrived on, the sender's address where it could be decoded, and the
/// decoded notification where the OS flagged the buffer as one.
pub struct RecvOutcome {
    pub byte_count: usize,
    pub stream: u16,
    pub sender: Option<TransportAddress>,
    pub notification: Option<Notification>,
}

/// Classifies what a receive call filled in: where the OS flags say the
/// buffer holds a notification, decodes it from the first `byte_count`
/// bytes; else the buffer is data. The sender address is decoded from the
/// OS address storage; a sender-address decode failure is swallowed ("no
/// address") by design, so that it never masks the data itself.
pub fn process_recvmsg(
    msg: &[u8],
    byte_count: usize,
    flags: i32,
    storage: &[u8],
    storage_len: usize,
    stream: u16,
) -> (r: Result<RecvOutcome, SctpError>)
    requires
        byte_count <= msg@.len(),
    ensures
        ({
            let is_notif = flags & MSG_NOTIFICATION == MSG_NOTIFICATION;
            let parsed = spec_notification_parse(msg@.subrange(0, byte_count as int));
            match r {
                Ok(out) => {
                    &&& out.byte_count == byte_count
                    &&& out.stream == stream
                    &&& (match spec_decode(storage@, storage_len as int) {
                        Ok(a) => out.sender == Some(a),
                        Err(_) => out.sender is None,
                    })
                    &&& (if is_notif {
                        match parsed {
                            Ok(Some(nv)) => out.notification matches Some(n) && n@ == nv,
                            Ok(None) => out.notification is None,
                            Err(_) => false,
                        }
                    } else {
                        out.notification is None
                    })
                },
                Err(e) => is_notif && parsed == Err::<Option<
                    crate::notification::NotificationView,
                >, SctpError>(e),
            }
        }),
{
    let notification = if flags & MSG_NOTIFICATION == MSG_NOTIFICATION {
        let body = vstd::slice::slice_subrange(msg, 0, byte_count);
        match notification_parse(body) {
            Ok(n) => n,
            Err(e) => {
                return Err(e);
            },
        }
    } else {
        None
    };
    let sender = match sockaddr_to_addr(storage, storage_len) {
        Ok(a) => Some(a),
        Err(_) => None,
    };
    Ok(RecvOutcome { byte_count, stream, sender, notification })
}

/// The OS timeout option's two-field record: seconds and microseconds.
/// Both fields zero is the OS's "no timeout" sentinel.
#[derive(Clone, Copy, Debug, PartialEq, Eq, Structural)]
pub struct Timeval {
    pub tv_sec: i64,
    pub tv_usec: i64,
}

/// The OS record a timeout duration translates to. A zero duration is
/// rejected: it is ambiguous with the "no timeout" sentinel. A nonzero
/// duration whose seconds are zero and whose microsecond component rounds
/// to zero is bumped to one microsecond, so that it never collapses to the
/// sentinel on the wire. Seconds beyond the OS field saturate.
pub open spec fn spec_timeout_to_timeval(secs: u64, nanos: u32) -> Result<Timeval, SctpError> {
    if secs == 0 && nanos == 0 {
        Err(SctpError::InvalidInput)
    } else {
        let s = if secs > i64::MAX as u64 {
            i64::MAX
        } else {
            secs as i64
        };
        let u = (nanos / 1000) as i64;
        if s == 0 && u == 0 {
            Ok(Timeval { tv_sec: 0, tv_usec: 1 })
        } else {
            Ok(Timeval { tv_sec: s, tv_usec: u })
        }
    }
}

/// Translates a timeout duration (seconds and sub-second nanoseconds) into
/// the OS record; `None` means "no timeout" and becomes the all-zero
/// sentinel. A zero duration is rejected with an input error before any
/// system call.
pub fn timeout_to_timeval(dur: Option<(u64, u32)>) -> (r: Result<Timeval, SctpError>)
    ensures
        match dur {
            Some((secs, nanos)) => r == spec_timeout_to_timeval(secs, nanos),
            None => r == Ok::<Timeval, SctpError>(Timeval { tv_sec: 0, tv_usec: 0 }),
        },
{
    match dur {
        Some((secs, nanos)) => {
            if secs == 0 && nanos == 0 {
                return Err(SctpError::InvalidInput);
            }
            let s: i64 = if secs > i64::MAX as u64 {
                i64::MAX
            } else {
                secs as i64
            };
            let u: i64 = (nanos / 1000) as i64;
            if s == 0 && u == 0 {
                Ok(Timeval { tv_sec: 0, tv_usec: 1 })
            } else {
                Ok(Timeval { tv_sec: s, tv_usec: u })
            }
        },
        None => Ok(Timeval { tv_sec: 0, tv_usec: 0 }),
    }
}

/// Translates the OS timeout record back into a duration: the all-zero
/// sentinel means "no timeout". The record is the canonical one the OS
/// returns: non-negative seconds, microseconds below one million.
pub fn timeval_to_timeout(tv: Timeval) -> (r: Option<(u64, u32)>)
    requires
        tv.tv_sec >= 0,
        0 <= tv.tv_usec < 1_000_000,
    ensures
        tv.tv_sec == 0 && tv.tv_usec == 0 ==> r is None,
        !(tv.tv_sec == 0 && tv.tv_usec == 0) ==> r == Some(
            (tv.tv_sec as u64, (tv.tv_usec * 1000) as u32),
        ),
{
    if tv.tv_sec == 0 && tv.tv_usec == 0 {
        None
    } else {
        Some((tv.tv_sec as u64, (tv.tv_usec as u32) * 1000))
    }
}

/// A set timeout never reaches the OS as the "no timeout" sentinel: for
/// every duration, the translation either rejects it or yields a record
/// with a nonzero field.
pub proof fn lemma_timeout_never_sentinel(secs: u64, nanos: u32)
    ensures
        spec_timeout_to_timeval(secs, nanos) != Ok::<Timeval, SctpError>(
            Timeval { tv_sec: 0, tv_usec: 0 },
        ),
{
}

} // verus!
