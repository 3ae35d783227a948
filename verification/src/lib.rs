//! Verified core of an SCTP socket library: the address codec, the
//! notification decoder, the event mask, and the pure decision logic of the
//! socket control layer. The operating-system calls themselves live outside
//! this crate; they hand these functions plain values and take plain values
//! back.

pub mod addr;
pub mod error;
pub mod event;
pub mod notification;
pub mod socket;
pub mod sys;
pub mod wire;
