//! The event mask: a bitset over the ten subscribable notification
//! categories, and its projection onto the OS subscription record.
//!
//! Subscribing applies the whole mask as an overwrite at the OS level, not
//! an incremental union: a caller who subscribes to a mask without the
//! data-io bit loses data delivery notifications. The projection here
//! preserves that, bit for bit.
use vstd::prelude::*;

use crate::sys::sctp_event_subscribe;

verus! {

/// The bit of data-io (receive-control-record) notifications.
pub const DATA_IO: usize = 0b0000000001;

/// The bit of association-change notifications.
pub const ASSOCIATION: usize = 0b0000000010;

/// The bit of peer-address-change notifications.
pub const ADDRESS: usize = 0b0000000100;

/// The bit of send-failure notifications.
pub const SEND_FAILURE: usize = 0b0000001000;

/// The bit of remote-error notifications.
pub const PEER_ERROR: usize = 0b0000010000;

/// The bit of shutdown notifications.
pub const SHUTDOWN: usize = 0b0000100000;

/// The bit of partial-delivery notifications.
pub const PARTIAL_DELIVERY: usize = 0b0001000000;

/// The bit of adaptation-layer notifications.
pub const ADAPTATION_LAYER: usize = 0b0010000000;

/// The bit of authentication-key notifications.
pub const AUTHENTICATION: usize = 0b0100000000;

/// The bit of sender-dry notifications.
pub const SENDER_DRY: usize = 0b1000000000;

/// A set of subscribable notification categories, one bit each.
#[derive(Debug, Copy, PartialEq, Eq, Clone, PartialOrd, Ord, Structural)]
pub struct Event(pub usize);

impl Event {
    /// The empty mask.
    pub fn empty() -> (r: Event)
        ensures
            r.0 == 0,
    {
        Event(0)
    }

    /// The mask of data-io notifications alone.
    pub fn data_io() -> (r: Event)
        ensures
            r.0 == DATA_IO,
    {
        Event(DATA_IO)
    }

    /// The mask of association-change notifications alone.
    pub fn association() -> (r: Event)
        ensures
            r.0 == ASSOCIATION,
    {
        Event(ASSOCIATION)
    }

    /// The mask of peer-address-change notifications alone.
    pub fn address() -> (r: Event)
        ensures
            r.0 == ADDRESS,
    {
        Event(ADDRESS)
    }

    /// The mask of send-failure notifications alone.
    pub fn send_failure() -> (r: Event)
        ensures
            r.0 == SEND_FAILURE,
    {
        Event(SEND_FAILURE)
    }

    /// The mask of remote-error notifications alone.
    pub fn peer_error() -> (r: Event)
        ensures
            r.0 == PEER_ERROR,
    {
        Event(PEER_ERROR)
    }

    /// The mask of shutdown notifications alone.
    pub fn shutdown() -> (r: Event)
        ensures
            r.0 == SHUTDOWN,
    {
        Event(SHUTDOWN)
    }

    /// The mask of partial-delivery notifications alone.
    pub fn partial_delivery() -> (r: Event)
        ensures
            r.0 == PARTIAL_DELIVERY,
    {
        Event(PARTIAL_DELIVERY)
    }

    /// The mask of adaptation-layer notifications alone.
    pub fn adaptation_layer() -> (r: Event)
        ensures
            r.0 == ADAPTATION_LAYER,
    {
        Event(ADAPTATION_LAYER)
    }

    /// The mask of authentication-key notifications alone.
    pub fn authentication() -> (r: Event)
        ensures
            r.0 == AUTHENTICATION,
    {
        Event(AUTHENTICATION)
    }

    /// The mask of sender-dry notifications alone.
    pub fn sender_dry() -> (r: Event)
        ensures
            r.0 == SENDER_DRY,
    {
        Event(SENDER_DRY)
    }

    /// Adds every category of `other` to this mask.
    pub fn insert(&mut self, other: Event)
        ensures
            final(self).0 == old(self).0 | other.0,
    {
        self.0 = self.0 | other.0
    }

    /// Takes every category of `other` out of this mask.
    pub fn remove(&mut self, other: Event)
        ensures
            final(self).0 == old(self).0 & !other.0,
    {
        self.0 = self.0 & !other.0
    }

    /// Whether every category of `other` is in this mask.
    pub fn contains(&self, other: Event) -> (r: bool)
        ensures
            r == (self.0 & other.0 == other.0),
    {
        self.0 & other.0 == other.0
    }

    /// The mask's bits.
    pub fn as_usize(&self) -> (r: usize)
        ensures
            r == self.0,
    {
        self.0
    }

    /// The union of the two masks.
    pub fn union(self, other: Event) -> (r: Event)
        ensures
            r.0 == self.0 | other.0,
    {
        Event(self.0 | other.0)
    }

    /// The intersection of the two masks.
    pub fn intersection(self, other: Event) -> (r: Event)
        ensures
            r.0 == self.0 & other.0,
    {
        Event(self.0 & other.0)
    }

    /// The categories of this mask that are not in `other`.
    pub fn difference(self, other: Event) -> (r: Event)
        ensures
            r.0 == self.0 & !other.0,
    {
        Event(self.0 & !other.0)
    }

    /// The categories in exactly one of the two masks.
    pub fn symmetric_difference(self, other: Event) -> (r: Event)
        ensures
            r.0 == self.0 ^ other.0,
    {
        Event(self.0 ^ other.0)
    }

    /// The complement of this mask.
    pub fn complement(self) -> (r: Event)
        ensures
            r.0 == !self.0,
    {
        Event(!self.0)
    }

    /// The OS subscription record this mask projects onto.
    pub open spec fn spec_subscription_record(self) -> sctp_event_subscribe {
        sctp_event_subscribe {
            sctp_data_io_event: spec_flag(self.0, DATA_IO),
            sctp_association_event: spec_flag(self.0, ASSOCIATION),
            sctp_address_event: spec_flag(self.0, ADDRESS),
            sctp_send_failure_event: spec_flag(self.0, SEND_FAILURE),
            sctp_peer_error_event: spec_flag(self.0, PEER_ERROR),
            sctp_shutdown_event: spec_flag(self.0, SHUTDOWN),
            sctp_partial_delivery_event: spec_flag(self.0, PARTIAL_DELIVERY),
            sctp_adaptation_layer_event: spec_flag(self.0, ADAPTATION_LAYER),
            sctp_authentication_event: spec_flag(self.0, AUTHENTICATION),
            sctp_sender_dry_event: spec_flag(self.0, SENDER_DRY),
        }
    }

    /// Projects this mask onto the OS subscription record: each of the ten
    /// fields is set exactly where the mask holds its category. The record
    /// overwrites the OS state as a whole when applied.
    pub fn to_subscription_record(&self) -> (r: sctp_event_subscribe)
        ensures
            r == self.spec_subscription_record(),
    {
        sctp_event_subscribe {
            sctp_data_io_event: if self.contains(Event(DATA_IO)) {
                1
            } else {
                0
            },
            sctp_association_event: if self.contains(Event(ASSOCIATION)) {
                1
            } else {
                0
            },
            sctp_address_event: if self.contains(Event(ADDRESS)) {
                1
            } else {
                0
            },
            sctp_send_failure_event: if self.contains(Event(SEND_FAILURE)) {
                1
            } else {
                0
            },
            sctp_peer_error_event: if self.contains(Event(PEER_ERROR)) {
                1
            } else {
                0
            },
            sctp_shutdown_event: if self.contains(Event(SHUTDOWN)) {
                1
            } else {
                0
            },
            sctp_partial_delivery_event: if self.contains(Event(PARTIAL_DELIVERY)) {
                1
            } else {
                0
            },
            sctp_adaptation_layer_event: if self.contains(Event(ADAPTATION_LAYER)) {
                1
            } else {
                0
            },
            sctp_authentication_event: if self.contains(Event(AUTHENTICATION)) {
                1
            } else {
                0
            },
            sctp_sender_dry_event: if self.contains(Event(SENDER_DRY)) {
                1
            } else {
                0
            },
        }
    }
}

impl From<usize> for Event {
    /// The mask with exactly the given bits.
    fn from(event: usize) -> (r: Event) {
        Event(event)
    }
}

impl vstd::std_specs::convert::FromSpecImpl<usize> for Event {
    open spec fn obeys_from_spec() -> bool {
        true
    }

    open spec fn from_spec(event: usize) -> Event {
        Event(event)
    }
}

/// `1` where the mask holds every bit of `bit`, else `0`.
pub open spec fn spec_flag(mask: usize, bit: usize) -> u8 {
    if mask & bit == bit {
        1
    } else {
        0
    }
}

/// The subscription record a socket starts with: data-io alone.
pub fn default_subscription_record() -> (r: sctp_event_subscribe)
    ensures
        r == Event(DATA_IO).spec_subscription_record(),
{
    let e = Event::data_io();
    e.to_subscription_record()
}

/// A mask built from a subset of the ten categories projects onto the
/// subscription record that sets exactly that subset's fields: one field
/// per category, `1` where the category is in the subset, `0` where not.
pub proof fn lemma_subscription_record_exact(bits: usize)
    ensures
        Event(bits).spec_subscription_record().sctp_data_io_event == spec_flag(bits, DATA_IO),
        Event(bits).spec_subscription_record().sctp_association_event == spec_flag(
            bits,
            ASSOCIATION,
        ),
        Event(bits).spec_subscription_record().sctp_address_event == spec_flag(bits, ADDRESS),
        Event(bits).spec_subscription_record().sctp_send_failure_event == spec_flag(
            bits,
            SEND_FAILURE,
        ),
        Event(bits).spec_subscription_record().sctp_peer_error_event == spec_flag(bits, PEER_ERROR),
        Event(bits).spec_subscription_record().sctp_shutdown_event == spec_flag(bits, SHUTDOWN),
        Event(bits).spec_subscription_record().sctp_partial_delivery_event == spec_flag(
            bits,
            PARTIAL_DELIVERY,
        ),
        Event(bits).spec_subscription_record().sctp_adaptation_layer_event == spec_flag(
            bits,
            ADAPTATION_LAYER,
        ),
        Event(bits).spec_subscription_record().sctp_authentication_event == spec_flag(
            bits,
            AUTHENTICATION,
        ),
        Event(bits).spec_subscription_record().sctp_sender_dry_event == spec_flag(
            bits,
            SENDER_DRY,
        ),
{
}

/// Inserting a mask whose categories a mask does not hold and then removing
/// it gives the original mask back: insert then remove of the same event is
/// a no-op on an otherwise-unmodified mask.
pub proof fn lemma_insert_remove_noop(m: usize, e: usize)
    by (bit_vector)
    requires
        m & e == 0,
    ensures
        (m | e) & !e == m,
{
}

/// Membership after an insert: the inserted categories are in the mask, and
/// every category already there stays.
pub proof fn lemma_insert_contains(m: usize, e: usize, q: usize)
    by (bit_vector)
    ensures
        (m | e) & e == e,
        m & q == q ==> (m | e) & q == q,
{
}

/// Membership after a remove: no removed category stays in the mask.
pub proof fn lemma_remove_excludes(m: usize, e: usize)
    by (bit_vector)
    requires
        e != 0,
    ensures
        !((m & !e) & e == e),
{
}

} // verus!
