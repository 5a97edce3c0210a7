//! Locating the target device among scan events.
//!
//! A caller supplies a [`TargetIdentity`]: an optional device name and an
//! optional 48-bit address, of which at least one is meant to be set. The
//! identity is a match filter: each discovered device is held against it,
//! and the first device satisfying either predicate wins — an exact
//! address match, or an exact name match when a non-empty name was
//! supplied. There is no scoring and no disambiguation of equally named
//! devices; a caller who needs that passes an address.

use vstd::prelude::*;
use crate::address::Address;
use crate::errors::NusError;

verus! {

/// The caller-supplied match filter for discovery. An empty `name` means
/// "no name given"; `addr` is `None` when no address was given.
pub struct TargetIdentity {
    pub name: String,
    pub addr: Option<Address>,
}

impl TargetIdentity {
    /// At least one of the two fields carries information.
    pub open spec fn specified(self) -> bool {
        self.name@.len() > 0 || self.addr is Some
    }
}

/// What a scan reports about one discovered device: its address and, when
/// the device advertises one, its local name.
pub struct ScanEvent {
    pub addr: Address,
    pub name: Option<String>,
}

/// The identity names an address and the device is at it.
pub open spec fn addr_matches(id: TargetIdentity, ev: ScanEvent) -> bool {
    id.addr matches Some(a) && ev.addr == a
}

/// The identity names a non-empty name and the device advertises exactly
/// that name.
pub open spec fn name_matches(id: TargetIdentity, ev: ScanEvent) -> bool {
    id.name@.len() > 0 && (ev.name matches Some(n) && n@ == id.name@)
}

/// A device satisfies the filter by address or by name.
pub open spec fn event_matches(id: TargetIdentity, ev: ScanEvent) -> bool {
    addr_matches(id, ev) || name_matches(id, ev)
}

/// Decides whether one discovered device satisfies the filter. The
/// address predicate is checked first and wins on its own, so a device
/// that matches by address is accepted whatever it advertises as a name —
/// an unnamed device included.
pub fn matches_event(id: &TargetIdentity, ev: &ScanEvent) -> (r: bool)
    ensures
        r == event_matches(*id, *ev),
{
    if let Some(a) = &id.addr {
        if ev.addr == *a {
            return true;
        }
    }
    if !id.name.as_str().is_empty() {
        if let Some(n) = &ev.name {
            if id.name == *n {
                return true;
            }
        }
    }
    false
}

/// An address match alone settles discovery: no name comparison is owed,
/// and the advertised name — present, absent or different — cannot undo
/// it.
pub proof fn lemma_address_match_wins(id: TargetIdentity, ev: ScanEvent)
    requires
        id.addr is Some,
        ev.addr == id.addr->0,
    ensures
        event_matches(id, ev),
{
}

/// An identity that carries neither a name nor an address matches no
/// device at all: such a discovery can only end exhausted.
pub proof fn lemma_unspecified_matches_nothing(id: TargetIdentity, ev: ScanEvent)
    requires
        !id.specified(),
    ensures
        !event_matches(id, ev),
{
}

/// Runs the match filter over a closed scan stream, given as the events
/// in arrival order. Returns the index of the first matching event;
/// when the stream ends without a match, discovery is exhausted. Either
/// way it terminates: a closed stream is never scanned twice.
pub fn find_match(id: &TargetIdentity, events: &Vec<ScanEvent>) -> (r: Result<usize, NusError>)
    ensures
        match r {
            Ok(i) => i < events@.len() && event_matches(*id, events@[i as int]) && (forall|j: int|
                0 <= j < i ==> !event_matches(*id, events@[j])),
            Err(e) => e == NusError::DiscoveryExhausted && (forall|j: int|
                0 <= j < events@.len() ==> !event_matches(*id, events@[j])),
        },
{
    let mut i: usize = 0;
    while i < events.len()
        invariant
            0 <= i <= events@.len(),
            forall|j: int| 0 <= j < i ==> !event_matches(*id, events@[j]),
        decreases events@.len() - i,
    {
        if matches_event(id, &events[i]) {
            return Ok(i);
        }
        i = i + 1;
    }
    Err(NusError::DiscoveryExhausted)
}

} // verus!
