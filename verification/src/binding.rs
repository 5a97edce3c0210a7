//! Resolving the two well-known characteristics of a freshly connected
//! device, and the small decisions around adapter choice, subscription
//! and notification filtering.
//!
//! A session is usable only once both characteristics are resolved and
//! the notify channel is subscribed; when any of that fails the session
//! is never constructed — there is no degraded mode.

use vstd::prelude::*;
use crate::errors::NusError;
use crate::nus_uuids::{NUS_RX_CHAR_UUID, NUS_TX_CHAR_UUID};

verus! {

/// What the logic reads of one discovered characteristic: its UUID.
#[derive(Clone, Copy, Debug, PartialEq, Eq, Structural)]
pub struct CharacteristicInfo {
    pub uuid: u128,
}

/// Positions of the two resolved channels in the device's characteristic
/// list: `write_index` is the client's data sink, `notify_index` the
/// device's data source.
#[derive(Clone, Copy, Debug, PartialEq, Eq, Structural)]
pub struct CharacteristicBinding {
    pub write_index: usize,
    pub notify_index: usize,
}

/// True when some characteristic in the list carries the UUID.
pub open spec fn has_uuid(chars: Seq<CharacteristicInfo>, uuid: u128) -> bool {
    exists|j: int| 0 <= j < chars.len() && chars[j].uuid == uuid
}

/// Finds the first characteristic carrying the UUID, if any.
pub fn find_characteristic_by_uuid(chars: &Vec<CharacteristicInfo>, uuid: u128) -> (r: Option<
    usize,
>)
    ensures
        match r {
            Some(i) => i < chars@.len() && chars@[i as int].uuid == uuid && (forall|j: int|
                0 <= j < i ==> chars@[j].uuid != uuid),
            None => !has_uuid(chars@, uuid),
        },
{
    let mut i: usize = 0;
    while i < chars.len()
        invariant
            0 <= i <= chars@.len(),
            forall|j: int| 0 <= j < i ==> chars@[j].uuid != uuid,
        decreases chars@.len() - i,
    {
        if chars[i].uuid == uuid {
            return Some(i);
        }
        i = i + 1;
    }
    None
}

/// Resolves both channels from the device's characteristic list. Fails
/// with [`NusError::CharacteristicNotFound`] exactly when either
/// well-known UUID is absent; no partial binding is ever returned.
pub fn resolve_binding(chars: &Vec<CharacteristicInfo>) -> (r: Result<
    CharacteristicBinding,
    NusError,
>)
    ensures
        match r {
            Ok(b) => {
                &&& b.write_index < chars@.len()
                &&& chars@[b.write_index as int].uuid == NUS_RX_CHAR_UUID
                &&& forall|j: int| 0 <= j < b.write_index ==> chars@[j].uuid != NUS_RX_CHAR_UUID
                &&& b.notify_index < chars@.len()
                &&& chars@[b.notify_index as int].uuid == NUS_TX_CHAR_UUID
                &&& forall|j: int| 0 <= j < b.notify_index ==> chars@[j].uuid != NUS_TX_CHAR_UUID
            },
            Err(e) => e == NusError::CharacteristicNotFound && (!has_uuid(
                chars@,
                NUS_RX_CHAR_UUID,
            ) || !has_uuid(chars@, NUS_TX_CHAR_UUID)),
        },
{
    let write_index = match find_characteristic_by_uuid(chars, NUS_RX_CHAR_UUID) {
        Some(i) => i,
        None => {
            return Err(NusError::CharacteristicNotFound);
        },
    };
    let notify_index = match find_characteristic_by_uuid(chars, NUS_TX_CHAR_UUID) {
        Some(i) => i,
        None => {
            return Err(NusError::CharacteristicNotFound);
        },
    };
    Ok(CharacteristicBinding { write_index, notify_index })
}

/// Chooses the radio adapter: the first one, and only when there is one
/// at all.
pub fn select_adapter(adapter_count: usize) -> (r: Result<usize, NusError>)
    ensures
        match r {
            Ok(i) => adapter_count > 0 && i == 0,
            Err(e) => adapter_count == 0 && e == NusError::NoAdapter,
        },
{
    if adapter_count == 0 {
        Err(NusError::NoAdapter)
    } else {
        Ok(0)
    }
}

/// Turns the link's answer to the subscription request into the session's
/// fate: a rejected subscription aborts construction.
pub fn confirm_subscription(accepted: bool) -> (r: Result<(), NusError>)
    ensures
        r is Ok <==> accepted,
        r is Err ==> r->Err_0 == NusError::Subscription,
{
    if accepted {
        Ok(())
    } else {
        Err(NusError::Subscription)
    }
}

/// One inbound notification as the radio stack hands it over: the UUID of
/// the characteristic it arrived on, and its payload.
pub struct Notification {
    pub uuid: u128,
    pub value: Vec<u8>,
}

/// Keeps a notification only when it arrived on the bound notify channel;
/// anything a peripheral emits on another characteristic is ignored. An
/// accepted payload is handed over verbatim.
pub fn filter_notification(channel: u128, n: Notification) -> (r: Option<Vec<u8>>)
    ensures
        r is Some <==> n.uuid == channel,
        r is Some ==> r->0@ == n.value@,
{
    if n.uuid == channel {
        Some(n.value)
    } else {
        None
    }
}

} // verus!
