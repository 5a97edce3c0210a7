//! Error taxonomy of the transport layer.
//!
//! The first three variants are fatal at startup: the session is never
//! constructed. `Timeout` and `Transport` arise inside a running session
//! and are reported to the display without ending the loop.

use vstd::prelude::*;

verus! {

/// Everything that can go wrong while binding to a device or while
/// exchanging data with it.
#[derive(Clone, Copy, Debug, PartialEq, Eq, Structural)]
pub enum NusError {
    /// No BLE radio adapter is available at all.
    NoAdapter,
    /// The scan event stream closed before any device matched the
    /// requested identity.
    DiscoveryExhausted,
    /// The device lacks one of the two well-known characteristics.
    CharacteristicNotFound,
    /// The link rejected the subscription to the notify characteristic.
    Subscription,
    /// A bounded wait on a send or receive elapsed; non-fatal.
    Timeout,
    /// A link-level failure on a send or receive; non-fatal in the loop.
    Transport,
}

} // verus!
