//! Line-oriented terminal client core for a BLE serial-emulation service
//! (one write characteristic, one notify characteristic).
//!
//! The crate holds the decision logic of the client: locating and binding
//! the correct remote device and its two characteristics, and the
//! interactive loop that interleaves sending user-typed lines with
//! displaying asynchronously arriving device data. Radio and terminal
//! plumbing stay outside; the logic here works on plain values.

pub mod address;
pub mod binding;
pub mod discovery;
pub mod errors;
pub mod nus_uuids;
pub mod session;
pub mod transport;
pub mod transport_mock;
pub mod transport_sim;

use vstd::prelude::*;

verus! {

} // verus!
