//! The capability contract every backing link provides: `mtu`, `send`,
//! `recv`. The interactive loop depends only on this contract, never on a
//! concrete link, so a radio-backed session and a test double substitute
//! for one another.
//!
//! A transport is modelled by two histories: `sent_log`, the payloads the
//! device has been given so far, in order; and `pending`, the inbound
//! notifications already delivered by the device but not yet consumed,
//! oldest first.

use vstd::prelude::*;
use crate::errors::NusError;

verus! {

/// A bound serial-emulation link.
pub trait NusTransport {
    /// Every payload handed to the device so far, in order.
    spec fn sent_log(&self) -> Seq<Seq<u8>>;

    /// Inbound payloads delivered by the device and not yet consumed,
    /// oldest first.
    spec fn pending(&self) -> Seq<Seq<u8>>;

    /// The link's current payload-size hint.
    spec fn mtu_spec(&self) -> usize;

    /// Largest payload the link currently carries in one write — a hint
    /// for chunking, not promised to stay stable over the connection.
    fn mtu(&self) -> (r: usize)
        ensures
            r == self.mtu_spec(),
    ;

    /// Transmits `bytes` to the device's write channel: on success the
    /// device sees exactly one new write holding exactly `bytes` — never
    /// a truncation, never a duplicate. A rejected send delivers nothing
    /// and reports why; there is no retry. Receiving is untouched either
    /// way.
    fn send(&mut self, bytes: &Vec<u8>) -> (r: Result<(), NusError>)
        ensures
            r is Ok ==> final(self).sent_log() == old(self).sent_log().push(bytes@),
            r is Err ==> final(self).sent_log() == old(self).sent_log(),
            r is Err ==> (r->Err_0 == NusError::Timeout || r->Err_0 == NusError::Transport),
            final(self).pending() == old(self).pending(),
    ;

    /// Takes the next inbound notification: the oldest pending payload,
    /// verbatim. A link with nothing pending may answer with an empty
    /// payload or fail with a timeout; a failure consumes nothing. The
    /// send history is untouched either way.
    fn recv(&mut self) -> (r: Result<Vec<u8>, NusError>)
        ensures
            final(self).sent_log() == old(self).sent_log(),
            match r {
                Ok(payload) => if old(self).pending().len() > 0 {
                    payload@ == old(self).pending().first() && final(self).pending() == old(
                        self,
                    ).pending().drop_first()
                } else {
                    payload@.len() == 0 && final(self).pending() == old(self).pending()
                },
                Err(e) => final(self).pending() == old(self).pending() && (e == NusError::Timeout
                    || e == NusError::Transport),
            },
    ;
}

} // verus!
