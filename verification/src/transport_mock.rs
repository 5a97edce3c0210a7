//! A stand-in transport with no device behind it: sends always succeed
//! and the payload goes nowhere at run time (only the ghost history
//! records it), and receives always answer at once with an empty payload.
//! It exercises the interactive loop without hardware.

use vstd::prelude::*;
use crate::errors::NusError;
use crate::transport::NusTransport;

verus! {

/// Mock MTU hint, mirroring a typical negotiated link.
pub const MOCK_MTU: usize = 244;

/// The no-op transport. `name` is carried for display only.
pub struct NusTransportMock {
    name: String,
    sent: Ghost<Seq<Seq<u8>>>,
}

impl NusTransport for NusTransportMock {
    closed spec fn sent_log(&self) -> Seq<Seq<u8>> {
        self.sent@
    }

    closed spec fn pending(&self) -> Seq<Seq<u8>> {
        Seq::empty()
    }

    open spec fn mtu_spec(&self) -> usize {
        MOCK_MTU
    }

    fn mtu(&self) -> (r: usize) {
        MOCK_MTU
    }

    /// The mock's send never fails; the payload is only recorded in the
    /// ghost history.
    fn send(&mut self, bytes: &Vec<u8>) -> (r: Result<(), NusError>)
        ensures
            r is Ok,
    {
        self.sent = Ghost(self.sent@.push(bytes@));
        Ok(())
    }

    /// The mock's recv never fails and never blocks: with nothing ever
    /// pending, the trait contract makes the payload empty.
    fn recv(&mut self) -> (r: Result<Vec<u8>, NusError>)
        ensures
            r is Ok,
    {
        Ok(Vec::new())
    }
}

impl NusTransportMock {
    /// The display name this mock was created with.
    pub closed spec fn display_name(&self) -> Seq<char> {
        self.name@
    }

    /// A fresh mock that has sent nothing, carrying the given name.
    pub fn new(name: String) -> (r: NusTransportMock)
        ensures
            r.sent_log() == Seq::<Seq<u8>>::empty(),
            r.pending() == Seq::<Seq<u8>>::empty(),
            r.display_name() == name@,
    {
        NusTransportMock { name, sent: Ghost(Seq::empty()) }
    }
}

} // verus!
