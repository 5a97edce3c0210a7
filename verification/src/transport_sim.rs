//! A simulated device link for tests: what `send` transmits is kept and
//! can be read back, and inbound notifications are staged with
//! [`NusTransportSim::push_inbound`] before the loop under test consumes
//! them. Unlike the mock, a `recv` with nothing staged times out, as a
//! radio link would.

use vstd::prelude::*;
use crate::errors::NusError;
use crate::transport::NusTransport;
use crate::transport_mock::MOCK_MTU;

verus! {

/// A transport double whose histories are real data.
pub struct NusTransportSim {
    sent: Vec<Vec<u8>>,
    inbound: Vec<Vec<u8>>,
}

impl NusTransport for NusTransportSim {
    closed spec fn sent_log(&self) -> Seq<Seq<u8>> {
        self.sent.deep_view()
    }

    closed spec fn pending(&self) -> Seq<Seq<u8>> {
        self.inbound.deep_view()
    }

    open spec fn mtu_spec(&self) -> usize {
        MOCK_MTU
    }

    fn mtu(&self) -> (r: usize) {
        MOCK_MTU
    }

    /// The simulated link accepts every send.
    fn send(&mut self, bytes: &Vec<u8>) -> (r: Result<(), NusError>)
        ensures
            r is Ok,
    {
        let owned = vstd::slice::slice_to_vec(bytes.as_slice());
        self.sent.push(owned);
        proof {
            assert(self.sent.deep_view() =~~= old(self).sent.deep_view().push(bytes@));
            assert(self.inbound.deep_view() =~= old(self).inbound.deep_view());
        }
        Ok(())
    }

    /// The simulated link delivers whenever something is staged and times
    /// out exactly when nothing is, as a quiet radio would.
    fn recv(&mut self) -> (r: Result<Vec<u8>, NusError>)
        ensures
            r is Ok <==> old(self).pending().len() > 0,
            r is Err ==> r->Err_0 == NusError::Timeout,
    {
        if self.inbound.len() > 0 {
            let payload = self.inbound.remove(0);
            proof {
                assert(self.inbound.deep_view() =~= old(self).inbound.deep_view().drop_first());
                assert(self.sent.deep_view() =~= old(self).sent.deep_view());
            }
            Ok(payload)
        } else {
            Err(NusError::Timeout)
        }
    }
}

impl NusTransportSim {
    /// A fresh simulated link with empty histories.
    pub fn new() -> (r: NusTransportSim)
        ensures
            r.sent_log() == Seq::<Seq<u8>>::empty(),
            r.pending() == Seq::<Seq<u8>>::empty(),
    {
        let r = NusTransportSim { sent: Vec::new(), inbound: Vec::new() };
        proof {
            assert(r.sent.deep_view() =~= Seq::<Seq<u8>>::empty());
            assert(r.inbound.deep_view() =~= Seq::<Seq<u8>>::empty());
        }
        r
    }

    /// Stages one notification for the loop under test to receive.
    pub fn push_inbound(&mut self, payload: Vec<u8>)
        ensures
            final(self).pending() == old(self).pending().push(payload@),
            final(self).sent_log() == old(self).sent_log(),
    {
        let ghost p = payload@;
        self.inbound.push(payload);
        proof {
            assert(self.inbound.deep_view() =~~= old(self).inbound.deep_view().push(p));
            assert(self.sent.deep_view() =~= old(self).sent.deep_view());
        }
    }

    /// How many payloads have been transmitted so far.
    pub fn sent_count(&self) -> (r: usize)
        ensures
            r == self.sent_log().len(),
    {
        self.sent.len()
    }

    /// Reads back the `i`-th transmitted payload.
    pub fn sent_at(&self, i: usize) -> (r: &Vec<u8>)
        requires
            i < self.sent_log().len(),
        ensures
            r@ == self.sent_log()[i as int],
    {
        &self.sent[i]
    }
}

} // verus!
