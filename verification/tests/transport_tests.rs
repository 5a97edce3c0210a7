use nusterm::binding::select_adapter;
use nusterm::errors::NusError;
use nusterm::transport::NusTransport;
use nusterm::transport_mock::NusTransportMock;
use nusterm::transport_sim::NusTransportSim;

#[test]
fn adapter_selection_takes_the_first_or_fails() {
    assert_eq!(select_adapter(0), Err(NusError::NoAdapter));
    assert_eq!(select_adapter(1), Ok(0));
    assert_eq!(select_adapter(3), Ok(0));
}

#[test]
fn mock_transport_is_a_quiet_link() {
    let mut t = NusTransportMock::new(String::from("mock"));
    assert_eq!(t.mtu(), 244);
    assert_eq!(t.send(&vec![1, 2, 3]), Ok(()));
    assert_eq!(t.recv(), Ok(Vec::new()));
}

#[test]
fn sim_transport_receives_exactly_what_was_sent() {
    // The device-visible writes are the sent payloads, verbatim and in
    // order: no truncation, no duplication.
    let mut t = NusTransportSim::new();
    assert_eq!(t.sent_count(), 0);
    assert_eq!(t.send(&vec![0x70, 0x69, 0x6E, 0x67]), Ok(()));
    assert_eq!(t.send(&Vec::new()), Ok(()));
    assert_eq!(t.sent_count(), 2);
    assert_eq!(t.sent_at(0), &vec![0x70, 0x69, 0x6E, 0x67]);
    assert_eq!(t.sent_at(1), &Vec::new());
}

#[test]
fn sim_transport_delivers_notifications_oldest_first() {
    let mut t = NusTransportSim::new();
    t.push_inbound(vec![1]);
    t.push_inbound(vec![2, 3]);
    assert_eq!(t.recv(), Ok(vec![1]));
    assert_eq!(t.recv(), Ok(vec![2, 3]));
    assert_eq!(t.recv(), Err(NusError::Timeout));
}

#[test]
fn sim_transport_mtu_is_a_fixed_hint() {
    let t = NusTransportSim::new();
    assert_eq!(t.mtu(), 244);
}
