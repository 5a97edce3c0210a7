use nusterm::address::{parse_address, Address};
use nusterm::discovery::{find_match, matches_event, ScanEvent, TargetIdentity};
use nusterm::errors::NusError;

fn addr(text: &str) -> Address {
    parse_address(text.as_bytes()).expect("address text should parse")
}

#[test]
fn parse_address_accepts_canonical_form() {
    let a = addr("AA:BB:CC:DD:EE:FF");
    assert_eq!(a.value, 0xAABBCCDDEEFF);
}

#[test]
fn parse_address_accepts_lower_and_mixed_case() {
    assert_eq!(addr("aa:bb:cc:dd:ee:ff").value, 0xAABBCCDDEEFF);
    assert_eq!(addr("0a:1B:2c:3D:4e:5F").value, 0x0A1B2C3D4E5F);
    assert_eq!(addr("00:00:00:00:00:00").value, 0);
}

#[test]
fn parse_address_rejects_unset_and_malformed_text() {
    assert!(parse_address(b"").is_none());
    assert!(parse_address(b"AA:BB:CC:DD:EE").is_none());
    assert!(parse_address(b"AA:BB:CC:DD:EE:FF:00").is_none());
    assert!(parse_address(b"AA-BB-CC-DD-EE-FF").is_none());
    assert!(parse_address(b"AA:BB:CC:DD:EE:GG").is_none());
    assert!(parse_address(b"AABBCCDDEEFF").is_none());
}

#[test]
fn address_match_without_name_binds() {
    // The identity names no device name at all; the device advertises none.
    let id = TargetIdentity {
        name: String::new(),
        addr: Some(addr("AA:BB:CC:DD:EE:FF")),
    };
    let ev = ScanEvent {
        addr: addr("AA:BB:CC:DD:EE:FF"),
        name: None,
    };
    assert!(matches_event(&id, &ev));
}

#[test]
fn address_match_wins_even_when_name_also_matches() {
    let id = TargetIdentity {
        name: String::from("Widget"),
        addr: Some(addr("AA:BB:CC:DD:EE:FF")),
    };
    let both = ScanEvent {
        addr: addr("AA:BB:CC:DD:EE:FF"),
        name: Some(String::from("Widget")),
    };
    assert!(matches_event(&id, &both));
    // A different advertised name cannot undo an address match.
    let other_name = ScanEvent {
        addr: addr("AA:BB:CC:DD:EE:FF"),
        name: Some(String::from("Gadget")),
    };
    assert!(matches_event(&id, &other_name));
}

#[test]
fn name_match_requires_nonempty_exact_name() {
    let id = TargetIdentity {
        name: String::from("Widget"),
        addr: None,
    };
    let named = ScanEvent {
        addr: addr("11:22:33:44:55:66"),
        name: Some(String::from("Widget")),
    };
    assert!(matches_event(&id, &named));
    let unnamed = ScanEvent {
        addr: addr("11:22:33:44:55:66"),
        name: None,
    };
    assert!(!matches_event(&id, &unnamed));
    let other = ScanEvent {
        addr: addr("11:22:33:44:55:66"),
        name: Some(String::from("Gadget")),
    };
    assert!(!matches_event(&id, &other));
}

#[test]
fn empty_identity_matches_nothing() {
    let id = TargetIdentity {
        name: String::new(),
        addr: None,
    };
    let ev = ScanEvent {
        addr: addr("11:22:33:44:55:66"),
        name: Some(String::new()),
    };
    assert!(!matches_event(&id, &ev));
}

#[test]
fn find_match_returns_first_matching_event() {
    let id = TargetIdentity {
        name: String::from("Widget"),
        addr: None,
    };
    let events = vec![
        ScanEvent {
            addr: addr("11:22:33:44:55:66"),
            name: Some(String::from("Gadget")),
        },
        ScanEvent {
            addr: addr("22:33:44:55:66:77"),
            name: Some(String::from("Widget")),
        },
        ScanEvent {
            addr: addr("33:44:55:66:77:88"),
            name: Some(String::from("Widget")),
        },
    ];
    assert_eq!(find_match(&id, &events), Ok(1));
}

#[test]
fn find_match_exhausts_on_closed_stream_without_match() {
    let id = TargetIdentity {
        name: String::from("Widget"),
        addr: None,
    };
    let events = vec![ScanEvent {
        addr: addr("11:22:33:44:55:66"),
        name: Some(String::from("Gadget")),
    }];
    assert_eq!(find_match(&id, &events), Err(NusError::DiscoveryExhausted));
    assert_eq!(
        find_match(&id, &Vec::new()),
        Err(NusError::DiscoveryExhausted)
    );
}
