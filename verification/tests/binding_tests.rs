use nusterm::binding::{
    confirm_subscription, filter_notification, find_characteristic_by_uuid, resolve_binding,
    CharacteristicInfo, Notification,
};
use nusterm::errors::NusError;
use nusterm::nus_uuids::{NUS_RX_CHAR_UUID, NUS_SVC_UUID, NUS_TX_CHAR_UUID};

#[test]
fn resolve_binding_finds_both_channels() {
    let chars = vec![
        CharacteristicInfo { uuid: NUS_SVC_UUID },
        CharacteristicInfo {
            uuid: NUS_TX_CHAR_UUID,
        },
        CharacteristicInfo {
            uuid: NUS_RX_CHAR_UUID,
        },
    ];
    let b = resolve_binding(&chars).expect("both channels should resolve");
    assert_eq!(b.write_index, 2);
    assert_eq!(b.notify_index, 1);
}

#[test]
fn resolve_binding_fails_without_notify_channel() {
    // The device lacks a characteristic with the notify UUID: no partial
    // session comes back.
    let chars = vec![
        CharacteristicInfo { uuid: NUS_SVC_UUID },
        CharacteristicInfo {
            uuid: NUS_RX_CHAR_UUID,
        },
    ];
    assert_eq!(
        resolve_binding(&chars),
        Err(NusError::CharacteristicNotFound)
    );
}

#[test]
fn resolve_binding_fails_without_write_channel() {
    let chars = vec![CharacteristicInfo {
        uuid: NUS_TX_CHAR_UUID,
    }];
    assert_eq!(
        resolve_binding(&chars),
        Err(NusError::CharacteristicNotFound)
    );
    assert_eq!(
        resolve_binding(&Vec::new()),
        Err(NusError::CharacteristicNotFound)
    );
}

#[test]
fn find_characteristic_by_uuid_returns_first_hit() {
    let chars = vec![
        CharacteristicInfo { uuid: 7 },
        CharacteristicInfo { uuid: 9 },
        CharacteristicInfo { uuid: 9 },
    ];
    assert_eq!(find_characteristic_by_uuid(&chars, 9), Some(1));
    assert_eq!(find_characteristic_by_uuid(&chars, 8), None);
}

#[test]
fn subscription_refusal_aborts_binding() {
    assert_eq!(confirm_subscription(true), Ok(()));
    assert_eq!(confirm_subscription(false), Err(NusError::Subscription));
}

#[test]
fn notifications_from_other_characteristics_are_ignored() {
    let kept = filter_notification(
        NUS_TX_CHAR_UUID,
        Notification {
            uuid: NUS_TX_CHAR_UUID,
            value: vec![1, 2, 3],
        },
    );
    assert_eq!(kept, Some(vec![1, 2, 3]));
    let dropped = filter_notification(
        NUS_TX_CHAR_UUID,
        Notification {
            uuid: NUS_SVC_UUID,
            value: vec![1, 2, 3],
        },
    );
    assert_eq!(dropped, None);
}
