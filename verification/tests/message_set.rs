use buttplug::message_set::MessageSet;
use buttplug::message_type::ButtplugDeviceMessageType;

const ALL_KINDS: [ButtplugDeviceMessageType; 14] = [
    ButtplugDeviceMessageType::VibrateCmd,
    ButtplugDeviceMessageType::LinearCmd,
    ButtplugDeviceMessageType::RotateCmd,
    ButtplugDeviceMessageType::StopDeviceCmd,
    ButtplugDeviceMessageType::RawWriteCmd,
    ButtplugDeviceMessageType::RawReadCmd,
    ButtplugDeviceMessageType::RawSubscribeCmd,
    ButtplugDeviceMessageType::RawUnsubscribeCmd,
    ButtplugDeviceMessageType::BatteryLevelCmd,
    ButtplugDeviceMessageType::RSSILevelCmd,
    ButtplugDeviceMessageType::ScalarCmd,
    ButtplugDeviceMessageType::SensorReadCmd,
    ButtplugDeviceMessageType::SensorSubscribeCmd,
    ButtplugDeviceMessageType::SensorUnsubscribeCmd,
];

#[test]
fn new_set_is_empty() {
    let set = MessageSet::new();
    assert!(set.is_empty());
    assert_eq!(set.len(), 0);
    assert_eq!(set.to_vec(), vec![]);
    for kind in ALL_KINDS {
        assert!(!set.contains(kind));
    }
}

#[test]
fn insert_adds_one_kind_once() {
    for kind in ALL_KINDS {
        let mut set = MessageSet::new();
        assert!(set.insert(kind));
        assert!(!set.insert(kind));
        assert_eq!(set.len(), 1);
        assert!(!set.is_empty());
        assert_eq!(set.to_vec(), vec![kind]);
        for other in ALL_KINDS {
            assert_eq!(set.contains(other), other == kind);
        }
    }
}

#[test]
fn every_kind_fits_in_one_set() {
    let set = MessageSet::from_slice(&ALL_KINDS);
    assert_eq!(set.len(), 14);
    assert_eq!(set.to_vec(), ALL_KINDS.to_vec());
}

#[test]
fn from_slice_forgets_order_and_repeats() {
    let set = MessageSet::from_slice(&[
        ButtplugDeviceMessageType::StopDeviceCmd,
        ButtplugDeviceMessageType::VibrateCmd,
        ButtplugDeviceMessageType::StopDeviceCmd,
    ]);
    assert_eq!(set.len(), 2);
    assert_eq!(
        set.to_vec(),
        vec![ButtplugDeviceMessageType::VibrateCmd, ButtplugDeviceMessageType::StopDeviceCmd]
    );
    let mut other = MessageSet::new();
    other.insert(ButtplugDeviceMessageType::VibrateCmd);
    assert_ne!(set, other);
    other.insert(ButtplugDeviceMessageType::StopDeviceCmd);
    assert_eq!(set, other);
}

#[test]
fn from_empty_slice_is_empty() {
    assert_eq!(MessageSet::from_slice(&[]), MessageSet::new());
}
