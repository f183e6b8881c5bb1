use buttplug::actuator::DeviceFeatureActuator;
use buttplug::device_feature::{copy_catalog, DeviceFeature};
use buttplug::errors::ButtplugError;
use buttplug::feature_type::FeatureType;
use buttplug::message_set::MessageSet;
use buttplug::message_type::{ButtplugDeviceMessageType, Endpoint};
use buttplug::raw::DeviceFeatureRaw;
use buttplug::sensor::DeviceFeatureSensor;

fn scalar_messages() -> MessageSet {
    MessageSet::from_slice(&[
        ButtplugDeviceMessageType::ScalarCmd,
        ButtplugDeviceMessageType::StopDeviceCmd,
    ])
}

fn sensor_messages() -> MessageSet {
    MessageSet::from_slice(&[ButtplugDeviceMessageType::SensorReadCmd])
}

#[test]
fn new_actuator_has_no_step_limit() {
    let actuator = DeviceFeatureActuator::new(&(0..=20), &scalar_messages());
    assert_eq!(*actuator.step_range(), 0..=20);
    assert_eq!(*actuator.step_limit(), None);
    assert_eq!(*actuator.messages(), scalar_messages());
}

#[test]
fn step_limit_within_range_is_taken() {
    let mut actuator = DeviceFeatureActuator::new(&(2..=20), &scalar_messages());
    assert_eq!(actuator.set_step_limit(&(5..=10)), Ok(()));
    assert_eq!(*actuator.step_limit(), Some(5..=10));
    assert_eq!(*actuator.step_range(), 2..=20);
    assert_eq!(*actuator.messages(), scalar_messages());
    assert_eq!(actuator.set_step_limit(&(2..=20)), Ok(()));
    assert_eq!(*actuator.step_limit(), Some(2..=20));
    assert_eq!(actuator.set_step_limit(&(2..=2)), Ok(()));
    assert_eq!(*actuator.step_limit(), Some(2..=2));
    assert_eq!(actuator.set_step_limit(&(20..=20)), Ok(()));
    assert_eq!(*actuator.step_limit(), Some(20..=20));
}

#[test]
fn step_limit_outside_range_is_refused() {
    let mut actuator = DeviceFeatureActuator::new(&(2..=20), &scalar_messages());
    assert_eq!(actuator.set_step_limit(&(1..=10)), Err(ButtplugError::RangeError));
    assert_eq!(actuator.set_step_limit(&(5..=21)), Err(ButtplugError::RangeError));
    assert_eq!(actuator.set_step_limit(&(0..=30)), Err(ButtplugError::RangeError));
    assert_eq!(actuator.set_step_limit(&(10..=5)), Err(ButtplugError::RangeError));
    assert_eq!(actuator.set_step_limit(&(21..=25)), Err(ButtplugError::RangeError));
    assert_eq!(*actuator.step_limit(), None);
    assert_eq!(actuator.set_step_limit(&(5..=10)), Ok(()));
    assert_eq!(actuator.set_step_limit(&(5..=21)), Err(ButtplugError::RangeError));
    assert_eq!(*actuator.step_limit(), Some(5..=10));
}

#[test]
fn step_limit_iff_within_range() {
    let lo = 3u32;
    let hi = 6u32;
    for lo2 in 0..9u32 {
        for hi2 in 0..9u32 {
            let mut actuator = DeviceFeatureActuator::new(&(lo..=hi), &MessageSet::new());
            let expected = lo <= lo2 && lo2 <= hi2 && hi2 <= hi;
            let outcome = actuator.set_step_limit(&(lo2..=hi2));
            if expected {
                assert_eq!(outcome, Ok(()));
                assert_eq!(*actuator.step_limit(), Some(lo2..=hi2));
            } else {
                assert_eq!(outcome, Err(ButtplugError::RangeError));
                assert_eq!(*actuator.step_limit(), None);
            }
        }
    }
}

#[test]
fn no_step_limit_fits_an_empty_step_range() {
    let mut actuator = DeviceFeatureActuator::new(&(7..=3), &MessageSet::new());
    assert_eq!(actuator.set_step_limit(&(4..=5)), Err(ButtplugError::RangeError));
    assert_eq!(actuator.set_step_limit(&(7..=3)), Err(ButtplugError::RangeError));
    assert_eq!(actuator.set_step_limit(&(3..=7)), Err(ButtplugError::RangeError));
}

#[test]
fn actuators_compare_by_every_field() {
    let actuator = DeviceFeatureActuator::new(&(0..=20), &scalar_messages());
    assert_eq!(actuator, DeviceFeatureActuator::new(&(0..=20), &scalar_messages()));
    assert_eq!(actuator, actuator.clone());
    assert_ne!(actuator, DeviceFeatureActuator::new(&(1..=20), &scalar_messages()));
    assert_ne!(actuator, DeviceFeatureActuator::new(&(0..=19), &scalar_messages()));
    assert_ne!(actuator, DeviceFeatureActuator::new(&(0..=20), &sensor_messages()));
    let mut limited = actuator.clone();
    assert_eq!(limited.set_step_limit(&(0..=10)), Ok(()));
    assert_ne!(actuator, limited);
    assert_eq!(limited, limited.clone());
    let mut other = actuator.clone();
    assert_eq!(other.set_step_limit(&(0..=11)), Ok(()));
    assert_ne!(other, limited);
}

#[test]
fn new_sensor_keeps_its_channels() {
    let ranges = vec![0..=100, -5..=5];
    let sensor = DeviceFeatureSensor::new(&ranges, &sensor_messages());
    assert_eq!(*sensor.value_range(), ranges);
    assert_eq!(*sensor.messages(), sensor_messages());
    let empty = DeviceFeatureSensor::default();
    assert_eq!(*empty.value_range(), vec![]);
    assert!(empty.messages().is_empty());
    assert_eq!(empty, DeviceFeatureSensor::new(&vec![], &MessageSet::new()));
}

#[test]
fn sensor_admits_readings_within_its_channels() {
    let sensor = DeviceFeatureSensor::new(&vec![0..=100, -5..=5], &sensor_messages());
    assert!(sensor.admits_reading(&[0, -5]));
    assert!(sensor.admits_reading(&[100, 5]));
    assert!(sensor.admits_reading(&[50, 0]));
    assert!(!sensor.admits_reading(&[101, 0]));
    assert!(!sensor.admits_reading(&[-1, 0]));
    assert!(!sensor.admits_reading(&[50, 6]));
    assert!(!sensor.admits_reading(&[50, -6]));
    assert!(!sensor.admits_reading(&[50]));
    assert!(!sensor.admits_reading(&[50, 0, 0]));
    assert!(!sensor.admits_reading(&[]));
    assert!(DeviceFeatureSensor::default().admits_reading(&[]));
    assert!(!DeviceFeatureSensor::default().admits_reading(&[0]));
}

#[test]
fn sensors_compare_by_every_field() {
    let sensor = DeviceFeatureSensor::new(&vec![0..=100, -5..=5], &sensor_messages());
    assert_eq!(sensor, DeviceFeatureSensor::new(&vec![0..=100, -5..=5], &sensor_messages()));
    assert_eq!(sensor, sensor.clone());
    assert_ne!(sensor, DeviceFeatureSensor::new(&vec![0..=100], &sensor_messages()));
    assert_ne!(sensor, DeviceFeatureSensor::new(&vec![-5..=5, 0..=100], &sensor_messages()));
    assert_ne!(sensor, DeviceFeatureSensor::new(&vec![0..=100, -5..=6], &sensor_messages()));
    assert_ne!(sensor, DeviceFeatureSensor::new(&vec![0..=100, -5..=5], &scalar_messages()));
}

#[test]
fn raw_always_has_the_four_raw_kinds() {
    let expected = vec![
        ButtplugDeviceMessageType::RawWriteCmd,
        ButtplugDeviceMessageType::RawReadCmd,
        ButtplugDeviceMessageType::RawSubscribeCmd,
        ButtplugDeviceMessageType::RawUnsubscribeCmd,
    ];
    let none = DeviceFeatureRaw::new(&[]);
    assert_eq!(*none.endpoints(), vec![]);
    assert_eq!(none.messages().to_vec(), expected);
    assert_eq!(none.messages().len(), 4);
    let some = DeviceFeatureRaw::new(&[Endpoint::Tx, Endpoint::Rx, Endpoint::Tx]);
    assert_eq!(*some.endpoints(), vec![Endpoint::Tx, Endpoint::Rx, Endpoint::Tx]);
    assert_eq!(some.messages().to_vec(), expected);
    assert!(some.messages().contains(ButtplugDeviceMessageType::RawReadCmd));
    assert!(some.messages().contains(ButtplugDeviceMessageType::RawWriteCmd));
    assert!(some.messages().contains(ButtplugDeviceMessageType::RawSubscribeCmd));
    assert!(some.messages().contains(ButtplugDeviceMessageType::RawUnsubscribeCmd));
    assert!(!some.messages().contains(ButtplugDeviceMessageType::VibrateCmd));
    assert_eq!(DeviceFeatureRaw::default(), none);
    assert_ne!(some, none);
    assert_eq!(some, some.clone());
    assert_ne!(some, DeviceFeatureRaw::new(&[Endpoint::Tx, Endpoint::Rx]));
}

#[test]
fn new_feature_copies_its_arguments() {
    let actuator = Some(DeviceFeatureActuator::new(&(0..=20), &scalar_messages()));
    let feature = DeviceFeature::new("Clitoral Stimulator", FeatureType::Vibrate, &actuator, &None);
    assert_eq!(feature.description(), "Clitoral Stimulator");
    assert_eq!(*feature.feature_type(), FeatureType::Vibrate);
    assert_eq!(*feature.actuator(), actuator);
    assert_eq!(*feature.sensor(), None);
    let blank = DeviceFeature::default();
    assert_eq!(blank.description(), "");
    assert_eq!(*blank.feature_type(), FeatureType::Unknown);
    assert_eq!(*blank.actuator(), None);
    assert_eq!(*blank.sensor(), None);
    assert_eq!(blank, DeviceFeature::new("", FeatureType::Unknown, &None, &None));
}

#[test]
fn features_built_alike_are_equal() {
    let actuator = Some(DeviceFeatureActuator::new(&(0..=20), &scalar_messages()));
    let sensor = Some(DeviceFeatureSensor::new(&vec![0..=100], &sensor_messages()));
    let feature = DeviceFeature::new("Motor", FeatureType::Vibrate, &actuator, &None);
    assert_eq!(feature, DeviceFeature::new("Motor", FeatureType::Vibrate, &actuator, &None));
    assert_eq!(feature, feature.clone());
    assert_ne!(feature, DeviceFeature::new("Motor 2", FeatureType::Vibrate, &actuator, &None));
    assert_ne!(feature, DeviceFeature::new("Motor", FeatureType::Rotate, &actuator, &None));
    assert_ne!(feature, DeviceFeature::new("Motor", FeatureType::Vibrate, &None, &None));
    assert_ne!(feature, DeviceFeature::new("Motor", FeatureType::Vibrate, &actuator, &sensor));
    let other = Some(DeviceFeatureActuator::new(&(0..=21), &scalar_messages()));
    assert_ne!(feature, DeviceFeature::new("Motor", FeatureType::Vibrate, &other, &None));
    let both = DeviceFeature::new("Motor", FeatureType::Vibrate, &actuator, &sensor);
    assert_eq!(both, DeviceFeature::new("Motor", FeatureType::Vibrate, &actuator, &sensor));
    let other_sensor = Some(DeviceFeatureSensor::new(&vec![0..=99], &sensor_messages()));
    assert_ne!(both, DeviceFeature::new("Motor", FeatureType::Vibrate, &actuator, &other_sensor));
}

#[test]
fn validate_accepts_one_capability() {
    let actuator = Some(DeviceFeatureActuator::new(&(0..=20), &scalar_messages()));
    let sensor = Some(DeviceFeatureSensor::new(&vec![0..=100], &sensor_messages()));
    let types = [
        FeatureType::Unknown,
        FeatureType::Vibrate,
        FeatureType::Rotate,
        FeatureType::Oscillate,
        FeatureType::Constrict,
        FeatureType::Inflate,
        FeatureType::Position,
        FeatureType::Battery,
        FeatureType::RSSI,
        FeatureType::Button,
        FeatureType::Pressure,
        FeatureType::Raw,
    ];
    for feature_type in types {
        assert_eq!(DeviceFeature::new("f", feature_type, &actuator, &None).validate(), Ok(()));
        assert_eq!(DeviceFeature::new("f", feature_type, &None, &sensor).validate(), Ok(()));
    }
}

#[test]
fn validate_refuses_both_and_missing_capabilities() {
    let actuator = Some(DeviceFeatureActuator::new(&(0..=20), &scalar_messages()));
    let sensor = Some(DeviceFeatureSensor::new(&vec![0..=100], &sensor_messages()));
    let types = [
        FeatureType::Unknown,
        FeatureType::Vibrate,
        FeatureType::Rotate,
        FeatureType::Oscillate,
        FeatureType::Constrict,
        FeatureType::Inflate,
        FeatureType::Position,
        FeatureType::Battery,
        FeatureType::RSSI,
        FeatureType::Button,
        FeatureType::Pressure,
        FeatureType::Raw,
    ];
    for feature_type in types {
        assert_eq!(
            DeviceFeature::new("f", feature_type, &actuator, &sensor).validate(),
            Err(ButtplugError::ConfigurationError)
        );
        let neither = DeviceFeature::new("f", feature_type, &None, &None).validate();
        if feature_type == FeatureType::Raw || feature_type == FeatureType::Unknown {
            assert_eq!(neither, Ok(()));
        } else {
            assert_eq!(neither, Err(ButtplugError::ConfigurationError));
        }
    }
}

#[test]
fn copy_catalog_keeps_every_feature() {
    let actuator = Some(DeviceFeatureActuator::new(&(0..=20), &scalar_messages()));
    let features = vec![
        DeviceFeature::new("a", FeatureType::Vibrate, &actuator, &None),
        DeviceFeature::new("b", FeatureType::Raw, &None, &None),
    ];
    assert_eq!(copy_catalog(&features), features);
    assert_eq!(copy_catalog(&vec![]), vec![]);
}
