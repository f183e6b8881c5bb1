//! The closed taxonomy of what a device feature is, and the total mappings
//! from actuator and sensor subtypes into it.

use vstd::prelude::*;

verus! {

/// What an actuator does when it is commanded.
#[derive(Clone, Copy, Debug, PartialEq, Eq, Structural, Hash)]
pub enum ActuatorType {
    Unknown,
    Vibrate,
    Rotate,
    Oscillate,
    Constrict,
    Inflate,
    Position,
}

/// What a sensor measures.
#[derive(Clone, Copy, Debug, PartialEq, Eq, Structural, Hash)]
pub enum SensorType {
    Unknown,
    Battery,
    RSSI,
    Button,
    Pressure,
}

/// What a feature semantically is, whichever side of the device it is on.
#[derive(Clone, Copy, Debug, PartialEq, Eq, Structural, Hash)]
pub enum FeatureType {
    Unknown,
    Vibrate,
    Rotate,
    Oscillate,
    Constrict,
    Inflate,
    Position,
    Battery,
    RSSI,
    Button,
    Pressure,
    Raw,
}

impl Default for FeatureType {
    fn default() -> (r: Self)
        ensures
            r == FeatureType::Unknown,
    {
        FeatureType::Unknown
    }
}

/// The feature type that an actuator subtype stands for.
pub open spec fn actuator_feature_type(value: ActuatorType) -> FeatureType {
    match value {
        ActuatorType::Unknown => FeatureType::Unknown,
        ActuatorType::Vibrate => FeatureType::Vibrate,
        ActuatorType::Rotate => FeatureType::Rotate,
        ActuatorType::Oscillate => FeatureType::Oscillate,
        ActuatorType::Constrict => FeatureType::Constrict,
        ActuatorType::Inflate => FeatureType::Inflate,
        ActuatorType::Position => FeatureType::Position,
    }
}

/// The feature type that a sensor subtype stands for.
pub open spec fn sensor_feature_type(value: SensorType) -> FeatureType {
    match value {
        SensorType::Unknown => FeatureType::Unknown,
        SensorType::Battery => FeatureType::Battery,
        SensorType::RSSI => FeatureType::RSSI,
        SensorType::Button => FeatureType::Button,
        SensorType::Pressure => FeatureType::Pressure,
    }
}

/// Every actuator subtype and every sensor subtype stands for one feature
/// type of its own. Only the two `Unknown` subtypes stand for `Unknown`,
/// and they alone for the same feature type; none stands for `Raw`.
pub proof fn lemma_subtypes_map_one_to_one()
    ensures
        forall|a: ActuatorType, b: ActuatorType|
            actuator_feature_type(a) == actuator_feature_type(b) ==> a == b,
        forall|a: SensorType, b: SensorType|
            sensor_feature_type(a) == sensor_feature_type(b) ==> a == b,
        forall|a: ActuatorType|
            #[trigger] actuator_feature_type(a) == FeatureType::Unknown <==> a
                == ActuatorType::Unknown,
        forall|s: SensorType|
            #[trigger] sensor_feature_type(s) == FeatureType::Unknown <==> s == SensorType::Unknown,
        forall|a: ActuatorType, s: SensorType|
            actuator_feature_type(a) == sensor_feature_type(s) ==> a == ActuatorType::Unknown && s
                == SensorType::Unknown,
        forall|a: ActuatorType| #[trigger] actuator_feature_type(a) != FeatureType::Raw,
        forall|s: SensorType| #[trigger] sensor_feature_type(s) != FeatureType::Raw,
{
}

impl vstd::std_specs::convert::FromSpecImpl<ActuatorType> for FeatureType {
    open spec fn obeys_from_spec() -> bool {
        true
    }

    open spec fn from_spec(value: ActuatorType) -> Self {
        actuator_feature_type(value)
    }
}

impl From<ActuatorType> for FeatureType {
    fn from(value: ActuatorType) -> (r: Self) {
        match value {
            ActuatorType::Unknown => FeatureType::Unknown,
            ActuatorType::Vibrate => FeatureType::Vibrate,
            ActuatorType::Rotate => FeatureType::Rotate,
            ActuatorType::Oscillate => FeatureType::Oscillate,
            ActuatorType::Constrict => FeatureType::Constrict,
            ActuatorType::Inflate => FeatureType::Inflate,
            ActuatorType::Position => FeatureType::Position,
        }
    }
}

impl vstd::std_specs::convert::FromSpecImpl<SensorType> for FeatureType {
    open spec fn obeys_from_spec() -> bool {
        true
    }

    open spec fn from_spec(value: SensorType) -> Self {
        sensor_feature_type(value)
    }
}

impl From<SensorType> for FeatureType {
    fn from(value: SensorType) -> (r: Self) {
        match value {
            SensorType::Unknown => FeatureType::Unknown,
            SensorType::Battery => FeatureType::Battery,
            SensorType::RSSI => FeatureType::RSSI,
            SensorType::Button => FeatureType::Button,
            SensorType::Pressure => FeatureType::Pressure,
        }
    }
}

} // verus!
