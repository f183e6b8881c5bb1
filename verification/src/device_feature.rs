//! The description of one feature of a device: what it is, and either how
//! it is commanded or how it is read.

use crate::actuator::{ActuatorView, DeviceFeatureActuator};
use crate::errors::ButtplugError;
use crate::feature_type::FeatureType;
use crate::sensor::{DeviceFeatureSensor, SensorView};
use vstd::prelude::*;
use vstd::std_specs::cmp::PartialEqSpec;

verus! {

/// What a feature description says.
pub struct DescriptorView {
    pub description: Seq<char>,
    pub feature_type: FeatureType,
    pub actuator: Option<ActuatorView>,
    pub sensor: Option<SensorView>,
}

impl DescriptorView {
    /// Whether a feature of this type has to say how it is commanded or
    /// read: every type does but `Raw` and `Unknown`.
    pub open spec fn needs_capability(self) -> bool {
        self.feature_type != FeatureType::Raw && self.feature_type != FeatureType::Unknown
    }

    /// The actuator and the sensor are never both set, and one of them is
    /// set where the feature type needs one.
    pub open spec fn is_consistent(self) -> bool {
        &&& !(self.actuator is Some && self.sensor is Some)
        &&& self.needs_capability() ==> self.actuator is Some || self.sensor is Some
    }
}

/// What an optional actuator says.
pub open spec fn actuator_view(actuator: Option<DeviceFeatureActuator>) -> Option<ActuatorView> {
    match actuator {
        Some(actuator) => Some(actuator@),
        None => None,
    }
}

/// What an optional sensor says.
pub open spec fn sensor_view(sensor: Option<DeviceFeatureSensor>) -> Option<SensorView> {
    match sensor {
        Some(sensor) => Some(sensor@),
        None => None,
    }
}

/// What a list of features says, feature by feature.
pub open spec fn catalog_view(features: Seq<DeviceFeature>) -> Seq<DescriptorView> {
    Seq::new(features.len(), |i: int| features[i]@)
}

/// One thing a device can do or report.
#[derive(Debug)]
pub struct DeviceFeature {
    description: String,
    feature_type: FeatureType,
    actuator: Option<DeviceFeatureActuator>,
    sensor: Option<DeviceFeatureSensor>,
}

impl View for DeviceFeature {
    type V = DescriptorView;

    closed spec fn view(&self) -> DescriptorView {
        DescriptorView {
            description: self.description@,
            feature_type: self.feature_type,
            actuator: actuator_view(self.actuator),
            sensor: sensor_view(self.sensor),
        }
    }
}

fn copy_actuator(actuator: &Option<DeviceFeatureActuator>) -> (copy: Option<DeviceFeatureActuator>)
    ensures
        actuator_view(copy) == actuator_view(*actuator),
{
    match actuator {
        Some(actuator) => Some(actuator.clone()),
        None => None,
    }
}

fn copy_sensor(sensor: &Option<DeviceFeatureSensor>) -> (copy: Option<DeviceFeatureSensor>)
    ensures
        sensor_view(copy) == sensor_view(*sensor),
{
    match sensor {
        Some(sensor) => Some(sensor.clone()),
        None => None,
    }
}

impl DeviceFeature {
    /// A feature with the given description and type, and copies of the
    /// given actuator and sensor. Nothing is checked here: `validate` says
    /// whether the result is consistent.
    pub fn new(
        description: &str,
        feature_type: FeatureType,
        actuator: &Option<DeviceFeatureActuator>,
        sensor: &Option<DeviceFeatureSensor>,
    ) -> (feature: Self)
        ensures
            feature@ == (DescriptorView {
                description: description@,
                feature_type,
                actuator: actuator_view(*actuator),
                sensor: sensor_view(*sensor),
            }),
    {
        DeviceFeature {
            description: description.to_owned(),
            feature_type,
            actuator: copy_actuator(actuator),
            sensor: copy_sensor(sensor),
        }
    }

    /// Checks that the actuator and the sensor are not both set, and that
    /// one of them is set where the feature type needs one.
    pub fn validate(&self) -> (outcome: Result<(), ButtplugError>)
        ensures
            outcome is Ok <==> self@.is_consistent(),
            outcome is Err ==> outcome == Err::<(), ButtplugError>(
                ButtplugError::ConfigurationError,
            ),
    {
        let has_actuator = self.actuator.is_some();
        let has_sensor = self.sensor.is_some();
        let needs_one = match self.feature_type {
            FeatureType::Raw => false,
            FeatureType::Unknown => false,
            _ => true,
        };
        if has_actuator && has_sensor {
            Err(ButtplugError::ConfigurationError)
        } else if needs_one && !has_actuator && !has_sensor {
            Err(ButtplugError::ConfigurationError)
        } else {
            Ok(())
        }
    }

    /// The text that describes the feature.
    pub fn description(&self) -> (description: &String)
        ensures
            description@ == self@.description,
    {
        &self.description
    }

    /// What the feature is.
    pub fn feature_type(&self) -> (feature_type: &FeatureType)
        ensures
            *feature_type == self@.feature_type,
    {
        &self.feature_type
    }

    /// How the feature is commanded, where it is an actuator.
    pub fn actuator(&self) -> (actuator: &Option<DeviceFeatureActuator>)
        ensures
            actuator_view(*actuator) == self@.actuator,
    {
        &self.actuator
    }

    /// How the feature is read, where it is a sensor.
    pub fn sensor(&self) -> (sensor: &Option<DeviceFeatureSensor>)
        ensures
            sensor_view(*sensor) == self@.sensor,
    {
        &self.sensor
    }
}

impl Default for DeviceFeature {
    /// A feature of unknown type with an empty description, no actuator
    /// and no sensor.
    fn default() -> (feature: Self)
        ensures
            feature@ == (DescriptorView {
                description: Seq::<char>::empty(),
                feature_type: FeatureType::Unknown,
                actuator: None,
                sensor: None,
            }),
    {
        DeviceFeature {
            description: String::new(),
            feature_type: FeatureType::Unknown,
            actuator: None,
            sensor: None,
        }
    }
}

impl Clone for DeviceFeature {
    fn clone(&self) -> (copy: Self)
        ensures
            copy@ == self@,
    {
        DeviceFeature {
            description: self.description.clone(),
            feature_type: self.feature_type,
            actuator: copy_actuator(&self.actuator),
            sensor: copy_sensor(&self.sensor),
        }
    }
}

impl vstd::std_specs::cmp::PartialEqSpecImpl for DeviceFeature {
    open spec fn obeys_eq_spec() -> bool {
        true
    }

    open spec fn eq_spec(&self, other: &DeviceFeature) -> bool {
        self@ == other@
    }
}

impl PartialEq for DeviceFeature {
    /// Two features are equal when they say the same in every field.
    fn eq(&self, other: &DeviceFeature) -> (same: bool) {
        let same_actuator = match (&self.actuator, &other.actuator) {
            (Some(left), Some(right)) => left == right,
            (None, None) => true,
            _ => false,
        };
        let same_sensor = match (&self.sensor, &other.sensor) {
            (Some(left), Some(right)) => left == right,
            (None, None) => true,
            _ => false,
        };
        self.description == other.description && self.feature_type == other.feature_type
            && same_actuator && same_sensor
    }
}

impl Eq for DeviceFeature {

}

/// A copy of a list of features that says the same, feature by feature.
pub fn copy_catalog(features: &Vec<DeviceFeature>) -> (copy: Vec<DeviceFeature>)
    ensures
        catalog_view(copy@) == catalog_view(features@),
{
    let mut copy: Vec<DeviceFeature> = Vec::new();
    let mut i: usize = 0;
    while i < features.len()
        invariant
            i <= features.len(),
            copy@.len() == i,
            forall|j: int| 0 <= j < i ==> copy@[j]@ == features@[j]@,
        decreases features.len() - i,
    {
        copy.push(features[i].clone());
        i = i + 1;
    }
    assert(catalog_view(copy@) =~= catalog_view(features@));
    copy
}

/// Equality goes field by field: two features are equal exactly when their
/// descriptions, their types, their actuators and their sensors say the
/// same.
pub proof fn lemma_equal_in_every_field(left: DeviceFeature, right: DeviceFeature)
    ensures
        left.eq_spec(&right) <==> {
            &&& left@.description == right@.description
            &&& left@.feature_type == right@.feature_type
            &&& left@.actuator == right@.actuator
            &&& left@.sensor == right@.sensor
        },
{
}

/// Of two features, each as `DeviceFeature::new` returns it for its four
/// arguments: they are equal where the arguments are the same one by one,
/// and unequal where any single argument differs.
pub proof fn lemma_built_alike_equal(
    left: DeviceFeature,
    left_description: Seq<char>,
    left_type: FeatureType,
    left_actuator: Option<DeviceFeatureActuator>,
    left_sensor: Option<DeviceFeatureSensor>,
    right: DeviceFeature,
    right_description: Seq<char>,
    right_type: FeatureType,
    right_actuator: Option<DeviceFeatureActuator>,
    right_sensor: Option<DeviceFeatureSensor>,
)
    requires
        left@ == (DescriptorView {
            description: left_description,
            feature_type: left_type,
            actuator: actuator_view(left_actuator),
            sensor: sensor_view(left_sensor),
        }),
        right@ == (DescriptorView {
            description: right_description,
            feature_type: right_type,
            actuator: actuator_view(right_actuator),
            sensor: sensor_view(right_sensor),
        }),
    ensures
        left.eq_spec(&right) <==> {
            &&& left_description == right_description
            &&& left_type == right_type
            &&& actuator_view(left_actuator) == actuator_view(right_actuator)
            &&& sensor_view(left_sensor) == sensor_view(right_sensor)
        },
{
}

} // verus!
