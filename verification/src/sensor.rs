//! The description of one sensor: the interval of values each of its
//! channels can report, and the command kinds it accepts.

use crate::bounds::{value_bounds, Bounds};
use crate::message_set::MessageSet;
use crate::message_type::ButtplugDeviceMessageType;
use std::ops::RangeInclusive;
use vstd::prelude::*;
use vstd::std_specs::cmp::PartialEqSpecImpl;

verus! {

/// The intervals that a list of value ranges stands for, channel by
/// channel.
pub open spec fn channel_bounds(ranges: Seq<RangeInclusive<i32>>) -> Seq<Bounds> {
    Seq::new(ranges.len(), |i: int| value_bounds(ranges[i]))
}

/// What a sensor description says.
pub struct SensorView {
    pub value_range: Seq<Bounds>,
    pub messages: Set<ButtplugDeviceMessageType>,
}

impl SensorView {
    /// Whether `reading` has one value for each channel, each within the
    /// interval of its channel.
    pub open spec fn admits(self, reading: Seq<i32>) -> bool {
        &&& reading.len() == self.value_range.len()
        &&& forall|i: int|
            0 <= i < reading.len() ==> (#[trigger] self.value_range[i]).holds(reading[i] as int)
    }
}

/// What can be read from a device on one of its features.
#[derive(Debug)]
pub struct DeviceFeatureSensor {
    value_range: Vec<RangeInclusive<i32>>,
    messages: MessageSet,
}

impl View for DeviceFeatureSensor {
    type V = SensorView;

    closed spec fn view(&self) -> SensorView {
        SensorView { value_range: channel_bounds(self.value_range@), messages: self.messages@ }
    }
}

fn copy_ranges(ranges: &Vec<RangeInclusive<i32>>) -> (copy: Vec<RangeInclusive<i32>>)
    ensures
        channel_bounds(copy@) == channel_bounds(ranges@),
{
    let mut copy: Vec<RangeInclusive<i32>> = Vec::new();
    let mut i: usize = 0;
    while i < ranges.len()
        invariant
            i <= ranges.len(),
            copy@.len() == i,
            forall|j: int| 0 <= j < i ==> value_bounds(copy@[j]) == value_bounds(ranges@[j]),
        decreases ranges.len() - i,
    {
        let range = &ranges[i];
        copy.push(RangeInclusive::new(*range.start(), *range.end()));
        i = i + 1;
    }
    assert(channel_bounds(copy@) =~= channel_bounds(ranges@));
    copy
}

fn same_ranges(left: &Vec<RangeInclusive<i32>>, right: &Vec<RangeInclusive<i32>>) -> (same: bool)
    ensures
        same == (channel_bounds(left@) == channel_bounds(right@)),
{
    if left.len() != right.len() {
        assert(channel_bounds(left@).len() != channel_bounds(right@).len());
        return false;
    }
    let mut i: usize = 0;
    while i < left.len()
        invariant
            i <= left.len(),
            left.len() == right.len(),
            forall|j: int| 0 <= j < i ==> value_bounds(left@[j]) == value_bounds(right@[j]),
        decreases left.len() - i,
    {
        let l = &left[i];
        let r = &right[i];
        if *l.start() != *r.start() || *l.end() != *r.end() {
            assert(channel_bounds(left@)[i as int] != channel_bounds(right@)[i as int]);
            return false;
        }
        i = i + 1;
    }
    assert(channel_bounds(left@) =~= channel_bounds(right@));
    true
}

impl DeviceFeatureSensor {
    /// A sensor with one value range for each channel, in the order given,
    /// and the given command kinds.
    pub fn new(value_range: &Vec<RangeInclusive<i32>>, messages: &MessageSet) -> (sensor: Self)
        ensures
            sensor@ == (SensorView {
                value_range: channel_bounds(value_range@),
                messages: messages@,
            }),
    {
        DeviceFeatureSensor { value_range: copy_ranges(value_range), messages: *messages }
    }

    /// Whether `reading` has one value for each channel, each within the
    /// interval of its channel.
    pub fn admits_reading(&self, reading: &[i32]) -> (admitted: bool)
        ensures
            admitted == self@.admits(reading@),
    {
        if reading.len() != self.value_range.len() {
            return false;
        }
        let mut i: usize = 0;
        while i < reading.len()
            invariant
                i <= reading.len(),
                reading.len() == self.value_range.len(),
                forall|j: int|
                    0 <= j < i ==> (#[trigger] self@.value_range[j]).holds(reading@[j] as int),
            decreases reading.len() - i,
        {
            let range = &self.value_range[i];
            let value = reading[i];
            if value < *range.start() || *range.end() < value {
                assert(!self@.value_range[i as int].holds(reading@[i as int] as int));
                return false;
            }
            i = i + 1;
        }
        true
    }

    /// The value range of each channel.
    pub fn value_range(&self) -> (ranges: &Vec<RangeInclusive<i32>>)
        ensures
            channel_bounds(ranges@) == self@.value_range,
    {
        &self.value_range
    }

    /// The command kinds the sensor accepts.
    pub fn messages(&self) -> (messages: &MessageSet)
        ensures
            messages@ == self@.messages,
    {
        &self.messages
    }
}

impl Default for DeviceFeatureSensor {
    /// A sensor with no channel and no command kind.
    fn default() -> (sensor: Self)
        ensures
            sensor@ == (SensorView {
                value_range: Seq::<Bounds>::empty(),
                messages: Set::<ButtplugDeviceMessageType>::empty(),
            }),
    {
        let sensor = DeviceFeatureSensor { value_range: Vec::new(), messages: MessageSet::new() };
        assert(sensor@.value_range =~= Seq::<Bounds>::empty());
        sensor
    }
}

impl Clone for DeviceFeatureSensor {
    fn clone(&self) -> (copy: Self)
        ensures
            copy@ == self@,
    {
        DeviceFeatureSensor { value_range: copy_ranges(&self.value_range), messages: self.messages }
    }
}

impl PartialEqSpecImpl for DeviceFeatureSensor {
    open spec fn obeys_eq_spec() -> bool {
        true
    }

    open spec fn eq_spec(&self, other: &DeviceFeatureSensor) -> bool {
        self@ == other@
    }
}

impl PartialEq for DeviceFeatureSensor {
    /// Two sensors are equal when they say the same.
    fn eq(&self, other: &DeviceFeatureSensor) -> (same: bool) {
        same_ranges(&self.value_range, &other.value_range) && self.messages == other.messages
    }
}

impl Eq for DeviceFeatureSensor {

}

} // verus!
