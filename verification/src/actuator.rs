//! The description of one actuator: the steps it can be commanded to, an
//! optional narrower limit on them, and the command kinds it accepts.

use crate::bounds::{step_bounds, Bounds};
use crate::errors::ButtplugError;
use crate::message_set::MessageSet;
use crate::message_type::ButtplugDeviceMessageType;
use std::ops::RangeInclusive;
use vstd::prelude::*;
use vstd::std_specs::cmp::PartialEqSpecImpl;

verus! {

/// What an actuator description says.
pub struct ActuatorView {
    pub step_range: Bounds,
    pub step_limit: Option<Bounds>,
    pub messages: Set<ButtplugDeviceMessageType>,
}

impl ActuatorView {
    /// The step range holds at least one step, and a step limit, where
    /// there is one, lies within it.
    pub open spec fn well_formed(self) -> bool {
        &&& self.step_range.is_ordered()
        &&& self.step_limit matches Some(limit) ==> self.step_range.encloses(limit)
    }

    /// This description with its step limit set to `limit`.
    pub open spec fn with_step_limit(self, limit: Bounds) -> ActuatorView {
        ActuatorView { step_limit: Some(limit), ..self }
    }
}

/// What a device can be commanded to do on one of its features.
#[derive(Debug)]
pub struct DeviceFeatureActuator {
    step_range: RangeInclusive<u32>,
    step_limit: Option<RangeInclusive<u32>>,
    messages: MessageSet,
}

impl View for DeviceFeatureActuator {
    type V = ActuatorView;

    closed spec fn view(&self) -> ActuatorView {
        ActuatorView {
            step_range: step_bounds(self.step_range),
            step_limit: match self.step_limit {
                Some(limit) => Some(step_bounds(limit)),
                None => None,
            },
            messages: self.messages@,
        }
    }
}

fn same_range(left: &RangeInclusive<u32>, right: &RangeInclusive<u32>) -> (same: bool)
    ensures
        same == (step_bounds(*left) == step_bounds(*right)),
{
    *left.start() == *right.start() && *left.end() == *right.end()
}

fn copy_range(range: &RangeInclusive<u32>) -> (copy: RangeInclusive<u32>)
    ensures
        step_bounds(copy) == step_bounds(*range),
{
    RangeInclusive::new(*range.start(), *range.end())
}

impl DeviceFeatureActuator {
    /// An actuator with the given step range and command kinds, and no
    /// step limit.
    pub fn new(step_range: &RangeInclusive<u32>, messages: &MessageSet) -> (actuator: Self)
        ensures
            actuator@ == (ActuatorView {
                step_range: step_bounds(*step_range),
                step_limit: None,
                messages: messages@,
            }),
            actuator@.well_formed() <==> step_bounds(*step_range).is_ordered(),
    {
        DeviceFeatureActuator {
            step_range: copy_range(step_range),
            step_limit: None,
            messages: *messages,
        }
    }

    /// Narrows the steps that may be commanded to `step_limit`. The limit
    /// is taken only where it holds at least one step and lies within the
    /// step range; otherwise nothing changes.
    pub fn set_step_limit(&mut self, step_limit: &RangeInclusive<u32>) -> (outcome: Result<
        (),
        ButtplugError,
    >)
        ensures
            outcome is Ok <==> old(self)@.step_range.encloses(step_bounds(*step_limit)),
            outcome is Ok ==> final(self)@ == old(self)@.with_step_limit(step_bounds(*step_limit)),
            outcome is Ok ==> final(self)@.well_formed(),
            outcome is Err ==> outcome == Err::<(), ButtplugError>(ButtplugError::RangeError),
            outcome is Err ==> final(self)@ == old(self)@,
    {
        let lo = *step_limit.start();
        let hi = *step_limit.end();
        if *self.step_range.start() <= lo && lo <= hi && hi <= *self.step_range.end() {
            self.step_limit = Some(RangeInclusive::new(lo, hi));
            Ok(())
        } else {
            Err(ButtplugError::RangeError)
        }
    }

    /// The steps the actuator can be commanded to.
    pub fn step_range(&self) -> (range: &RangeInclusive<u32>)
        ensures
            step_bounds(*range) == self@.step_range,
    {
        &self.step_range
    }

    /// The narrower limit on the steps, where one was set.
    pub fn step_limit(&self) -> (limit: &Option<RangeInclusive<u32>>)
        ensures
            limit is Some == self@.step_limit is Some,
            limit matches Some(range) ==> self@.step_limit == Some(step_bounds(*range)),
    {
        &self.step_limit
    }

    /// The command kinds the actuator accepts.
    pub fn messages(&self) -> (messages: &MessageSet)
        ensures
            messages@ == self@.messages,
    {
        &self.messages
    }
}

impl Clone for DeviceFeatureActuator {
    fn clone(&self) -> (copy: Self)
        ensures
            copy@ == self@,
    {
        DeviceFeatureActuator {
            step_range: copy_range(&self.step_range),
            step_limit: match &self.step_limit {
                Some(limit) => Some(copy_range(limit)),
                None => None,
            },
            messages: self.messages,
        }
    }
}

impl PartialEqSpecImpl for DeviceFeatureActuator {
    open spec fn obeys_eq_spec() -> bool {
        true
    }

    open spec fn eq_spec(&self, other: &DeviceFeatureActuator) -> bool {
        self@ == other@
    }
}

impl PartialEq for DeviceFeatureActuator {
    /// Two actuators are equal when they say the same.
    fn eq(&self, other: &DeviceFeatureActuator) -> (same: bool) {
        let same_limit = match (&self.step_limit, &other.step_limit) {
            (Some(left), Some(right)) => same_range(left, right),
            (None, None) => true,
            _ => false,
        };
        same_range(&self.step_range, &other.step_range) && same_limit && self.messages
            == other.messages
    }
}

impl Eq for DeviceFeatureActuator {

}

} // verus!
