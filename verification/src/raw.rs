//! The description of raw access to a device: the transport endpoints that
//! can be addressed, and the four raw command kinds.

use crate::message_set::MessageSet;
use crate::message_type::{ButtplugDeviceMessageType, Endpoint};
use vstd::prelude::*;
use vstd::std_specs::cmp::PartialEqSpecImpl;

verus! {

/// The command kinds of raw access: read, write, subscribe, unsubscribe.
pub open spec fn raw_message_kinds() -> Set<ButtplugDeviceMessageType> {
    set![
        ButtplugDeviceMessageType::RawReadCmd,
        ButtplugDeviceMessageType::RawWriteCmd,
        ButtplugDeviceMessageType::RawSubscribeCmd,
        ButtplugDeviceMessageType::RawUnsubscribeCmd,
    ]
}

/// What a raw access description says.
pub struct RawView {
    pub endpoints: Seq<Endpoint>,
    pub messages: Set<ButtplugDeviceMessageType>,
}

/// Which endpoints of a device can be read and written directly.
#[derive(Debug)]
pub struct DeviceFeatureRaw {
    endpoints: Vec<Endpoint>,
    messages: MessageSet,
}

impl View for DeviceFeatureRaw {
    type V = RawView;

    closed spec fn view(&self) -> RawView {
        RawView { endpoints: self.endpoints@, messages: self.messages@ }
    }
}

fn copy_endpoints(endpoints: &[Endpoint]) -> (copy: Vec<Endpoint>)
    ensures
        copy@ == endpoints@,
{
    let mut copy: Vec<Endpoint> = Vec::new();
    let mut i: usize = 0;
    while i < endpoints.len()
        invariant
            i <= endpoints.len(),
            copy@ == endpoints@.take(i as int),
        decreases endpoints.len() - i,
    {
        copy.push(endpoints[i]);
        assert(copy@ =~= endpoints@.take(i + 1));
        i = i + 1;
    }
    assert(endpoints@.take(i as int) =~= endpoints@);
    copy
}

fn same_endpoints(left: &Vec<Endpoint>, right: &Vec<Endpoint>) -> (same: bool)
    ensures
        same == (left@ == right@),
{
    if left.len() != right.len() {
        return false;
    }
    let mut i: usize = 0;
    while i < left.len()
        invariant
            i <= left.len(),
            left.len() == right.len(),
            forall|j: int| 0 <= j < i ==> left@[j] == right@[j],
        decreases left.len() - i,
    {
        if left[i] != right[i] {
            return false;
        }
        i = i + 1;
    }
    assert(left@ =~= right@);
    true
}

fn raw_messages() -> (messages: MessageSet)
    ensures
        messages@ == raw_message_kinds(),
{
    let mut messages = MessageSet::new();
    messages.insert(ButtplugDeviceMessageType::RawReadCmd);
    messages.insert(ButtplugDeviceMessageType::RawWriteCmd);
    messages.insert(ButtplugDeviceMessageType::RawSubscribeCmd);
    messages.insert(ButtplugDeviceMessageType::RawUnsubscribeCmd);
    messages
}

impl DeviceFeatureRaw {
    #[verifier::type_invariant]
    spec fn fully_populated(self) -> bool {
        self.messages@ == raw_message_kinds()
    }

    /// Raw access to the given endpoints, in the order given. The four raw
    /// command kinds come with it whatever the endpoints are, and with no
    /// endpoint too.
    pub fn new(endpoints: &[Endpoint]) -> (raw: Self)
        ensures
            raw@ == (RawView { endpoints: endpoints@, messages: raw_message_kinds() }),
    {
        DeviceFeatureRaw { endpoints: copy_endpoints(endpoints), messages: raw_messages() }
    }

    /// The endpoints that can be addressed.
    pub fn endpoints(&self) -> (endpoints: &Vec<Endpoint>)
        ensures
            endpoints@ == self@.endpoints,
    {
        &self.endpoints
    }

    /// The command kinds of raw access: always the four of them.
    pub fn messages(&self) -> (messages: &MessageSet)
        ensures
            messages@ == self@.messages,
            messages@ == raw_message_kinds(),
    {
        proof {
            use_type_invariant(&*self);
        }
        &self.messages
    }
}

impl Default for DeviceFeatureRaw {
    /// Raw access to no endpoint.
    fn default() -> (raw: Self)
        ensures
            raw@ == (RawView {
                endpoints: Seq::<Endpoint>::empty(),
                messages: raw_message_kinds(),
            }),
    {
        DeviceFeatureRaw { endpoints: Vec::new(), messages: raw_messages() }
    }
}

impl Clone for DeviceFeatureRaw {
    fn clone(&self) -> (copy: Self)
        ensures
            copy@ == self@,
    {
        proof {
            use_type_invariant(&*self);
        }
        DeviceFeatureRaw {
            endpoints: copy_endpoints(self.endpoints.as_slice()),
            messages: self.messages,
        }
    }
}

impl PartialEqSpecImpl for DeviceFeatureRaw {
    open spec fn obeys_eq_spec() -> bool {
        true
    }

    open spec fn eq_spec(&self, other: &DeviceFeatureRaw) -> bool {
        self@ == other@
    }
}

impl PartialEq for DeviceFeatureRaw {
    /// Two raw access descriptions are equal when they say the same.
    fn eq(&self, other: &DeviceFeatureRaw) -> (same: bool) {
        same_endpoints(&self.endpoints, &other.endpoints) && self.messages == other.messages
    }
}

impl Eq for DeviceFeatureRaw {

}

} // verus!
