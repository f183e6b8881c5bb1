//! The server core: the registry of connected devices, and what it does
//! with each discovery event.

use crate::configuration::{DefinitionView, DeviceConfiguration, first_definition};
use crate::device_feature::{catalog_view, copy_catalog, DeviceFeature, DescriptorView};
use crate::device_manager::{DeviceCommunicationEvent, DeviceHandle};
use crate::errors::ButtplugError;
use std::collections::HashMap;
use vstd::prelude::*;

verus! {

broadcast use vstd::std_specs::hash::group_hash_axioms;

/// What the registry holds for one connected device.
pub struct RecordView {
    /// The identity under which the device was discovered.
    pub identifier: Seq<char>,
    /// The name under which the device is shown.
    pub name: Seq<char>,
    /// What the device can do and report.
    pub features: Seq<DescriptorView>,
}

/// The state of the server core.
pub struct ServerView {
    /// The name of the server.
    pub name: Seq<char>,
    /// The connected devices, each under its index.
    pub devices: Map<u32, RecordView>,
    /// The index that the next device gets: the number of devices
    /// registered so far, gone ones included.
    pub next_index: nat,
}

impl ServerView {
    /// Every connected device has an index that was handed out, and no
    /// more indices were handed out than there are.
    pub open spec fn well_formed(self) -> bool {
        &&& self.next_index <= u32::MAX + 1
        &&& forall|index: u32| self.devices.contains_key(index) ==> index < self.next_index
    }

    /// Whether an index is left for one more device.
    pub open spec fn has_free_index(self) -> bool {
        self.next_index <= u32::MAX
    }

    /// The state after the device discovered under `identifier` was
    /// registered with `definition`: it stands under the next index, and
    /// that index is used up.
    pub open spec fn with_device(
        self,
        identifier: Seq<char>,
        definition: DefinitionView,
    ) -> ServerView {
        ServerView {
            name: self.name,
            devices: self.devices.insert(
                self.next_index as u32,
                RecordView { identifier, name: definition.name, features: definition.features },
            ),
            next_index: self.next_index + 1,
        }
    }

    /// The state after the device under `index` was removed. Its index
    /// stays used up.
    pub open spec fn without_device(self, index: u32) -> ServerView {
        ServerView {
            name: self.name,
            devices: self.devices.remove(index),
            next_index: self.next_index,
        }
    }

    /// The state after one discovery event. A found device is registered
    /// where `configuration` has a definition for its identity, and a
    /// removed one leaves where it is connected; otherwise nothing
    /// changes.
    pub open spec fn after_event(
        self,
        event: DeviceCommunicationEvent,
        configuration: Seq<DefinitionView>,
    ) -> ServerView {
        match event {
            DeviceCommunicationEvent::DeviceFound(handle) => match first_definition(
                configuration,
                handle@,
            ) {
                Some(definition) => self.with_device(handle@, definition),
                None => self,
            },
            DeviceCommunicationEvent::DeviceRemoved(index) => if self.devices.contains_key(index) {
                self.without_device(index)
            } else {
                self
            },
        }
    }

    /// What the server core answers to one discovery event. A found device
    /// with a definition is announced under the next index, with the
    /// defined name and features; a removed one that is connected is
    /// announced as removed. A device without a definition, and an index
    /// without a device, are unknown.
    pub open spec fn answer_to(
        self,
        event: DeviceCommunicationEvent,
        configuration: Seq<DefinitionView>,
    ) -> Result<OutMessageView, ButtplugError> {
        match event {
            DeviceCommunicationEvent::DeviceFound(handle) => match first_definition(
                configuration,
                handle@,
            ) {
                Some(definition) => Ok(
                    OutMessageView::DeviceAdded {
                        index: self.next_index as u32,
                        name: definition.name,
                        features: definition.features,
                    },
                ),
                None => Err(ButtplugError::UnknownDevice),
            },
            DeviceCommunicationEvent::DeviceRemoved(index) => if self.devices.contains_key(index) {
                Ok(OutMessageView::DeviceRemoved { index })
            } else {
                Err(ButtplugError::UnknownDevice)
            },
        }
    }

    /// The state after a run of discovery events, taken in their order.
    pub open spec fn after_events(
        self,
        events: Seq<DeviceCommunicationEvent>,
        configuration: Seq<DefinitionView>,
    ) -> ServerView
        decreases events.len(),
    {
        if events.len() == 0 {
            self
        } else {
            self.after_event(events[0], configuration).after_events(events.skip(1), configuration)
        }
    }

    /// What the server core answers to each event of a run, in their
    /// order.
    pub open spec fn answers_to(
        self,
        events: Seq<DeviceCommunicationEvent>,
        configuration: Seq<DefinitionView>,
    ) -> Seq<Result<OutMessageView, ButtplugError>>
        decreases events.len(),
    {
        if events.len() == 0 {
            Seq::empty()
        } else {
            seq![self.answer_to(events[0], configuration)] + self.after_event(
                events[0],
                configuration,
            ).answers_to(events.skip(1), configuration)
        }
    }
}

/// A device has been registered.
#[derive(Debug)]
pub struct DeviceAdded {
    pub device_index: u32,
    pub device_name: String,
    pub device_features: Vec<DeviceFeature>,
}

/// A device has left the registry.
#[derive(Debug)]
pub struct DeviceRemoved {
    pub device_index: u32,
}

/// What the server core tells the protocol layer.
#[derive(Debug)]
pub enum ButtplugOutMessage {
    DeviceAdded(DeviceAdded),
    DeviceRemoved(DeviceRemoved),
}

/// What a notification says.
pub enum OutMessageView {
    DeviceAdded { index: u32, name: Seq<char>, features: Seq<DescriptorView> },
    DeviceRemoved { index: u32 },
}

impl View for ButtplugOutMessage {
    type V = OutMessageView;

    open spec fn view(&self) -> OutMessageView {
        match self {
            ButtplugOutMessage::DeviceAdded(added) => OutMessageView::DeviceAdded {
                index: added.device_index,
                name: added.device_name@,
                features: catalog_view(added.device_features@),
            },
            ButtplugOutMessage::DeviceRemoved(removed) => OutMessageView::DeviceRemoved {
                index: removed.device_index,
            },
        }
    }
}

/// An answer of the server core as its view.
pub open spec fn outcome_view(outcome: Result<ButtplugOutMessage, ButtplugError>) -> Result<
    OutMessageView,
    ButtplugError,
> {
    match outcome {
        Ok(message) => Ok(message@),
        Err(error) => Err(error),
    }
}

/// The answers of the server core as their views, one by one.
pub open spec fn outcomes_view(outcomes: Seq<Result<ButtplugOutMessage, ButtplugError>>) -> Seq<
    Result<OutMessageView, ButtplugError>,
> {
    Seq::new(outcomes.len(), |i: int| outcome_view(outcomes[i]))
}

/// One connected device as the registry holds it.
#[derive(Debug)]
pub struct RegisteredDevice {
    handle: DeviceHandle,
    name: String,
    features: Vec<DeviceFeature>,
}

impl View for RegisteredDevice {
    type V = RecordView;

    closed spec fn view(&self) -> RecordView {
        RecordView {
            identifier: self.handle@,
            name: self.name@,
            features: catalog_view(self.features@),
        }
    }
}

impl RegisteredDevice {
    /// The device itself.
    pub fn handle(&self) -> (handle: &DeviceHandle)
        ensures
            handle@ == self@.identifier,
    {
        &self.handle
    }

    /// The name under which the device is shown.
    pub fn name(&self) -> (name: &String)
        ensures
            name@ == self@.name,
    {
        &self.name
    }

    /// What the device can do and report.
    pub fn features(&self) -> (features: &Vec<DeviceFeature>)
        ensures
            catalog_view(features@) == self@.features,
    {
        &self.features
    }
}

/// What a registry says, index by index.
pub open spec fn registry_view(devices: Map<u32, RegisteredDevice>) -> Map<u32, RecordView> {
    Map::new(|index: u32| devices.contains_key(index), |index: u32| devices[index]@)
}

/// The server core. It owns the registry of connected devices and hands
/// out their indices, each index once.
#[derive(Debug)]
pub struct ServerCore {
    name: String,
    devices: HashMap<u32, RegisteredDevice>,
    assigned: u64,
}

impl View for ServerCore {
    type V = ServerView;

    closed spec fn view(&self) -> ServerView {
        ServerView {
            name: self.name@,
            devices: registry_view(self.devices@),
            next_index: self.assigned as nat,
        }
    }
}

impl ServerCore {
    #[verifier::type_invariant]
    spec fn indices_in_order(self) -> bool {
        &&& self.assigned <= u32::MAX + 1
        &&& forall|index: u32| self.devices@.contains_key(index) ==> index < self.assigned
    }

    /// A server core with the given name and no device.
    pub fn new(name: &str) -> (server: Self)
        ensures
            server@ == (ServerView {
                name: name@,
                devices: Map::<u32, RecordView>::empty(),
                next_index: 0,
            }),
            server@.well_formed(),
    {
        let server = ServerCore { name: name.to_owned(), devices: HashMap::new(), assigned: 0 };
        assert(server@.devices =~= Map::<u32, RecordView>::empty());
        server
    }

    /// The name of the server.
    pub fn name(&self) -> (name: &String)
        ensures
            name@ == self@.name,
    {
        &self.name
    }

    /// The index that the next device gets, if one is left.
    pub fn next_index(&self) -> (index: Option<u32>)
        ensures
            self@.well_formed(),
            index is Some == self@.has_free_index(),
            index matches Some(next) ==> next == self@.next_index,
    {
        proof {
            use_type_invariant(&*self);
        }
        if self.assigned <= 0xffff_ffff {
            Some(self.assigned as u32)
        } else {
            None
        }
    }

    /// The device under `index`, if one is connected under it.
    pub fn device(&self, index: u32) -> (device: Option<&RegisteredDevice>)
        ensures
            device is Some == self@.devices.contains_key(index),
            device matches Some(record) ==> record@ == self@.devices[index],
    {
        self.devices.get(&index)
    }

    /// Takes one discovery event.
    ///
    /// A found device is looked up in `configuration` by the identity it
    /// was discovered under. With a definition it is registered under the
    /// next index, and the notification carries that index, the defined
    /// name and the defined features; without one nothing changes.
    ///
    /// A removed device leaves the registry, and the notification carries
    /// its index; where no device stands under the index nothing changes.
    pub fn handle_event(
        &mut self,
        event: DeviceCommunicationEvent,
        configuration: &DeviceConfiguration,
    ) -> (outcome: Result<ButtplugOutMessage, ButtplugError>)
        requires
            event is DeviceFound ==> old(self)@.has_free_index(),
        ensures
            final(self)@.well_formed(),
            final(self)@ == old(self)@.after_event(event, configuration@),
            outcome_view(outcome) == old(self)@.answer_to(event, configuration@),
    {
        proof {
            use_type_invariant(&*self);
        }
        match event {
            DeviceCommunicationEvent::DeviceFound(handle) => {
                match configuration.find(handle.identifier()) {
                    Some(definition) => {
                        let index = self.assigned as u32;
                        let record = RegisteredDevice {
                            handle,
                            name: definition.name().clone(),
                            features: copy_catalog(definition.features()),
                        };
                        let added = DeviceAdded {
                            device_index: index,
                            device_name: definition.name().clone(),
                            device_features: copy_catalog(definition.features()),
                        };
                        let mut devices = HashMap::new();
                        std::mem::swap(&mut devices, &mut self.devices);
                        devices.insert(index, record);
                        self.assigned = self.assigned + 1;
                        self.devices = devices;
                        proof {
                            assert(self@.devices =~= old(self)@.with_device(
                                handle@,
                                definition@,
                            ).devices);
                        }
                        Ok(ButtplugOutMessage::DeviceAdded(added))
                    },
                    None => Err(ButtplugError::UnknownDevice),
                }
            },
            DeviceCommunicationEvent::DeviceRemoved(index) => {
                let mut devices = HashMap::new();
                std::mem::swap(&mut devices, &mut self.devices);
                let removed = devices.remove(&index);
                self.devices = devices;
                match removed {
                    Some(_) => {
                        proof {
                            assert(self@.devices =~= old(self)@.without_device(index).devices);
                        }
                        Ok(ButtplugOutMessage::DeviceRemoved(DeviceRemoved { device_index: index }))
                    },
                    None => {
                        proof {
                            assert(self.devices@ =~= old(self).devices@);
                        }
                        Err(ButtplugError::UnknownDevice)
                    },
                }
            },
        }
    }

    /// Takes a run of discovery events in their order, and answers each.
    pub fn handle_events(
        &mut self,
        events: Vec<DeviceCommunicationEvent>,
        configuration: &DeviceConfiguration,
    ) -> (outcomes: Vec<Result<ButtplugOutMessage, ButtplugError>>)
        requires
            old(self)@.next_index + events@.len() <= u32::MAX + 1,
        ensures
            final(self)@.well_formed(),
            final(self)@ == old(self)@.after_events(events@, configuration@),
            outcomes_view(outcomes@) == old(self)@.answers_to(events@, configuration@),
    {
        let ghost all = events@;
        let ghost start = self@;
        let mut outcomes: Vec<Result<ButtplugOutMessage, ButtplugError>> = Vec::new();
        proof {
            use_type_invariant(&*self);
            assert(all.take(0) =~= Seq::<DeviceCommunicationEvent>::empty());
            assert(outcomes_view(outcomes@) =~= start.answers_to(all.take(0), configuration@));
        }
        for event in iter: events
            invariant
                iter.seq() == all,
                start == old(self)@,
                self@.well_formed(),
                self@.next_index + all.len() - iter.index() <= u32::MAX + 1,
                self@ == start.after_events(all.take(iter.index() as int), configuration@),
                outcomes_view(outcomes@) == start.answers_to(
                    all.take(iter.index() as int),
                    configuration@,
                ),
        {
            let ghost done = all.take(iter.index() as int);
            let ghost before = outcomes@;
            proof {
                lemma_events_one_more(start, done, event, configuration@);
                assert(done.push(event) =~= all.take(iter.index() + 1));
            }
            let outcome = self.handle_event(event, configuration);
            outcomes.push(outcome);
            proof {
                assert(outcomes_view(outcomes@) =~= outcomes_view(before).push(
                    outcome_view(outcome),
                ));
            }
        }
        proof {
            assert(all.take(all.len() as int) =~= all);
        }
        outcomes
    }

    /// How many devices are connected.
    pub fn device_count(&self) -> (count: usize)
        ensures
            self@.devices.dom().finite(),
            count == self@.devices.len(),
    {
        proof {
            assert(self@.devices.dom() =~= self.devices@.dom());
        }
        self.devices.len()
    }
}

/// A run with one more event at its end leaves what the run leaves and
/// the event then makes of it, and answers as the run does and then as the
/// event is answered.
pub proof fn lemma_events_one_more(
    server: ServerView,
    events: Seq<DeviceCommunicationEvent>,
    event: DeviceCommunicationEvent,
    configuration: Seq<DefinitionView>,
)
    ensures
        server.after_events(events.push(event), configuration) == server.after_events(
            events,
            configuration,
        ).after_event(event, configuration),
        server.answers_to(events.push(event), configuration) == server.answers_to(
            events,
            configuration,
        ).push(server.after_events(events, configuration).answer_to(event, configuration)),
    decreases events.len(),
{
    if events.len() == 0 {
        let empty = Seq::<DeviceCommunicationEvent>::empty();
        let next = server.after_event(event, configuration);
        assert(events.push(event).skip(1) =~= empty);
        assert(events.push(event)[0] == event);
        assert(next.after_events(empty, configuration) == next);
        assert(server.after_events(events, configuration) == server);
        assert(server.after_events(events.push(event), configuration) == next.after_events(
            events.push(event).skip(1),
            configuration,
        ));
        assert(server.after_event(event, configuration).answers_to(
            events.push(event).skip(1),
            configuration,
        ) =~= Seq::empty());
        assert(server.answers_to(events.push(event), configuration) =~= server.answers_to(
            events,
            configuration,
        ).push(server.answer_to(event, configuration)));
    } else {
        let next = server.after_event(events[0], configuration);
        assert(events.push(event).skip(1) =~= events.skip(1).push(event));
        assert(events.push(event)[0] == events[0]);
        lemma_events_one_more(next, events.skip(1), event, configuration);
        assert(server.after_events(events.push(event), configuration) == next.after_events(
            events.skip(1).push(event),
            configuration,
        ));
        assert(server.answers_to(events.push(event), configuration) =~= server.answers_to(
            events,
            configuration,
        ).push(server.after_events(events, configuration).answer_to(event, configuration)));
    }
}

/// One event hands out at most one index, the next one, to a device that
/// it registers under it; it leaves every index handed out before to the
/// device that has it, or to none.
pub proof fn lemma_event_keeps_indices(
    server: ServerView,
    event: DeviceCommunicationEvent,
    configuration: Seq<DefinitionView>,
)
    requires
        server.well_formed(),
        event is DeviceFound ==> server.has_free_index(),
    ensures
        server.after_event(event, configuration).well_formed(),
        server.next_index <= server.after_event(event, configuration).next_index
            <= server.next_index + 1,
        forall|index: u32|
            #![trigger server.after_event(event, configuration).devices.contains_key(index)]
            index < server.next_index && server.after_event(
                event,
                configuration,
            ).devices.contains_key(index) ==> server.devices.contains_key(index)
                && server.after_event(event, configuration).devices[index]
                == server.devices[index],
        server.answer_to(event, configuration) matches Ok(
            OutMessageView::DeviceAdded { index, .. },
        ) ==> index == server.next_index && !server.devices.contains_key(index)
            && server.after_event(event, configuration).devices.contains_key(index),
{
}

/// No index is used twice: after any run of events, a device that stands
/// under an index handed out before the run is the device that stood there
/// before it. An index whose device has left stays empty for good.
pub proof fn lemma_indices_never_reused(
    server: ServerView,
    events: Seq<DeviceCommunicationEvent>,
    configuration: Seq<DefinitionView>,
)
    requires
        server.well_formed(),
        server.next_index + events.len() <= u32::MAX + 1,
    ensures
        server.after_events(events, configuration).well_formed(),
        server.next_index <= server.after_events(events, configuration).next_index
            <= server.next_index + events.len(),
        forall|index: u32|
            #![trigger server.after_events(events, configuration).devices.contains_key(index)]
            index < server.next_index && server.after_events(
                events,
                configuration,
            ).devices.contains_key(index) ==> server.devices.contains_key(index)
                && server.after_events(events, configuration).devices[index]
                == server.devices[index],
    decreases events.len(),
{
    if events.len() > 0 {
        let next = server.after_event(events[0], configuration);
        let last = server.after_events(events, configuration);
        lemma_event_keeps_indices(server, events[0], configuration);
        lemma_indices_never_reused(next, events.skip(1), configuration);
        assert(last == next.after_events(events.skip(1), configuration));
        assert forall|index: u32|
            index < server.next_index && last.devices.contains_key(
                index,
            ) implies server.devices.contains_key(index) && last.devices[index]
            == server.devices[index] by {
            assert(next.devices.contains_key(index));
            assert(last.devices[index] == next.devices[index]);
        }
    }
}

} // verus!
