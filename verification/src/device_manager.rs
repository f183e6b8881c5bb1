//! Discovery sessions: what a device communication manager announces when
//! it scans, and the manager that announces the devices handed to it.

use crate::errors::ButtplugError;
use vstd::prelude::*;

verus! {

/// A device that a manager has discovered. The server core takes it over
/// when it is announced.
#[derive(Debug)]
pub struct DeviceHandle {
    identifier: String,
}

impl View for DeviceHandle {
    type V = Seq<char>;

    /// The identity under which the device was discovered.
    closed spec fn view(&self) -> Seq<char> {
        self.identifier@
    }
}

impl DeviceHandle {
    /// A handle for the device discovered under `identifier`.
    pub fn new(identifier: &str) -> (handle: Self)
        ensures
            handle@ == identifier@,
    {
        DeviceHandle { identifier: identifier.to_owned() }
    }

    /// The identity under which the device was discovered.
    pub fn identifier(&self) -> (identifier: &String)
        ensures
            identifier@ == self@,
    {
        &self.identifier
    }
}

/// What a manager tells the server core.
#[derive(Debug)]
pub enum DeviceCommunicationEvent {
    /// A device has appeared.
    DeviceFound(DeviceHandle),
    /// The device registered under this index is gone.
    DeviceRemoved(u32),
}

/// One `DeviceFound` event for each of `devices`, in their order.
pub open spec fn found_events(devices: Seq<DeviceHandle>) -> Seq<DeviceCommunicationEvent> {
    Seq::new(devices.len(), |i: int| DeviceCommunicationEvent::DeviceFound(devices[i]))
}

/// The state of a discovery session.
pub struct SessionView {
    /// The devices discovered and not yet announced, oldest first.
    pub pending: Seq<DeviceHandle>,
    /// Whether the session is scanning, or else idle.
    pub scanning: bool,
}

impl SessionView {
    /// The session after a scan has started: scanning, with nothing left
    /// pending.
    pub open spec fn started(self) -> SessionView {
        SessionView { pending: Seq::<DeviceHandle>::empty(), scanning: true }
    }

    /// The session after scanning has stopped: idle, with the pending
    /// devices as they were.
    pub open spec fn stopped(self) -> SessionView {
        SessionView { pending: self.pending, scanning: false }
    }
}

/// A discovery session of one transport. It is idle or scanning, and holds
/// the devices it has discovered and not yet announced.
pub trait DeviceCommunicationManager {
    /// The state of the session.
    spec fn session(&self) -> SessionView;

    /// The order in which this kind of manager announces pending devices.
    spec fn announce_order(pending: Seq<DeviceHandle>) -> Seq<DeviceHandle>;

    /// Whatever the order is, it announces every pending device, and each
    /// as often as it is pending.
    proof fn lemma_announces_each_once(pending: Seq<DeviceHandle>)
        ensures
            Self::announce_order(pending).to_multiset() == pending.to_multiset(),
    ;

    /// Starts scanning. On success the session is scanning, and every
    /// pending device has left the queue and is announced by one event, in
    /// the manager's order; with nothing pending that is no event. On
    /// failure nothing has changed.
    fn start_scanning(&mut self) -> (outcome: Result<Vec<DeviceCommunicationEvent>, ButtplugError>)
        ensures
            outcome matches Ok(events) ==> {
                &&& events@ == found_events(Self::announce_order(old(self).session().pending))
                &&& final(self).session() == old(self).session().started()
            },
            outcome matches Err(error) ==> {
                &&& error == ButtplugError::ScanError
                &&& final(self).session() == old(self).session()
            },
    ;

    /// Stops scanning. On success the session is idle; the pending devices
    /// stay as they are either way, and nothing announced is taken back.
    fn stop_scanning(&mut self) -> (outcome: Result<(), ButtplugError>)
        ensures
            outcome is Ok ==> final(self).session() == old(self).session().stopped(),
            outcome matches Err(error) ==> {
                &&& error == ButtplugError::ScanError
                &&& final(self).session() == old(self).session()
            },
    ;

    /// Whether the session is scanning.
    fn is_scanning(&self) -> (scanning: bool)
        ensures
            scanning == self.session().scanning,
    ;
}

/// A manager without a transport: it announces the devices that were
/// handed to it, the one handed over last first.
#[derive(Debug)]
pub struct TestDeviceCommunicationManager {
    devices: Vec<DeviceHandle>,
    scanning: bool,
}

impl TestDeviceCommunicationManager {
    /// An idle manager with nothing pending.
    pub fn new() -> (manager: Self)
        ensures
            manager.session() == (SessionView {
                pending: Seq::<DeviceHandle>::empty(),
                scanning: false,
            }),
    {
        TestDeviceCommunicationManager { devices: Vec::new(), scanning: false }
    }

    /// Hands a device to the manager, to be announced by the next scan.
    pub fn add_device(&mut self, device: DeviceHandle)
        ensures
            final(self).session() == (SessionView {
                pending: old(self).session().pending.push(device),
                scanning: old(self).session().scanning,
            }),
    {
        self.devices.push(device);
    }

    /// The devices handed over and not yet announced, oldest first.
    pub fn devices(&self) -> (devices: &Vec<DeviceHandle>)
        ensures
            devices@ == self.session().pending,
    {
        &self.devices
    }
}

impl DeviceCommunicationManager for TestDeviceCommunicationManager {
    closed spec fn session(&self) -> SessionView {
        SessionView { pending: self.devices@, scanning: self.scanning }
    }

    /// Last in, first out.
    open spec fn announce_order(pending: Seq<DeviceHandle>) -> Seq<DeviceHandle> {
        pending.reverse()
    }

    proof fn lemma_announces_each_once(pending: Seq<DeviceHandle>) {
        pending.lemma_reverse_to_multiset();
    }

    /// Announces every pending device, the one handed over last first, and
    /// leaves the session scanning. It never fails; with nothing pending it
    /// announces nothing.
    fn start_scanning(&mut self) -> (outcome: Result<Vec<DeviceCommunicationEvent>, ButtplugError>)
        ensures
            outcome is Ok,
    {
        let ghost pending = self.devices@;
        let mut events: Vec<DeviceCommunicationEvent> = Vec::new();
        loop
            invariant
                self.devices@.len() + events@.len() == pending.len(),
                self.devices@ == pending.take(self.devices@.len() as int),
                self.scanning == old(self).scanning,
                forall|i: int|
                    0 <= i < events@.len() ==> events@[i] == DeviceCommunicationEvent::DeviceFound(
                        pending[pending.len() - 1 - i],
                    ),
            ensures
                self.devices@.len() == 0,
                events@.len() == pending.len(),
            decreases self.devices@.len(),
        {
            match self.devices.pop() {
                Some(device) => {
                    events.push(DeviceCommunicationEvent::DeviceFound(device));
                },
                None => {
                    break ;
                },
            }
        }
        self.scanning = true;
        assert(events@ =~= found_events(pending.reverse()));
        assert(self.devices@ =~= Seq::<DeviceHandle>::empty());
        Ok(events)
    }

    /// Leaves the session idle. It never fails.
    fn stop_scanning(&mut self) -> (outcome: Result<(), ButtplugError>)
        ensures
            outcome is Ok,
    {
        self.scanning = false;
        Ok(())
    }

    fn is_scanning(&self) -> (scanning: bool) {
        self.scanning
    }
}

/// Stopping a session twice leaves it as stopping it once does.
pub proof fn lemma_stop_is_idempotent(session: SessionView)
    ensures
        session.stopped().stopped() == session.stopped(),
{
}

/// Stopping a session takes back nothing that a scan before it did: the
/// queue that the scan emptied stays empty.
pub proof fn lemma_stop_keeps_what_was_announced(session: SessionView)
    ensures
        session.started().stopped().pending == Seq::<DeviceHandle>::empty(),
{
}

/// A scan announces every pending device by exactly one event, and no
/// other device.
pub proof fn lemma_scan_announces_each_once<M: DeviceCommunicationManager>(session: SessionView)
    ensures
        found_events(M::announce_order(session.pending)).len() == session.pending.len(),
        M::announce_order(session.pending).to_multiset() == session.pending.to_multiset(),
{
    M::lemma_announces_each_once(session.pending);
    session.pending.to_multiset_ensures();
    M::announce_order(session.pending).to_multiset_ensures();
}

/// A scan that follows a scan, with no device discovered in between,
/// announces nothing, whatever the manager.
pub proof fn lemma_second_scan_announces_nothing<M: DeviceCommunicationManager>(
    session: SessionView,
)
    ensures
        found_events(M::announce_order(session.started().pending))
            == Seq::<DeviceCommunicationEvent>::empty(),
{
    lemma_scan_announces_each_once::<M>(session.started());
    assert(found_events(M::announce_order(session.started().pending))
        =~= Seq::<DeviceCommunicationEvent>::empty());
}

} // verus!
