//! The sensor registry: the authoritative in-memory table of known sensors
//! and their connection state, plus the discovery step that fills it.
//!
//! The registry is owned by the orchestration loops and accessed under a
//! single lock held by the caller; every operation here is one
//! read-then-mutate step of that discipline.

use vstd::prelude::*;

use crate::config::{spec_lookup, SensorNames};
use crate::mac::{spec_mac_hex, spec_mac_text, MacAddress};

verus! {

/// An opaque identifier for a sensor on a specific Bluetooth adapter, used
/// to connect to it. Equality is its only meaningful operation; it may
/// change across restarts of the process, while the MAC address does not.
#[derive(Clone, Debug)]
pub struct DeviceId {
    pub object_path: Vec<u8>,
}

impl View for DeviceId {
    type V = Seq<u8>;

    open spec fn view(&self) -> Seq<u8> {
        self.object_path@
    }
}

impl DeviceId {
    pub fn new(object_path: Vec<u8>) -> (r: DeviceId)
        ensures
            r@ == object_path@,
    {
        DeviceId { object_path }
    }

    /// A fresh identifier naming the same device.
    pub fn duplicate(&self) -> (r: DeviceId)
        ensures
            r@ == self@,
    {
        DeviceId { object_path: self.object_path.clone() }
    }

    /// Whether two identifiers name the same device.
    pub fn same_as(&self, other: &DeviceId) -> (r: bool)
        ensures
            r == (self@ == other@),
    {
        let r = self.object_path == other.object_path;
        proof {
            if r {
                assert(self@ =~= other@);
            }
        }
        r
    }
}

/// The MAC address and opaque connection identifier of a sensor found by a
/// discovery scan; immutable once produced.
#[derive(Clone, Debug)]
pub struct SensorProps {
    /// An opaque identifier for the sensor, scoped to the Bluetooth adapter
    /// it was discovered on. This can be used to connect to it.
    pub id: DeviceId,
    /// The MAC address of the sensor.
    pub mac_address: MacAddress,
}

/// The connection state of one sensor, as this process believes it to be.
#[derive(Clone, Copy, Debug, PartialEq, Eq, Structural)]
pub enum ConnectionStatus {
    /// Not yet attempted to connect. Might already be connected from a
    /// previous run of this program.
    Unknown,
    /// Currently connecting; not tried again until the reservation expires.
    /// The reservation is a lease preventing two concurrent connection
    /// attempts to the same sensor from overlapping polling ticks.
    Connecting { reserved_until: u64 },
    /// Connected, but could not subscribe to updates. Characteristics
    /// sometimes take a while to show up after connecting, so one retry is
    /// allowed before giving up.
    SubscribingFailedOnce,
    /// Disconnected because updates stopped arriving.
    WatchdogTimeOut,
    /// Explicitly disconnected because something else went wrong.
    Disconnected,
    /// A disconnection event was received. Informational only: such events
    /// can race with reconnection, so the sensor might still be connected.
    MarkedDisconnected,
    /// Connected and subscribed to updates.
    Connected,
}

/// The state kinds, with the `Connecting` lease payload ignored: what the
/// status summary groups by.
#[derive(Clone, Copy, Debug, PartialEq, Eq, Structural)]
pub enum StatusKind {
    Unknown,
    Connecting,
    SubscribingFailedOnce,
    WatchdogTimeOut,
    Disconnected,
    MarkedDisconnected,
    Connected,
}

/// The kind of a status, ignoring the lease payload.
pub open spec fn kind_of(status: ConnectionStatus) -> StatusKind {
    match status {
        ConnectionStatus::Unknown => StatusKind::Unknown,
        ConnectionStatus::Connecting { .. } => StatusKind::Connecting,
        ConnectionStatus::SubscribingFailedOnce => StatusKind::SubscribingFailedOnce,
        ConnectionStatus::WatchdogTimeOut => StatusKind::WatchdogTimeOut,
        ConnectionStatus::Disconnected => StatusKind::Disconnected,
        ConnectionStatus::MarkedDisconnected => StatusKind::MarkedDisconnected,
        ConnectionStatus::Connected => StatusKind::Connected,
    }
}

impl ConnectionStatus {
    /// The kind of this status, for grouping where only the state kind
    /// matters and the lease payload does not.
    pub fn kind(&self) -> (r: StatusKind)
        ensures
            r == kind_of(*self),
    {
        match self {
            ConnectionStatus::Unknown => StatusKind::Unknown,
            ConnectionStatus::Connecting { .. } => StatusKind::Connecting,
            ConnectionStatus::SubscribingFailedOnce => StatusKind::SubscribingFailedOnce,
            ConnectionStatus::WatchdogTimeOut => StatusKind::WatchdogTimeOut,
            ConnectionStatus::Disconnected => StatusKind::Disconnected,
            ConnectionStatus::MarkedDisconnected => StatusKind::MarkedDisconnected,
            ConnectionStatus::Connected => StatusKind::Connected,
        }
    }
}

/// One sensor's orchestration record. Created when discovery first reports
/// a configured MAC address; never removed, so the sensor can be retried
/// across disconnections.
#[derive(Debug)]
pub struct Sensor {
    pub id: DeviceId,
    pub mac_address: MacAddress,
    pub name: String,
    pub last_update_timestamp: u64,
    pub connection_status: ConnectionStatus,
}

impl Sensor {
    /// A new registry record for a discovered sensor: named from the
    /// configuration table where configured, otherwise by its MAC address
    /// text; not yet connected; fresh at the given time (milliseconds of
    /// the caller's monotonic clock).
    pub fn new(props: SensorProps, sensor_names: &SensorNames, now: u64) -> (r: Sensor)
        ensures
            r.id@ == props.id@,
            r.mac_address == props.mac_address,
            r.name@ == match spec_lookup(sensor_names@, props.mac_address) {
                Some(n) => n,
                None => spec_mac_text(props.mac_address),
            },
            r.last_update_timestamp == now,
            r.connection_status == ConnectionStatus::Unknown,
    {
        let name = match sensor_names.get(props.mac_address) {
            Some(n) => n,
            None => props.mac_address.to_text(),
        };
        Sensor {
            id: props.id,
            mac_address: props.mac_address,
            name,
            last_update_timestamp: now,
            connection_status: ConnectionStatus::Unknown,
        }
    }

    /// The identifier of this sensor's telemetry node: its MAC address hex
    /// with the colons removed.
    pub fn node_id(&self) -> (r: String)
        ensures
            r@ == spec_mac_hex(self.mac_address),
    {
        self.mac_address.to_hex()
    }
}

/// Whether some sensor of the sequence carries the given MAC address.
pub open spec fn spec_contains_mac(sensors: Seq<Sensor>, mac: MacAddress) -> bool {
    exists|i: int| 0 <= i < sensors.len() && sensors[i].mac_address == mac
}

/// At most one registry entry per MAC address.
pub open spec fn spec_unique_macs(sensors: Seq<Sensor>) -> bool {
    forall|i: int, j: int|
        0 <= i < j < sensors.len() ==> sensors[i].mac_address != sensors[j].mac_address
}

/// How many sensors of the sequence are in a state of the given kind.
pub open spec fn spec_count_kind(sensors: Seq<Sensor>, kind: StatusKind) -> nat
    decreases sensors.len(),
{
    if sensors.len() == 0 {
        0
    } else {
        spec_count_kind(sensors.drop_last(), kind) + if kind_of(
            sensors.last().connection_status,
        ) == kind {
            1nat
        } else {
            0nat
        }
    }
}

/// The registry: every known sensor, and the round-robin cursor of the
/// polling loop. The cursor persists across ticks so attention wraps fairly
/// through the sequence instead of always favouring the first sensor.
#[derive(Debug)]
pub struct SensorState {
    pub sensors: Vec<Sensor>,
    pub next_idx: usize,
}

impl SensorState {
    /// The registry invariant: at most one entry per MAC address.
    pub open spec fn wf(&self) -> bool {
        spec_unique_macs(self.sensors@)
    }

    pub fn new() -> (r: SensorState)
        ensures
            r.sensors@ == Seq::<Sensor>::empty(),
            r.next_idx == 0,
            r.wf(),
    {
        let r = SensorState { sensors: Vec::new(), next_idx: 0 };
        proof {
            assert(r.sensors@ =~= Seq::<Sensor>::empty());
        }
        r
    }

    pub fn sensor_count(&self) -> (r: usize)
        ensures
            r == self.sensors@.len(),
    {
        self.sensors.len()
    }

    /// Whether some registered sensor carries the given MAC address.
    pub fn contains_mac(&self, mac: MacAddress) -> (r: bool)
        ensures
            r == spec_contains_mac(self.sensors@, mac),
    {
        let n = self.sensors.len();
        for i in 0..n
            invariant
                n == self.sensors@.len(),
                forall|j: int| 0 <= j < i ==> self.sensors@[j].mac_address != mac,
        {
            if self.sensors[i].mac_address == mac {
                return true;
            }
        }
        false
    }

    /// How many sensors are in a state of the given kind, for the status
    /// summary the polling loop prints each tick.
    pub fn count_with_status(&self, kind: StatusKind) -> (r: usize)
        ensures
            r == spec_count_kind(self.sensors@, kind),
    {
        let n = self.sensors.len();
        let mut count: usize = 0;
        for i in 0..n
            invariant
                n == self.sensors@.len(),
                count == spec_count_kind(self.sensors@.take(i as int), kind),
                count <= i,
        {
            proof {
                assert(self.sensors@.take(i + 1).drop_last() =~= self.sensors@.take(i as int));
                assert(self.sensors@.take(i + 1).last() == self.sensors@[i as int]);
            }
            if self.sensors[i].connection_status.kind() == kind {
                count += 1;
            }
        }
        proof {
            assert(self.sensors@.take(n as int) =~= self.sensors@);
        }
        count
    }

    /// The sensor the round-robin cursor points at, with its status, moving
    /// the cursor on by one; or nothing for the tick on which the cursor
    /// wraps back to the start of the sequence.
    pub fn next_actionable_sensor(&mut self) -> (r: Option<(usize, ConnectionStatus)>)
        ensures
            final(self).sensors@ == old(self).sensors@,
            old(self).next_idx < old(self).sensors@.len() ==> {
                &&& r == Some(
                    (
                        old(self).next_idx,
                        old(self).sensors@[old(self).next_idx as int].connection_status,
                    ),
                )
                &&& final(self).next_idx == old(self).next_idx + 1
            },
            old(self).next_idx >= old(self).sensors@.len() ==> r is None && final(self).next_idx
                == 0,
    {
        let idx = self.next_idx;
        if idx < self.sensors.len() {
            self.next_idx = idx + 1;
            Some((idx, self.sensors[idx].connection_status))
        } else {
            self.next_idx = 0;
            None
        }
    }
}

/// What one discovery pass leaves behind: the old entries stand untouched
/// in their order, every discovered sensor whose MAC address is configured
/// is registered afterwards, and whatever was appended is a fresh,
/// not-yet-connected record for a discovered, configured MAC address that
/// was not registered before — each address at most once.
pub open spec fn spec_discovery_post(
    before: Seq<Sensor>,
    after: Seq<Sensor>,
    discovered: Seq<SensorProps>,
    names: Seq<(MacAddress, Seq<char>)>,
    now: u64,
) -> bool {
    &&& after.len() >= before.len()
    &&& after.take(before.len() as int) == before
    &&& spec_unique_macs(after)
    &&& forall|j: int|
        0 <= j < discovered.len() && spec_lookup(names, discovered[j].mac_address) is Some
            ==> spec_contains_mac(after, discovered[j].mac_address)
    &&& forall|k: int|
        before.len() <= k < after.len() ==> {
            &&& !spec_contains_mac(before, after[k].mac_address)
            &&& spec_lookup(names, after[k].mac_address) is Some
            &&& after[k].connection_status == ConnectionStatus::Unknown
            &&& after[k].last_update_timestamp == now
            &&& after[k].name@ == spec_lookup(names, after[k].mac_address).unwrap()
            &&& exists|j: int|
                0 <= j < discovered.len() && discovered[j].mac_address == after[k].mac_address
                    && discovered[j].id@ == after[k].id@
        }
}

impl SensorState {
    /// Register every newly seen, configured sensor from one discovery
    /// scan. A sensor whose MAC address is absent from the name table, or
    /// already registered, is left alone.
    pub fn add_discovered_sensors(
        &mut self,
        discovered: &Vec<SensorProps>,
        sensor_names: &SensorNames,
        now: u64,
    )
        requires
            old(self).wf(),
        ensures
            final(self).wf(),
            final(self).next_idx == old(self).next_idx,
            spec_discovery_post(
                old(self).sensors@,
                final(self).sensors@,
                discovered@,
                sensor_names@,
                now,
            ),
    {
        let ghost before = self.sensors@;
        let n = discovered.len();
        for j in 0..n
            invariant
                n == discovered@.len(),
                self.next_idx == old(self).next_idx,
                self.sensors@.len() >= before.len(),
                self.sensors@.take(before.len() as int) == before,
                spec_unique_macs(self.sensors@),
                forall|p: int|
                    0 <= p < j && spec_lookup(sensor_names@, discovered@[p].mac_address) is Some
                        ==> spec_contains_mac(self.sensors@, discovered@[p].mac_address),
                forall|k: int|
                    before.len() <= k < self.sensors@.len() ==> {
                        &&& !spec_contains_mac(before, self.sensors@[k].mac_address)
                        &&& spec_lookup(sensor_names@, self.sensors@[k].mac_address) is Some
                        &&& self.sensors@[k].connection_status == ConnectionStatus::Unknown
                        &&& self.sensors@[k].last_update_timestamp == now
                        &&& self.sensors@[k].name@ == spec_lookup(
                            sensor_names@,
                            self.sensors@[k].mac_address,
                        ).unwrap()
                        &&& exists|q: int|
                            0 <= q < discovered@.len() && discovered@[q].mac_address
                                == self.sensors@[k].mac_address && discovered@[q].id@
                                == self.sensors@[k].id@
                    },
        {
            let mac = discovered[j].mac_address;
            let named = match sensor_names.get(mac) {
                Some(_) => true,
                None => false,
            };
            let already = self.contains_mac(mac);
            if named && !already {
                let props = SensorProps { id: discovered[j].id.duplicate(), mac_address: mac };
                let sensor = Sensor::new(props, sensor_names, now);
                let ghost prev = self.sensors@;
                self.sensors.push(sensor);
                proof {
                    let new = self.sensors@;
                    let last = new.len() - 1;
                    assert(new.take(before.len() as int) =~= prev.take(before.len() as int));
                    assert(new[last].mac_address == mac);
                    assert forall|m: MacAddress| spec_contains_mac(prev, m) implies
                        spec_contains_mac(new, m) by {
                        let w = choose|w: int| 0 <= w < prev.len() && prev[w].mac_address == m;
                        assert(new[w].mac_address == m);
                    }
                    assert forall|a: int, b: int| 0 <= a < b < new.len() implies
                        new[a].mac_address != new[b].mac_address by {
                        if b < last {
                            assert(new[a] == prev[a] && new[b] == prev[b]);
                        } else {
                            assert(new[b].mac_address == mac);
                            if new[a].mac_address == mac {
                                assert(prev[a].mac_address == mac);
                                assert(spec_contains_mac(prev, mac));
                            }
                        }
                    }
                }
            }
            proof {
                if named {
                    assert(spec_contains_mac(self.sensors@, discovered@[j as int].mac_address));
                }
            }
        }
    }
}

/// A device as reported by a discovery scan of the transport, before
/// filtering: any nearby Bluetooth device, with its advertised name if it
/// has one.
#[derive(Clone, Debug)]
pub struct DiscoveredDevice {
    pub id: DeviceId,
    pub mac_address: MacAddress,
    pub name: Option<String>,
}

/// Whether a discovered device advertises the Mijia 2 sensor's device name.
pub open spec fn spec_is_mijia_sensor(d: DiscoveredDevice) -> bool {
    d.name matches Some(n) && n@ == "LYWSD03MMC"@
}

/// The discovered devices that are Mijia sensors, in scan order.
pub open spec fn spec_filter_sensors(devices: Seq<DiscoveredDevice>) -> Seq<DiscoveredDevice>
    decreases devices.len(),
{
    if devices.len() == 0 {
        Seq::empty()
    } else {
        let rest = spec_filter_sensors(devices.drop_last());
        if spec_is_mijia_sensor(devices.last()) {
            rest.push(devices.last())
        } else {
            rest
        }
    }
}

/// Keep only the devices that advertise themselves as Mijia sensors, as
/// discovery properties ready for registration, in scan order.
pub fn filter_sensor_devices(devices: &Vec<DiscoveredDevice>) -> (r: Vec<SensorProps>)
    ensures
        r@.len() == spec_filter_sensors(devices@).len(),
        forall|k: int|
            0 <= k < r@.len() ==> r@[k].id@ == spec_filter_sensors(devices@)[k].id@
                && r@[k].mac_address == spec_filter_sensors(devices@)[k].mac_address,
{
    let target = String::from_str("LYWSD03MMC");
    let n = devices.len();
    let mut r: Vec<SensorProps> = Vec::new();
    for i in 0..n
        invariant
            n == devices@.len(),
            target@ == "LYWSD03MMC"@,
            r@.len() == spec_filter_sensors(devices@.take(i as int)).len(),
            forall|k: int|
                0 <= k < r@.len() ==> r@[k].id@ == spec_filter_sensors(devices@.take(i as int))[k].id@
                    && r@[k].mac_address == spec_filter_sensors(
                    devices@.take(i as int),
                )[k].mac_address,
    {
        proof {
            assert(devices@.take(i + 1).drop_last() =~= devices@.take(i as int));
            assert(devices@.take(i + 1).last() == devices@[i as int]);
        }
        let is_sensor = match &devices[i].name {
            Some(advertised) => *advertised == target,
            None => false,
        };
        if is_sensor {
            r.push(
                SensorProps {
                    id: devices[i].id.duplicate(),
                    mac_address: devices[i].mac_address,
                },
            );
        }
    }
    proof {
        assert(devices@.take(n as int) =~= devices@);
    }
    r
}

/// Idempotent discovery: running discovery a second time with the same
/// visible device set (and the same name table) adds nothing — in
/// particular it never produces a second registry entry for a MAC address
/// registered by the first run.
pub proof fn lemma_discovery_idempotent(
    s0: Seq<Sensor>,
    s1: Seq<Sensor>,
    s2: Seq<Sensor>,
    discovered: Seq<SensorProps>,
    names: Seq<(MacAddress, Seq<char>)>,
    now1: u64,
    now2: u64,
)
    requires
        spec_discovery_post(s0, s1, discovered, names, now1),
        spec_discovery_post(s1, s2, discovered, names, now2),
    ensures
        s2 == s1,
{
    if s2.len() > s1.len() {
        let k = s1.len() as int;
        assert(!spec_contains_mac(s1, s2[k].mac_address));
        let j = choose|j: int|
            0 <= j < discovered.len() && discovered[j].mac_address == s2[k].mac_address
                && discovered[j].id@ == s2[k].id@;
        assert(spec_contains_mac(s1, discovered[j].mac_address));
    }
    assert(s2 =~= s2.take(s1.len() as int));
}

} // verus!
