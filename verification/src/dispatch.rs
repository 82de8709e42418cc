//! The event dispatcher: applies translated domain events to the registry
//! and says what must be published to the telemetry bus.
//!
//! The dispatcher mutates the registry under the caller's lock and returns
//! the telemetry calls to make once the lock is released; it performs no
//! I/O itself.

use vstd::prelude::*;

use crate::events::MijiaEvent;
use crate::mac::spec_mac_hex;
use crate::readings::Readings;
use crate::registry::{ConnectionStatus, Sensor, SensorState};

verus! {

/// One call the caller owes the telemetry collaborator.
#[derive(Debug)]
pub enum TelemetryAction {
    /// Register the sensor's telemetry node, under its display name.
    AddNode { node_id: String, display_name: String },
    /// Remove the sensor's telemetry node.
    RemoveNode { node_id: String },
    /// Publish a fresh set of readings under the sensor's node.
    PublishReadings { node_id: String, readings: Readings },
}

/// The position of the first sensor carrying the given device identifier,
/// if any.
pub open spec fn spec_find_by_id(sensors: Seq<Sensor>, id: Seq<u8>) -> Option<int>
    decreases sensors.len(),
{
    if sensors.len() == 0 {
        None
    } else if sensors[0].id@ == id {
        Some(0)
    } else {
        match spec_find_by_id(sensors.drop_first(), id) {
            Some(i) => Some(i + 1),
            None => None,
        }
    }
}

/// What `spec_find_by_id` finds: the first position with the identifier,
/// or a guarantee that no position carries it.
pub proof fn lemma_find_by_id(sensors: Seq<Sensor>, id: Seq<u8>)
    ensures
        match spec_find_by_id(sensors, id) {
            Some(i) => 0 <= i < sensors.len() && sensors[i].id@ == id && forall|j: int|
                0 <= j < i ==> sensors[j].id@ != id,
            None => forall|j: int| 0 <= j < sensors.len() ==> sensors[j].id@ != id,
        },
    decreases sensors.len(),
{
    if sensors.len() == 0 {
    } else if sensors[0].id@ == id {
        assert(spec_find_by_id(sensors, id) == Some(0int));
    } else {
        let rest = sensors.drop_first();
        lemma_find_by_id(rest, id);
        assert forall|j: int| 0 <= j < rest.len() implies rest[j] == sensors[j + 1] by {}
        match spec_find_by_id(rest, id) {
            Some(i) => {
                assert(spec_find_by_id(sensors, id) == Some(i + 1));
                assert(sensors[i + 1].id@ == id);
                assert forall|j: int| 0 <= j < i + 1 implies sensors[j].id@ != id by {
                    if j > 0 {
                        assert(rest[j - 1].id@ != id);
                    }
                }
            },
            None => {
                assert forall|j: int| 0 <= j < sensors.len() implies sensors[j].id@ != id by {
                    if j > 0 {
                        assert(rest[j - 1].id@ != id);
                    }
                }
            },
        }
    }
}

impl SensorState {
    /// The position of the first sensor carrying the given device
    /// identifier, if any.
    pub fn find_by_id(&self, id: &crate::registry::DeviceId) -> (r: Option<usize>)
        ensures
            match r {
                Some(i) => i < self.sensors@.len() && spec_find_by_id(self.sensors@, id@) == Some(
                    i as int,
                ),
                None => spec_find_by_id(self.sensors@, id@) is None,
            },
    {
        let n = self.sensors.len();
        for i in 0..n
            invariant
                n == self.sensors@.len(),
                forall|j: int| 0 <= j < i ==> self.sensors@[j].id@ != id@,
        {
            if self.sensors[i].id.same_as(id) {
                proof {
                    lemma_find_by_id(self.sensors@, id@);
                    match spec_find_by_id(self.sensors@, id@) {
                        Some(k) => {
                            assert(k == i);
                        },
                        None => {
                            assert(self.sensors@[i as int].id@ == id@);
                        },
                    }
                }
                return Some(i);
            }
        }
        proof {
            lemma_find_by_id(self.sensors@, id@);
        }
        None
    }

    /// Apply one domain event to the registry, at the given time
    /// (milliseconds of the caller's monotonic clock), and return the
    /// telemetry calls now owed.
    ///
    /// A `Readings` event for a known sensor publishes the readings and
    /// refreshes its freshness timestamp; if the sensor was not believed
    /// `Connected` or `Connecting`, the arrival of data is taken as proof
    /// of liveness: the sensor becomes `Connected` and its telemetry node
    /// is registered exactly once more. A `Disconnected` event moves a
    /// `Connected` sensor to `MarkedDisconnected` and removes its node; for
    /// a sensor in any other state it is informational only, because
    /// disconnection events race with reconnection, and changes nothing. An
    /// event for an unknown device changes nothing. A `HistoryRecord` event
    /// is only meaningful during bulk history retrieval and is ignored
    /// here.
    pub fn apply_event(&mut self, event: &MijiaEvent, now: u64) -> (actions: Vec<TelemetryAction>)
        ensures
            final(self).next_idx == old(self).next_idx,
            old(self).wf() ==> final(self).wf(),
            event matches MijiaEvent::Readings { id, readings } ==> match spec_find_by_id(
                old(self).sensors@,
                id@,
            ) {
                Some(i) => {
                    if old(self).sensors@[i].connection_status is Connected || old(
                        self,
                    ).sensors@[i].connection_status is Connecting {
                        &&& final(self).sensors@ == old(self).sensors@.update(
                            i,
                            Sensor { last_update_timestamp: now, ..old(self).sensors@[i] },
                        )
                        &&& actions@.len() == 1
                    } else {
                        &&& final(self).sensors@ == old(self).sensors@.update(
                            i,
                            Sensor {
                                last_update_timestamp: now,
                                connection_status: ConnectionStatus::Connected,
                                ..old(self).sensors@[i]
                            },
                        )
                        &&& actions@.len() == 2
                        &&& actions@[1] matches TelemetryAction::AddNode { node_id, display_name }
                            && node_id@ == spec_mac_hex(old(self).sensors@[i].mac_address)
                            && display_name@ == old(self).sensors@[i].name@
                    }
                },
                None => final(self).sensors@ == old(self).sensors@ && actions@.len() == 0,
            },
            event matches MijiaEvent::Readings { id, readings } ==> match spec_find_by_id(
                old(self).sensors@,
                id@,
            ) {
                Some(i) => actions@[0] matches TelemetryAction::PublishReadings {
                    node_id,
                    readings: published,
                } && node_id@ == spec_mac_hex(old(self).sensors@[i].mac_address) && published
                    == *readings,
                None => true,
            },
            event matches MijiaEvent::Disconnected { id } ==> match spec_find_by_id(
                old(self).sensors@,
                id@,
            ) {
                Some(i) => {
                    if old(self).sensors@[i].connection_status is Connected {
                        &&& final(self).sensors@ == old(self).sensors@.update(
                            i,
                            Sensor {
                                connection_status: ConnectionStatus::MarkedDisconnected,
                                ..old(self).sensors@[i]
                            },
                        )
                        &&& actions@.len() == 1
                        &&& actions@[0] matches TelemetryAction::RemoveNode { node_id } && node_id@
                            == spec_mac_hex(old(self).sensors@[i].mac_address)
                    } else {
                        final(self).sensors@ == old(self).sensors@ && actions@.len() == 0
                    }
                },
                None => final(self).sensors@ == old(self).sensors@ && actions@.len() == 0,
            },
            event matches MijiaEvent::HistoryRecord { id, record } ==> final(self).sensors@ == old(
                self,
            ).sensors@ && actions@.len() == 0,
    {
        let mut actions: Vec<TelemetryAction> = Vec::new();
        match event {
            MijiaEvent::Readings { id, readings } => {
                if let Some(i) = self.find_by_id(id) {
                    let node_id = self.sensors[i].node_id();
                    actions.push(
                        TelemetryAction::PublishReadings { node_id, readings: *readings },
                    );
                    self.sensors[i].last_update_timestamp = now;
                    let keep_status = match self.sensors[i].connection_status {
                        ConnectionStatus::Connected => true,
                        ConnectionStatus::Connecting { .. } => true,
                        _ => false,
                    };
                    if !keep_status {
                        self.sensors[i].connection_status = ConnectionStatus::Connected;
                        let node_id = self.sensors[i].node_id();
                        let display_name = self.sensors[i].name.clone();
                        actions.push(TelemetryAction::AddNode { node_id, display_name });
                        proof {
                            assert(self.sensors@ =~= old(self).sensors@.update(
                                i as int,
                                Sensor {
                                    last_update_timestamp: now,
                                    connection_status: ConnectionStatus::Connected,
                                    ..old(self).sensors@[i as int]
                                },
                            ));
                        }
                    } else {
                        proof {
                            assert(self.sensors@ =~= old(self).sensors@.update(
                                i as int,
                                Sensor {
                                    last_update_timestamp: now,
                                    ..old(self).sensors@[i as int]
                                },
                            ));
                        }
                    }
                }
            },
            MijiaEvent::Disconnected { id } => {
                if let Some(i) = self.find_by_id(id) {
                    let is_connected = match self.sensors[i].connection_status {
                        ConnectionStatus::Connected => true,
                        _ => false,
                    };
                    if is_connected {
                        self.sensors[i].connection_status = ConnectionStatus::MarkedDisconnected;
                        let node_id = self.sensors[i].node_id();
                        actions.push(TelemetryAction::RemoveNode { node_id });
                        proof {
                            assert(self.sensors@ =~= old(self).sensors@.update(
                                i as int,
                                Sensor {
                                    connection_status: ConnectionStatus::MarkedDisconnected,
                                    ..old(self).sensors@[i as int]
                                },
                            ));
                        }
                    }
                }
            },
            MijiaEvent::HistoryRecord { .. } => {},
        }
        actions
    }
}

} // verus!
