//! The connection orchestrator: what the polling loop does to one sensor
//! per tick.
//!
//! Each tick picks the next sensor in round-robin order and acts on its
//! status: a sensor holding an unexpired connection lease is skipped, a
//! connected sensor is checked for staleness, and every other sensor gets a
//! connection attempt. The caller performs the transport I/O between
//! `begin_connect` and the matching completion call; the decisions, and
//! every registry mutation, live here.

use vstd::prelude::*;

use crate::dispatch::TelemetryAction;
use crate::errors::OrchestratorError;
use crate::registry::{ConnectionStatus, Sensor, SensorState};

verus! {

/// How long a connection reservation lasts, in milliseconds: the lease that
/// keeps overlapping polling ticks from starting two concurrent connection
/// attempts to one sensor.
pub const SENSOR_CONNECT_RESERVATION_TIMEOUT_MS: u64 = 300_000;

/// How long a connected sensor may stay silent before the watchdog forces a
/// reconnection, in milliseconds.
pub const UPDATE_TIMEOUT_MS: u64 = 60_000;

/// The pause between polling ticks, in milliseconds.
pub const CONNECT_INTERVAL_MS: u64 = 1_000;

/// The pause between discovery scans, in milliseconds.
pub const SCAN_INTERVAL_MS: u64 = 15_000;

/// What a polling tick does with the sensor the cursor picked.
#[derive(Clone, Copy, Debug, PartialEq, Eq, Structural)]
pub enum TickAction {
    /// Leave the sensor alone: it holds an unexpired connection lease.
    Skip,
    /// Attempt to connect and subscribe.
    AttemptConnect,
    /// The sensor is believed connected: check it for staleness.
    CheckStale,
}

/// The tick decision: an unexpired lease is skipped, a connected sensor is
/// watchdog-checked, and everything else — including an expired lease — is
/// given a connection attempt.
pub open spec fn spec_tick_decision(status: ConnectionStatus, now: u64) -> TickAction {
    match status {
        ConnectionStatus::Connecting { reserved_until } => if reserved_until > now {
            TickAction::Skip
        } else {
            TickAction::AttemptConnect
        },
        ConnectionStatus::Connected => TickAction::CheckStale,
        _ => TickAction::AttemptConnect,
    }
}

pub fn tick_decision(status: ConnectionStatus, now: u64) -> (r: TickAction)
    ensures
        r == spec_tick_decision(status, now),
{
    match status {
        ConnectionStatus::Connecting { reserved_until } => if reserved_until > now {
            TickAction::Skip
        } else {
            TickAction::AttemptConnect
        },
        ConnectionStatus::Connected => TickAction::CheckStale,
        _ => TickAction::AttemptConnect,
    }
}

/// What the caller must do when subscribing failed after a successful
/// connect.
#[derive(Clone, Copy, Debug, PartialEq, Eq, Structural)]
pub enum SubscribeFailureAction {
    /// First failure: record it and retry on a later tick.
    MarkFailedOnce,
    /// Second failure in a row: disconnect the device so the next attempt
    /// starts from a clean state.
    DisconnectDevice,
}

/// The response to a subscribe failure, from the status the sensor had
/// before the attempt: one recorded failure is tolerated, a second leads to
/// an explicit disconnect. A sensor already `Connected` is never given an
/// attempt, so that status here is an illegal transition, reported rather
/// than panicking.
pub fn subscribe_failure_response(prior: ConnectionStatus) -> (r: Result<
    SubscribeFailureAction,
    OrchestratorError,
>)
    ensures
        prior is SubscribingFailedOnce ==> r == Ok::<SubscribeFailureAction, OrchestratorError>(
            SubscribeFailureAction::DisconnectDevice,
        ),
        prior is Connected ==> r == Err::<SubscribeFailureAction, OrchestratorError>(
            OrchestratorError::IllegalTransition,
        ),
        !(prior is SubscribingFailedOnce) && !(prior is Connected) ==> r == Ok::<
            SubscribeFailureAction,
            OrchestratorError,
        >(SubscribeFailureAction::MarkFailedOnce),
{
    match prior {
        ConnectionStatus::SubscribingFailedOnce => Ok(SubscribeFailureAction::DisconnectDevice),
        ConnectionStatus::Connected => Err(OrchestratorError::IllegalTransition),
        _ => Ok(SubscribeFailureAction::MarkFailedOnce),
    }
}

impl SensorState {
    /// Start a connection attempt: take the reservation lease, and hand
    /// back the device identifier to connect to together with the sensor's
    /// prior status, which decides how a subscribe failure is handled and
    /// what a transport failure reverts to.
    pub fn begin_connect(&mut self, idx: usize, now: u64) -> (r: (
        crate::registry::DeviceId,
        ConnectionStatus,
    ))
        requires
            idx < old(self).sensors@.len(),
            now + SENSOR_CONNECT_RESERVATION_TIMEOUT_MS <= u64::MAX,
        ensures
            final(self).sensors@ == old(self).sensors@.update(
                idx as int,
                Sensor {
                    connection_status: ConnectionStatus::Connecting {
                        reserved_until: (now + SENSOR_CONNECT_RESERVATION_TIMEOUT_MS) as u64,
                    },
                    ..old(self).sensors@[idx as int]
                },
            ),
            final(self).next_idx == old(self).next_idx,
            old(self).wf() ==> final(self).wf(),
            r.0@ == old(self).sensors@[idx as int].id@,
            r.1 == old(self).sensors@[idx as int].connection_status,
    {
        let id = self.sensors[idx].id.duplicate();
        let prior = self.sensors[idx].connection_status;
        self.sensors[idx].connection_status = ConnectionStatus::Connecting {
            reserved_until: now + SENSOR_CONNECT_RESERVATION_TIMEOUT_MS,
        };
        proof {
            assert(self.sensors@ =~= old(self).sensors@.update(
                idx as int,
                Sensor {
                    connection_status: ConnectionStatus::Connecting {
                        reserved_until: (now + SENSOR_CONNECT_RESERVATION_TIMEOUT_MS) as u64,
                    },
                    ..old(self).sensors@[idx as int]
                },
            ));
        }
        (id, prior)
    }

    /// Record a fully successful attempt: connected and subscribed. The
    /// sensor is fresh as of now, and its telemetry node must be
    /// registered.
    pub fn connect_succeeded(&mut self, idx: usize, now: u64) -> (action: TelemetryAction)
        requires
            idx < old(self).sensors@.len(),
        ensures
            final(self).sensors@ == old(self).sensors@.update(
                idx as int,
                Sensor {
                    connection_status: ConnectionStatus::Connected,
                    last_update_timestamp: now,
                    ..old(self).sensors@[idx as int]
                },
            ),
            final(self).next_idx == old(self).next_idx,
            old(self).wf() ==> final(self).wf(),
            action matches TelemetryAction::AddNode { node_id, display_name } && node_id@
                == crate::mac::spec_mac_hex(old(self).sensors@[idx as int].mac_address)
                && display_name@ == old(self).sensors@[idx as int].name@,
    {
        self.sensors[idx].connection_status = ConnectionStatus::Connected;
        self.sensors[idx].last_update_timestamp = now;
        let node_id = self.sensors[idx].node_id();
        let display_name = self.sensors[idx].name.clone();
        proof {
            assert(self.sensors@ =~= old(self).sensors@.update(
                idx as int,
                Sensor {
                    connection_status: ConnectionStatus::Connected,
                    last_update_timestamp: now,
                    ..old(self).sensors@[idx as int]
                },
            ));
        }
        TelemetryAction::AddNode { node_id, display_name }
    }

    /// Record a transport failure of the attempt (the connect call itself
    /// failed, or the clean-up disconnect after a second subscribe failure
    /// did): the reservation is given back and the sensor returns to the
    /// status it had before the attempt, to be retried on a later round.
    pub fn connect_failed(&mut self, idx: usize, prior: ConnectionStatus)
        requires
            idx < old(self).sensors@.len(),
        ensures
            final(self).sensors@ == old(self).sensors@.update(
                idx as int,
                Sensor { connection_status: prior, ..old(self).sensors@[idx as int] },
            ),
            final(self).next_idx == old(self).next_idx,
            old(self).wf() ==> final(self).wf(),
    {
        self.sensors[idx].connection_status = prior;
        proof {
            assert(self.sensors@ =~= old(self).sensors@.update(
                idx as int,
                Sensor { connection_status: prior, ..old(self).sensors@[idx as int] },
            ));
        }
    }

    /// Record the first subscribe failure of an attempt: tolerated once,
    /// retried from `SubscribingFailedOnce` on a later round.
    pub fn subscribe_failed_once(&mut self, idx: usize)
        requires
            idx < old(self).sensors@.len(),
        ensures
            final(self).sensors@ == old(self).sensors@.update(
                idx as int,
                Sensor {
                    connection_status: ConnectionStatus::SubscribingFailedOnce,
                    ..old(self).sensors@[idx as int]
                },
            ),
            final(self).next_idx == old(self).next_idx,
            old(self).wf() ==> final(self).wf(),
    {
        self.sensors[idx].connection_status = ConnectionStatus::SubscribingFailedOnce;
        proof {
            assert(self.sensors@ =~= old(self).sensors@.update(
                idx as int,
                Sensor {
                    connection_status: ConnectionStatus::SubscribingFailedOnce,
                    ..old(self).sensors@[idx as int]
                },
            ));
        }
    }

    /// Record that the clean-up disconnect after a second subscribe failure
    /// went through: the sensor is explicitly disconnected.
    pub fn disconnect_completed(&mut self, idx: usize)
        requires
            idx < old(self).sensors@.len(),
        ensures
            final(self).sensors@ == old(self).sensors@.update(
                idx as int,
                Sensor {
                    connection_status: ConnectionStatus::Disconnected,
                    ..old(self).sensors@[idx as int]
                },
            ),
            final(self).next_idx == old(self).next_idx,
            old(self).wf() ==> final(self).wf(),
    {
        self.sensors[idx].connection_status = ConnectionStatus::Disconnected;
        proof {
            assert(self.sensors@ =~= old(self).sensors@.update(
                idx as int,
                Sensor {
                    connection_status: ConnectionStatus::Disconnected,
                    ..old(self).sensors@[idx as int]
                },
            ));
        }
    }

    /// The watchdog: if a connected sensor has been silent for longer than
    /// the staleness timeout, force it into `WatchdogTimeOut` so the next
    /// round reconnects, and ask for its telemetry node to be removed.
    pub fn check_stale(&mut self, idx: usize, now: u64) -> (r: Option<TelemetryAction>)
        requires
            idx < old(self).sensors@.len(),
            old(self).sensors@[idx as int].connection_status is Connected,
        ensures
            final(self).next_idx == old(self).next_idx,
            old(self).wf() ==> final(self).wf(),
            now > old(self).sensors@[idx as int].last_update_timestamp + UPDATE_TIMEOUT_MS ==> {
                &&& final(self).sensors@ == old(self).sensors@.update(
                    idx as int,
                    Sensor {
                        connection_status: ConnectionStatus::WatchdogTimeOut,
                        ..old(self).sensors@[idx as int]
                    },
                )
                &&& r matches Some(TelemetryAction::RemoveNode { node_id }) && node_id@
                    == crate::mac::spec_mac_hex(old(self).sensors@[idx as int].mac_address)
            },
            now <= old(self).sensors@[idx as int].last_update_timestamp + UPDATE_TIMEOUT_MS ==> {
                final(self).sensors@ == old(self).sensors@ && r is None
            },
    {
        let last = self.sensors[idx].last_update_timestamp;
        if now > last && now - last > UPDATE_TIMEOUT_MS {
            self.sensors[idx].connection_status = ConnectionStatus::WatchdogTimeOut;
            let node_id = self.sensors[idx].node_id();
            proof {
                assert(self.sensors@ =~= old(self).sensors@.update(
                    idx as int,
                    Sensor {
                        connection_status: ConnectionStatus::WatchdogTimeOut,
                        ..old(self).sensors@[idx as int]
                    },
                ));
            }
            Some(TelemetryAction::RemoveNode { node_id })
        } else {
            None
        }
    }
}

/// Whether a discovery scan is due: the scan interval has elapsed and the
/// registry still has fewer sensors than the configured name list.
pub fn should_scan(now: u64, next_scan_due: u64, registered: usize, configured: usize) -> (r: bool)
    ensures
        r == (now > next_scan_due && registered < configured),
{
    now > next_scan_due && registered < configured
}

/// How one tick leaves a sensor's status, given what the environment did:
/// whether the transport reported the sensor stale, and how a connection
/// attempt came out. This is the per-sensor state machine that the
/// executable registry operations above implement step by step.
#[derive(Clone, Copy, Debug, PartialEq, Eq, Structural)]
pub enum ConnectOutcome {
    /// The transport connect call failed; nothing was subscribed.
    ConnectFailed,
    /// Connected, but subscribing failed; a clean-up disconnect, where one
    /// was owed, went through.
    SubscribeFailed,
    /// Connected, subscribing failed a second time, and the clean-up
    /// disconnect failed too.
    SubscribeFailedDisconnectFailed,
    /// Connected and subscribed.
    Succeeded,
}

/// The status after one tick at time `now`, for a sensor that was stale
/// (`stale`) if watchdog-checked and whose connection attempt, if one was
/// made, came out as `outcome`.
pub open spec fn spec_tick_status(
    status: ConnectionStatus,
    now: u64,
    stale: bool,
    outcome: ConnectOutcome,
) -> ConnectionStatus {
    match spec_tick_decision(status, now) {
        TickAction::Skip => status,
        TickAction::CheckStale => if stale {
            ConnectionStatus::WatchdogTimeOut
        } else {
            status
        },
        TickAction::AttemptConnect => match outcome {
            ConnectOutcome::Succeeded => ConnectionStatus::Connected,
            ConnectOutcome::ConnectFailed => status,
            ConnectOutcome::SubscribeFailedDisconnectFailed => status,
            ConnectOutcome::SubscribeFailed => if status is SubscribingFailedOnce {
                ConnectionStatus::Disconnected
            } else {
                ConnectionStatus::SubscribingFailedOnce
            },
        },
    }
}

/// State-machine safety, part one: a tick leaves a sensor entirely alone
/// only while it holds an unexpired connection lease. Every other status —
/// an expired lease included — is acted on.
pub proof fn lemma_skip_only_while_lease_held(status: ConnectionStatus, now: u64)
    ensures
        spec_tick_decision(status, now) == TickAction::Skip <==> (status matches
            ConnectionStatus::Connecting { reserved_until } && reserved_until > now),
{
}

/// State-machine safety, part two: a sensor holding an expired lease is
/// attempted on its very next tick, and the tick ends with the sensor
/// `Connected`, `SubscribingFailedOnce` or `Disconnected` — or unchanged
/// only because the transport itself failed, in which case the lease is
/// still expired and the sensor is attempted again on its next round. So a
/// sensor never sits on an expired lease without the orchestrator working
/// on it.
pub proof fn lemma_expired_lease_always_attempted(
    status: ConnectionStatus,
    now: u64,
    stale: bool,
    outcome: ConnectOutcome,
)
    requires
        status matches ConnectionStatus::Connecting { reserved_until } && reserved_until <= now,
    ensures
        spec_tick_decision(status, now) == TickAction::AttemptConnect,
        spec_tick_status(status, now, stale, outcome) == ConnectionStatus::Connected
            || spec_tick_status(status, now, stale, outcome)
            == ConnectionStatus::SubscribingFailedOnce || spec_tick_status(
            status,
            now,
            stale,
            outcome,
        ) == ConnectionStatus::Disconnected || (spec_tick_status(status, now, stale, outcome)
            == status && (outcome == ConnectOutcome::ConnectFailed || outcome
            == ConnectOutcome::SubscribeFailedDisconnectFailed)),
{
}

/// State-machine safety, part three: a connection attempt is never made on
/// a sensor believed `Connected`, so the illegal
/// `Connected -> Connecting` transition cannot occur by construction.
pub proof fn lemma_connected_never_reattempted(status: ConnectionStatus, now: u64)
    requires
        status is Connected,
    ensures
        spec_tick_decision(status, now) != TickAction::AttemptConnect,
{
}

/// The statuses a sensor can pass through over any sequence of ticks,
/// starting from `status` and folding `spec_tick_status` over the ticks'
/// times and environments.
pub open spec fn spec_run_ticks(
    status: ConnectionStatus,
    ticks: Seq<(u64, bool, ConnectOutcome)>,
) -> ConnectionStatus
    decreases ticks.len(),
{
    if ticks.len() == 0 {
        status
    } else {
        spec_tick_status(
            spec_run_ticks(status, ticks.drop_last()),
            ticks.last().0,
            ticks.last().1,
            ticks.last().2,
        )
    }
}

/// State-machine safety over whole histories: after any sequence of ticks,
/// if the sensor holds a `Connecting` lease that the next tick finds
/// expired, that tick attempts the connection — it can never skip the
/// sensor. With the per-tick guarantees above, a sensor therefore never
/// stays `Connecting` past its reservation deadline without completing
/// into `Connected` or failing into `SubscribingFailedOnce` or
/// `Disconnected`, except transiently across ticks whose transport calls
/// themselves failed.
pub proof fn lemma_state_machine_safety(
    status: ConnectionStatus,
    ticks: Seq<(u64, bool, ConnectOutcome)>,
    now: u64,
)
    requires
        spec_run_ticks(status, ticks) matches ConnectionStatus::Connecting { reserved_until }
            && reserved_until <= now,
    ensures
        spec_tick_decision(spec_run_ticks(status, ticks), now) == TickAction::AttemptConnect,
{
}

} // verus!
