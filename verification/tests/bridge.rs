//! Tests of the bridge logic: MAC addresses, the name configuration, the
//! sensor registry, the event translator and dispatcher, and the
//! connection orchestrator.

use mijia::config::{parse_name_line, SensorNames};
use mijia::dispatch::TelemetryAction;
use mijia::errors::{ConfigError, OrchestratorError};
use mijia::events::{translate, MijiaEvent, TransportEvent};
use mijia::mac::MacAddress;
use mijia::orchestrator::{should_scan, subscribe_failure_response, tick_decision,
    SubscribeFailureAction, TickAction, SENSOR_CONNECT_RESERVATION_TIMEOUT_MS,
    UPDATE_TIMEOUT_MS};
use mijia::readings::Readings;
use mijia::registry::{filter_sensor_devices, ConnectionStatus, DeviceId, DiscoveredDevice,
    Sensor, SensorProps, SensorState, StatusKind};

fn mac(last: u8) -> MacAddress {
    MacAddress::from_octets([0xa4, 0xc1, 0x38, 0x01, 0x02, last])
}

fn device_id(path: &str) -> DeviceId {
    DeviceId::new(path.as_bytes().to_vec())
}

fn named_state(names: &SensorNames, macs: &[MacAddress]) -> SensorState {
    let mut state = SensorState::new();
    let discovered: Vec<SensorProps> = macs
        .iter()
        .enumerate()
        .map(|(i, &mac_address)| SensorProps {
            id: device_id(&format!("/org/bluez/hci0/dev_{}", i)),
            mac_address,
        })
        .collect();
    state.add_discovered_sensors(&discovered, names, 0);
    state
}

#[test]
fn mac_to_text_and_hex() {
    let m = mac(0x0f);
    assert_eq!(m.to_text(), "a4:c1:38:01:02:0f");
    assert_eq!(m.to_hex(), "a4c13801020f");
}

#[test]
fn mac_parse_round_trip() {
    let m = mac(0xee);
    assert_eq!(MacAddress::parse(&m.to_text()), Ok(m));
    // Upper-case hex parses too.
    assert_eq!(MacAddress::parse("A4:C1:38:01:02:EE"), Ok(m));
}

#[test]
fn mac_parse_rejects_malformed_text() {
    for bad in &[
        "",
        "a4:c1:38:01:02",
        "a4:c1:38:01:02:0f:11",
        "a4-c1-38-01-02-0f",
        "g4:c1:38:01:02:0f",
        "a4:c1:38:01:02:0",
    ] {
        assert_eq!(
            MacAddress::parse(bad),
            Err(ConfigError::InvalidMacAddress)
        );
    }
}

#[test]
fn name_line_parses() {
    let (m, name) = parse_name_line("A4:C1:38:01:02:EE=Living Room").unwrap();
    assert_eq!(m, mac(0xee));
    assert_eq!(name, "Living Room");
}

#[test]
fn name_line_rejects_second_separator() {
    // Exactly one `=` per line: a second one anywhere is a fatal error.
    assert_eq!(
        parse_name_line("a4:c1:38:01:02:01=Desk = Office"),
        Err(ConfigError::ExtraSeparator)
    );
    assert_eq!(
        parse_name_line("a4:c1:38:01:02:01=x=y"),
        Err(ConfigError::ExtraSeparator)
    );
}

#[test]
fn name_line_errors() {
    assert_eq!(
        parse_name_line("no separator here"),
        Err(ConfigError::MissingSeparator)
    );
    assert_eq!(
        parse_name_line("not-a-mac=Kitchen"),
        Err(ConfigError::InvalidMacAddress)
    );
}

#[test]
fn sensor_names_later_entry_wins() {
    let mut names = SensorNames::new();
    names.add(mac(1), "First".to_string());
    names.add(mac(2), "Other".to_string());
    names.add(mac(1), "Second".to_string());
    assert_eq!(names.len(), 3);
    assert_eq!(names.get(mac(1)), Some("Second".to_string()));
    assert_eq!(names.get(mac(2)), Some("Other".to_string()));
    assert_eq!(names.get(mac(3)), None);
}

#[test]
fn sensor_naming() {
    let mut names = SensorNames::new();
    names.add(mac(1), "Bedroom".to_string());
    let configured = Sensor::new(
        SensorProps { id: device_id("/dev_1"), mac_address: mac(1) },
        &names,
        7,
    );
    assert_eq!(configured.name, "Bedroom");
    assert_eq!(configured.last_update_timestamp, 7);
    assert!(matches!(configured.connection_status, ConnectionStatus::Unknown));
    // A sensor without a configured name falls back to its address text.
    let fallback = Sensor::new(
        SensorProps { id: device_id("/dev_2"), mac_address: mac(2) },
        &names,
        7,
    );
    assert_eq!(fallback.name, "a4:c1:38:01:02:02");
    assert_eq!(fallback.node_id(), "a4c138010202");
}

#[test]
fn filter_keeps_only_mijia_sensors() {
    let devices = vec![
        DiscoveredDevice {
            id: device_id("/dev_0"),
            mac_address: mac(0),
            name: Some("LYWSD03MMC".to_string()),
        },
        DiscoveredDevice {
            id: device_id("/dev_1"),
            mac_address: mac(1),
            name: Some("Some headphones".to_string()),
        },
        DiscoveredDevice { id: device_id("/dev_2"), mac_address: mac(2), name: None },
        DiscoveredDevice {
            id: device_id("/dev_3"),
            mac_address: mac(3),
            name: Some("LYWSD03MMC".to_string()),
        },
    ];
    let sensors = filter_sensor_devices(&devices);
    assert_eq!(sensors.len(), 2);
    assert_eq!(sensors[0].mac_address, mac(0));
    assert_eq!(sensors[1].mac_address, mac(3));
}

#[test]
fn discovery_registers_only_configured_macs() {
    let mut names = SensorNames::new();
    names.add(mac(1), "One".to_string());
    names.add(mac(2), "Two".to_string());
    let state = named_state(&names, &[mac(1), mac(3)]);
    assert_eq!(state.sensor_count(), 1);
    assert_eq!(state.sensors[0].mac_address, mac(1));
}

#[test]
fn discovery_is_idempotent() {
    let mut names = SensorNames::new();
    names.add(mac(1), "One".to_string());
    names.add(mac(2), "Two".to_string());
    let mut state = SensorState::new();
    let discovered = vec![
        SensorProps { id: device_id("/dev_1"), mac_address: mac(1) },
        SensorProps { id: device_id("/dev_2"), mac_address: mac(2) },
        // The same address showing up twice in one scan is registered once.
        SensorProps { id: device_id("/dev_1b"), mac_address: mac(1) },
    ];
    state.add_discovered_sensors(&discovered, &names, 0);
    assert_eq!(state.sensor_count(), 2);
    // A second pass over the same visible set adds nothing.
    state.add_discovered_sensors(&discovered, &names, 99);
    assert_eq!(state.sensor_count(), 2);
    assert_eq!(state.sensors[0].mac_address, mac(1));
    assert_eq!(state.sensors[1].mac_address, mac(2));
}

#[test]
fn round_robin_cursor_wraps() {
    let mut names = SensorNames::new();
    names.add(mac(1), "One".to_string());
    names.add(mac(2), "Two".to_string());
    let mut state = named_state(&names, &[mac(1), mac(2)]);
    assert_eq!(state.next_actionable_sensor().map(|(i, _)| i), Some(0));
    assert_eq!(state.next_actionable_sensor().map(|(i, _)| i), Some(1));
    // The wrap tick acts on nobody and resets the cursor.
    assert_eq!(state.next_actionable_sensor().map(|(i, _)| i), None);
    assert_eq!(state.next_actionable_sensor().map(|(i, _)| i), Some(0));
}

#[test]
fn status_histogram() {
    let mut names = SensorNames::new();
    for i in 1..=3 {
        names.add(mac(i), format!("Sensor {}", i));
    }
    let mut state = named_state(&names, &[mac(1), mac(2), mac(3)]);
    state.sensors[1].connection_status = ConnectionStatus::Connected;
    assert_eq!(state.count_with_status(StatusKind::Unknown), 2);
    assert_eq!(state.count_with_status(StatusKind::Connected), 1);
    assert_eq!(state.count_with_status(StatusKind::Disconnected), 0);
}

#[test]
fn tick_decisions() {
    assert_eq!(
        tick_decision(ConnectionStatus::Connecting { reserved_until: 100 }, 99),
        TickAction::Skip
    );
    // An expired lease is acted on, never skipped.
    assert_eq!(
        tick_decision(ConnectionStatus::Connecting { reserved_until: 100 }, 100),
        TickAction::AttemptConnect
    );
    assert_eq!(
        tick_decision(ConnectionStatus::Connected, 0),
        TickAction::CheckStale
    );
    for status in [
        ConnectionStatus::Unknown,
        ConnectionStatus::SubscribingFailedOnce,
        ConnectionStatus::WatchdogTimeOut,
        ConnectionStatus::Disconnected,
        ConnectionStatus::MarkedDisconnected,
    ] {
        assert_eq!(tick_decision(status, 0), TickAction::AttemptConnect);
    }
}

#[test]
fn subscribe_failure_policy() {
    assert_eq!(
        subscribe_failure_response(ConnectionStatus::Unknown),
        Ok(SubscribeFailureAction::MarkFailedOnce)
    );
    assert_eq!(
        subscribe_failure_response(ConnectionStatus::SubscribingFailedOnce),
        Ok(SubscribeFailureAction::DisconnectDevice)
    );
    assert_eq!(
        subscribe_failure_response(ConnectionStatus::Connected),
        Err(OrchestratorError::IllegalTransition)
    );
}

#[test]
fn connect_attempt_lifecycle() {
    let mut names = SensorNames::new();
    names.add(mac(1), "One".to_string());
    let mut state = named_state(&names, &[mac(1)]);
    state.sensors[0].connection_status = ConnectionStatus::WatchdogTimeOut;

    let (id, prior) = state.begin_connect(0, 1_000);
    assert_eq!(id.object_path, state.sensors[0].id.object_path);
    assert_eq!(prior, ConnectionStatus::WatchdogTimeOut);
    assert_eq!(
        state.sensors[0].connection_status,
        ConnectionStatus::Connecting {
            reserved_until: 1_000 + SENSOR_CONNECT_RESERVATION_TIMEOUT_MS
        }
    );

    // A transport failure reverts to the status before the attempt.
    state.connect_failed(0, prior);
    assert_eq!(state.sensors[0].connection_status, ConnectionStatus::WatchdogTimeOut);

    // One subscribe failure is tolerated, the second disconnects.
    state.subscribe_failed_once(0);
    assert_eq!(
        state.sensors[0].connection_status,
        ConnectionStatus::SubscribingFailedOnce
    );
    state.disconnect_completed(0);
    assert_eq!(state.sensors[0].connection_status, ConnectionStatus::Disconnected);

    // Success records the node and the freshness time.
    let action = state.connect_succeeded(0, 2_000);
    assert_eq!(state.sensors[0].connection_status, ConnectionStatus::Connected);
    assert_eq!(state.sensors[0].last_update_timestamp, 2_000);
    assert!(matches!(
        action,
        TelemetryAction::AddNode { node_id, display_name }
            if node_id == "a4c138010201" && display_name == "One"
    ));
}

#[test]
fn watchdog_marks_stale_sensors() {
    let mut names = SensorNames::new();
    names.add(mac(1), "One".to_string());
    let mut state = named_state(&names, &[mac(1)]);
    state.sensors[0].connection_status = ConnectionStatus::Connected;
    state.sensors[0].last_update_timestamp = 1_000;

    // Fresh enough: nothing happens.
    assert!(state.check_stale(0, 1_000 + UPDATE_TIMEOUT_MS).is_none());
    assert_eq!(state.sensors[0].connection_status, ConnectionStatus::Connected);

    // Silent past the timeout: forced into WatchdogTimeOut, node removed.
    let action = state.check_stale(0, 1_001 + UPDATE_TIMEOUT_MS);
    assert!(matches!(
        action,
        Some(TelemetryAction::RemoveNode { node_id }) if node_id == "a4c138010201"
    ));
    assert_eq!(
        state.sensors[0].connection_status,
        ConnectionStatus::WatchdogTimeOut
    );
}

#[test]
fn scan_gating() {
    assert!(should_scan(16_000, 15_999, 1, 2));
    assert!(!should_scan(15_000, 15_999, 1, 2));
    assert!(!should_scan(16_000, 15_999, 2, 2));
}

#[test]
fn translate_reading_notification() {
    let path = b"/org/bluez/hci0/dev_A4/service0021/char0035".to_vec();
    let event = TransportEvent::CharacteristicValue { object_path: path, value: vec![1, 2, 3, 4, 10] };
    match translate(&event) {
        Some(MijiaEvent::Readings { id, readings }) => {
            assert_eq!(id.object_path, b"/org/bluez/hci0/dev_A4".to_vec());
            assert_eq!(readings, Readings::decode(&[1, 2, 3, 4, 10]).unwrap());
        }
        other => panic!("unexpected translation: {:?}", other),
    }
}

#[test]
fn translate_drops_malformed_and_foreign_notifications() {
    // A malformed buffer on the reading characteristic is dropped, not fatal.
    let malformed = TransportEvent::CharacteristicValue {
        object_path: b"/dev_A4/service0021/char0035".to_vec(),
        value: vec![1, 2],
    };
    assert!(translate(&malformed).is_none());
    // A characteristic this bridge does not model is ignored.
    let foreign = TransportEvent::CharacteristicValue {
        object_path: b"/dev_A4/service0021/char0042".to_vec(),
        value: vec![1, 2, 3, 4, 10],
    };
    assert!(translate(&foreign).is_none());
}

#[test]
fn translate_history_notification() {
    let event = TransportEvent::CharacteristicValue {
        object_path: b"/dev_A4/service0021/char002e".to_vec(),
        value: vec![7, 0, 0, 0, 0x80, 0x20, 0xf1, 0x65, 0x29, 0x09, 55],
    };
    match translate(&event) {
        Some(MijiaEvent::HistoryRecord { id, record }) => {
            assert_eq!(id.object_path, b"/dev_A4".to_vec());
            assert_eq!(record.index, 7);
            assert_eq!(record.humidity, 55);
        }
        other => panic!("unexpected translation: {:?}", other),
    }
}

#[test]
fn translate_connection_changes() {
    let lost = TransportEvent::ConnectionStateChanged {
        object_path: b"/dev_A4".to_vec(),
        connected: false,
    };
    match translate(&lost) {
        Some(MijiaEvent::Disconnected { id }) => {
            assert_eq!(id.object_path, b"/dev_A4".to_vec());
        }
        other => panic!("unexpected translation: {:?}", other),
    }
    // A transition to connected is not surfaced as a domain event.
    let gained = TransportEvent::ConnectionStateChanged {
        object_path: b"/dev_A4".to_vec(),
        connected: true,
    };
    assert!(translate(&gained).is_none());
}

fn readings_event(state: &SensorState, idx: usize) -> MijiaEvent {
    MijiaEvent::Readings {
        id: DeviceId::new(state.sensors[idx].id.object_path.clone()),
        readings: Readings::decode(&[1, 2, 3, 4, 10]).unwrap(),
    }
}

#[test]
fn readings_refresh_a_connected_sensor() {
    let mut names = SensorNames::new();
    names.add(mac(1), "One".to_string());
    let mut state = named_state(&names, &[mac(1)]);
    state.sensors[0].connection_status = ConnectionStatus::Connected;
    let actions = state.apply_event(&readings_event(&state, 0), 5_000);
    assert_eq!(state.sensors[0].last_update_timestamp, 5_000);
    assert_eq!(state.sensors[0].connection_status, ConnectionStatus::Connected);
    assert_eq!(actions.len(), 1);
    assert!(matches!(&actions[0], TelemetryAction::PublishReadings { .. }));
}

#[test]
fn readings_self_heal_a_timed_out_sensor() {
    let mut names = SensorNames::new();
    names.add(mac(1), "One".to_string());
    let mut state = named_state(&names, &[mac(1)]);
    state.sensors[0].connection_status = ConnectionStatus::WatchdogTimeOut;
    let actions = state.apply_event(&readings_event(&state, 0), 5_000);
    // Arrival of data is proof of liveness: back to Connected, and the
    // telemetry node is re-registered exactly once.
    assert_eq!(state.sensors[0].connection_status, ConnectionStatus::Connected);
    assert_eq!(actions.len(), 2);
    assert!(matches!(&actions[0], TelemetryAction::PublishReadings { .. }));
    let add_nodes = actions
        .iter()
        .filter(|a| matches!(a, TelemetryAction::AddNode { .. }))
        .count();
    assert_eq!(add_nodes, 1);
}

#[test]
fn readings_from_unknown_device_are_ignored() {
    let mut names = SensorNames::new();
    names.add(mac(1), "One".to_string());
    let mut state = named_state(&names, &[mac(1)]);
    let event = MijiaEvent::Readings {
        id: device_id("/some/other/device"),
        readings: Readings::decode(&[1, 2, 3, 4, 10]).unwrap(),
    };
    let actions = state.apply_event(&event, 5_000);
    assert!(actions.is_empty());
    assert_eq!(state.sensors[0].last_update_timestamp, 0);
}

#[test]
fn disconnect_marks_a_connected_sensor() {
    let mut names = SensorNames::new();
    names.add(mac(1), "One".to_string());
    let mut state = named_state(&names, &[mac(1)]);
    state.sensors[0].connection_status = ConnectionStatus::Connected;
    let event = MijiaEvent::Disconnected {
        id: DeviceId::new(state.sensors[0].id.object_path.clone()),
    };
    let actions = state.apply_event(&event, 5_000);
    assert_eq!(
        state.sensors[0].connection_status,
        ConnectionStatus::MarkedDisconnected
    );
    assert_eq!(actions.len(), 1);
    assert!(matches!(&actions[0], TelemetryAction::RemoveNode { .. }));
}

#[test]
fn disconnect_race_is_tolerated() {
    let mut names = SensorNames::new();
    names.add(mac(1), "One".to_string());
    let mut state = named_state(&names, &[mac(1)]);
    for status in [
        ConnectionStatus::Unknown,
        ConnectionStatus::Connecting { reserved_until: 9_000 },
        ConnectionStatus::SubscribingFailedOnce,
        ConnectionStatus::WatchdogTimeOut,
        ConnectionStatus::Disconnected,
        ConnectionStatus::MarkedDisconnected,
    ] {
        state.sensors[0].connection_status = status;
        let event = MijiaEvent::Disconnected {
            id: DeviceId::new(state.sensors[0].id.object_path.clone()),
        };
        let actions = state.apply_event(&event, 5_000);
        // A disconnect for a sensor not believed connected changes nothing.
        assert!(actions.is_empty());
        assert_eq!(state.sensors[0].connection_status, status);
    }
}

#[test]
fn history_events_are_ignored_in_steady_state() {
    let mut names = SensorNames::new();
    names.add(mac(1), "One".to_string());
    let mut state = named_state(&names, &[mac(1)]);
    let event = MijiaEvent::HistoryRecord {
        id: DeviceId::new(state.sensors[0].id.object_path.clone()),
        record: mijia::history::HistoryRecord {
            index: 0,
            timestamp: 0,
            temperature: 0,
            humidity: 0,
        },
    };
    let actions = state.apply_event(&event, 5_000);
    assert!(actions.is_empty());
    assert_eq!(state.sensors[0].connection_status, ConnectionStatus::Unknown);
}
