use selah::controller::{
    App, ChannelLevelOutcome, ChannelPolarityOutcome, DeviceStatus,
    DigitalOutputModeOutcome, FeedbackOutcome, FeedbackResult,
    METER_CADENCE_MS, MONITOR_CADENCE_MS, Message, MonitorToggleOutcome, RoutingOutcome,
    ScanResult, SpeakerVolumeOutcome, fresh_meters_for, fresh_routes_for, monitor_due,
    toggle_index,
};
use selah::device::{
    ControlInterface, ControlInterfaceKind, DetectedDevice, DeviceLocation, DiscoveryReport,
    FeedbackSnapshot, MonitorSnapshot, MonitorToggle, supported_device,
};
use selah::mixer::{ChannelStrip, meter_channel_count, mixer_channel_count};
use selah::monitor::{ToggleStatus, VolumeStatus};
use selah::routing::{
    DigitalOutputMode, Route, RouteStatus, RoutingDestination, RoutingSource,
};

fn bits(level: f32) -> u32 {
    level.to_bits()
}

fn assert_level_eq(actual: u32, expected: f32) {
    let actual = f32::from_bits(actual);
    assert!(
        (actual - expected).abs() < f32::EPSILON,
        "expected slider level {expected}, got {actual}"
    );
}

fn route_status(app: &App, destination: RoutingDestination) -> RouteStatus {
    let index = app.route_index(destination).unwrap();
    app.routes[index].control.status()
}

#[test]
fn app_scan_requests_are_coalesced_while_a_scan_is_running() {
    let mut app = App::new();

    let _first_scan = app.request_scan();
    let _queued_scan = app.request_scan();
    let _duplicate_scan = app.request_scan();

    assert!(app.scan_in_flight);
    assert!(app.rescan_requested);

    let _restart = app.finish_scan();
    assert!(app.scan_in_flight);
    assert!(!app.rescan_requested);

    let _finished = app.finish_scan();
    assert!(!app.scan_in_flight);
    assert!(!app.rescan_requested);
}

#[test]
fn app_volume_change_without_a_device_is_ignored() {
    let mut app = App::new();

    let _ignored = app.update(Message::SpeakerVolumeChanged(bits(0.5)));
    let _also_ignored = app.update(Message::HeadphoneVolumeChanged(bits(0.5)));
    assert_level_eq(app.speaker.position(), 0.0);
    assert_eq!(app.speaker.status(), VolumeStatus::Unknown);
    assert_level_eq(app.headphone.position(), 0.0);
    assert_eq!(app.headphone.status(), VolumeStatus::Unknown);
}

#[test]
fn app_stale_completion_after_a_rescan_is_ignored() {
    let mut app = App::new();
    app.status = DeviceStatus::Ready(report_with_control());

    let _send = app.update(Message::SpeakerVolumeChanged(bits(0.2)));
    let _rescan = app.update(Message::DiscoveryFinished(ScanResult::Found(
        DiscoveryReport::default(),
    )));
    let _stale = app.update(Message::SpeakerVolumeFinished(SpeakerVolumeOutcome {
        level: bits(0.2),
        error: None,
    }));

    // The rescan reset the control; the late completion must not invent
    // an acknowledged send for the new (empty) device set.
    assert!(matches!(app.status, DeviceStatus::Empty));
    assert_eq!(app.speaker.status(), VolumeStatus::Unknown);
}

#[test]
fn app_speaker_volume_moves_from_pending_to_applied() {
    let mut app = App::new();
    app.status = DeviceStatus::Ready(report_with_control());

    let _send = app.update(Message::SpeakerVolumeChanged(bits(0.2)));
    assert_level_eq(app.speaker.position(), 0.2);
    assert_eq!(
        app.speaker.status(),
        VolumeStatus::Sending {
            sending: bits(0.2),
            queued: None,
        }
    );

    let _done = app.update(Message::SpeakerVolumeFinished(SpeakerVolumeOutcome {
        level: bits(0.2),
        error: None,
    }));
    assert_eq!(app.speaker.status(), VolumeStatus::Sent { level: bits(0.2) });
}

#[test]
fn app_speaker_volume_failure_keeps_last_sent_and_reports_the_error() {
    let mut app = App::new();
    app.status = DeviceStatus::Ready(report_with_control());

    let _first = app.update(Message::SpeakerVolumeChanged(bits(0.2)));
    let _applied = app.update(Message::SpeakerVolumeFinished(SpeakerVolumeOutcome {
        level: bits(0.2),
        error: None,
    }));

    let _retry = app.update(Message::SpeakerVolumeChanged(bits(0.3)));
    assert_eq!(
        app.speaker.status(),
        VolumeStatus::Sending {
            sending: bits(0.3),
            queued: None,
        }
    );
    let _failed = app.update(Message::SpeakerVolumeFinished(SpeakerVolumeOutcome {
        level: bits(0.3),
        error: Some("no device".to_owned()),
    }));

    // The failed level is not presented as confirmed: the previous
    // acknowledged send is preserved and the error stays visible.
    assert_level_eq(app.speaker.position(), 0.3);
    assert_eq!(
        app.speaker.status(),
        VolumeStatus::Failed {
            error: "no device".to_owned(),
            last_sent: Some(bits(0.2)),
        }
    );
}

#[test]
fn app_routing_request_without_a_device_is_ignored() {
    let mut app = App::new();
    let route = headphone_route(RoutingSource::MainMix);
    let _ignored = app.update(Message::RouteSelected(route));
    assert!(app.routes.is_empty());
}

#[test]
fn app_routing_moves_from_unknown_through_sending_to_sent() {
    let mut app = App::new();
    app.status = DeviceStatus::Ready(report_with_control());
    app.routes = fresh_routes_for(&app.selected_device().unwrap());
    let route = headphone_route(RoutingSource::MainMix);

    let _send = app.update(Message::RouteSelected(route));
    assert_eq!(
        route_status(&app, route.destination),
        RouteStatus::Sending {
            source: route.source
        }
    );

    let _done = app.update(Message::RoutingFinished(RoutingOutcome {
        route,
        error: None,
    }));
    assert_eq!(
        route_status(&app, route.destination),
        RouteStatus::Sent {
            source: route.source
        }
    );
}

#[test]
fn app_routing_failure_reports_the_error() {
    let mut app = App::new();
    app.status = DeviceStatus::Ready(report_with_control());
    app.routes = fresh_routes_for(&app.selected_device().unwrap());
    let route = headphone_route(RoutingSource::CueB);

    let _send = app.update(Message::RouteSelected(route));
    let _failed = app.update(Message::RoutingFinished(RoutingOutcome {
        route,
        error: Some("no device".to_owned()),
    }));
    assert_eq!(
        route_status(&app, route.destination),
        RouteStatus::Failed {
            error: "no device".to_owned(),
            last_sent: None,
        }
    );
}

#[test]
fn app_reset_sends_the_documented_default() {
    let mut app = App::new();
    app.status = DeviceStatus::Ready(report_with_control());
    app.routes = fresh_routes_for(&app.selected_device().unwrap());
    let destination = RoutingDestination::Outputs3And4;

    let _send = app.update(Message::RouteReset(destination));
    assert_eq!(
        route_status(&app, destination),
        RouteStatus::Sending {
            source: RoutingSource::DawMix
        }
    );
}

#[test]
fn app_digital_output_mode_is_pending_then_sent_without_claiming_readback() {
    let mut app = App::new();
    let mut report = report_with_control();
    report.supported[0].model = supported_device(0x000d).unwrap();
    app.status = DeviceStatus::Ready(report);

    let _send = app.update(Message::DigitalOutputModeSelected(DigitalOutputMode::Adat));
    assert_eq!(
        app.digital_output_mode.status(),
        ToggleStatus::Sending { sending: true }
    );

    let _done = app.update(Message::DigitalOutputModeFinished(DigitalOutputModeOutcome {
        mode: DigitalOutputMode::Adat,
        error: None,
    }));
    assert_eq!(
        app.digital_output_mode.status(),
        ToggleStatus::Sent { on: true }
    );
}

#[test]
fn app_monitor_toggle_moves_from_unknown_through_sending_to_sent() {
    let mut app = App::new();
    app.status = DeviceStatus::Ready(report_with_control());

    let _send = app.update(Message::MonitorToggleChanged {
        toggle: MonitorToggle::Dim,
        on: true,
    });
    assert_eq!(
        app.toggles[toggle_index(MonitorToggle::Dim)].status(),
        ToggleStatus::Sending { sending: true }
    );

    let _done = app.update(Message::MonitorToggleFinished(MonitorToggleOutcome {
        toggle: MonitorToggle::Dim,
        on: true,
        error: None,
    }));
    assert_eq!(
        app.toggles[toggle_index(MonitorToggle::Dim)].status(),
        ToggleStatus::Sent { on: true }
    );
}

#[test]
fn app_channels_are_rebuilt_from_the_discovered_model() {
    let mut app = App::new();
    assert!(app.channels.is_empty());

    let _ready = app.update(Message::DiscoveryFinished(ScanResult::Found(
        report_with_control(),
    )));
    // iD14 MKII: 2 microphones + 8 digital inputs.
    assert_eq!(app.channels.len(), 10);
    assert_eq!(app.channels[0].level.status(), VolumeStatus::Unknown);
    assert_eq!(app.channels[0].polarity.status(), ToggleStatus::Unknown);
}

#[test]
fn app_channel_level_moves_from_pending_to_applied() {
    let mut app = App::new();
    app.status = DeviceStatus::Ready(report_with_control());
    app.channels = fresh_ready_channels();

    let _send = app.update(Message::ChannelLevelChanged {
        channel: 2,
        level: bits(0.6),
    });
    assert_level_eq(app.channels[2].level.position(), 0.6);
    assert_eq!(
        app.channels[2].level.status(),
        VolumeStatus::Sending {
            sending: bits(0.6),
            queued: None,
        }
    );

    let _done = app.update(Message::ChannelLevelFinished(ChannelLevelOutcome {
        channel: 2,
        level: bits(0.6),
        error: None,
    }));
    assert_eq!(
        app.channels[2].level.status(),
        VolumeStatus::Sent { level: bits(0.6) }
    );
}

#[test]
fn app_channel_polarity_moves_from_pending_to_applied() {
    let mut app = App::new();
    app.status = DeviceStatus::Ready(report_with_control());
    app.channels = fresh_ready_channels();

    let _send = app.update(Message::ChannelPolarityChanged {
        channel: 1,
        flipped: true,
    });
    assert_eq!(
        app.channels[1].polarity.status(),
        ToggleStatus::Sending { sending: true }
    );

    let _done = app.update(Message::ChannelPolarityFinished(ChannelPolarityOutcome {
        channel: 1,
        flipped: true,
        error: None,
    }));
    assert_eq!(
        app.channels[1].polarity.status(),
        ToggleStatus::Sent { on: true }
    );
}

fn fresh_ready_channels() -> Vec<ChannelStrip> {
    std::iter::repeat_with(ChannelStrip::default)
        .take(10)
        .collect()
}

#[test]
fn app_feedback_cadence_needs_a_supported_device_with_a_control_interface() {
    let mut app = App::new();
    assert_eq!(app.feedback_cadence_ms(), None);

    app.status = DeviceStatus::Empty;
    assert_eq!(app.feedback_cadence_ms(), None);

    // Ready but no safe control interface: nothing may be polled.
    let mut report = report_with_control();
    report.supported[0].control_interface = None;
    app.status = DeviceStatus::Ready(report);
    assert_eq!(app.feedback_cadence_ms(), None);
}

#[test]
fn app_feedback_cadence_prefers_meters_then_monitor_readback() {
    let mut app = App::new();

    // iD14 MKII: strips and meters share one gate.
    app.status = DeviceStatus::Ready(report_with_control());
    assert_eq!(app.feedback_cadence_ms(), Some(METER_CADENCE_MS));

    // iD4: monitor volumes read back, but no mixer means no meters.
    let mut report = report_with_control();
    report.supported[0].model = supported_device(0x0003).unwrap();
    app.status = DeviceStatus::Ready(report);
    assert_eq!(app.feedback_cadence_ms(), Some(MONITOR_CADENCE_MS));
}

#[test]
fn app_monitor_refresh_folds_into_the_meter_cadence() {
    assert!(monitor_due(10, METER_CADENCE_MS));
    assert!(monitor_due(20, METER_CADENCE_MS));
    assert!(!monitor_due(5, METER_CADENCE_MS));
    assert!(!monitor_due(11, METER_CADENCE_MS));
    // On the slow cadence every tick carries the monitor snapshot.
    assert!(monitor_due(1, MONITOR_CADENCE_MS));
    assert!(monitor_due(7, MONITOR_CADENCE_MS));
}

#[test]
fn app_feedback_tick_is_dropped_while_a_poll_owns_the_session() {
    let mut app = App::new();
    app.status = DeviceStatus::Ready(report_with_control());
    app.feedback_in_flight = true;

    let _dropped = app.update(Message::FeedbackTick);
    assert!(app.feedback_in_flight);
    assert_eq!(app.feedback_tick, 0);
}

#[test]
fn app_connect_refresh_adopts_hardware_state_as_confirmed() {
    let mut app = App::new();
    app.status = DeviceStatus::Ready(report_with_control());
    app.channels = fresh_ready_channels();
    app.meters = fresh_meters_for(&app.selected_device().unwrap());
    assert_eq!(app.speaker.status(), VolumeStatus::Unknown);

    let _done = app.update(Message::FeedbackFinished(feedback_ok(
        MonitorSnapshot {
            speaker_level: Some(bits(0.7)),
            toggles: vec![(MonitorToggle::Dim, true)],
            digital_output_mode: None,
        },
        Some(vec![0x40; 10]),
    )));

    // Hardware wins: the slider moves to the device value and the
    // status names it confirmed, not sent.
    assert_level_eq(app.speaker.position(), 0.7);
    assert_eq!(
        app.speaker.status(),
        VolumeStatus::Confirmed { level: bits(0.7) }
    );
    assert_eq!(
        app.toggles[toggle_index(MonitorToggle::Dim)].status(),
        ToggleStatus::Confirmed { on: true }
    );
    assert_eq!(app.meters, vec![Some(0x40); 10]);
    assert!(app.feedback_notice.is_none());
    assert!(!app.feedback_in_flight);
}

#[test]
fn app_pending_send_is_not_overwritten_by_readback() {
    let mut app = App::new();
    app.status = DeviceStatus::Ready(report_with_control());

    let _send = app.update(Message::SpeakerVolumeChanged(bits(0.2)));
    let _refresh = app.update(Message::FeedbackFinished(feedback_ok(
        MonitorSnapshot {
            speaker_level: Some(bits(0.9)),
            toggles: Vec::new(),
            digital_output_mode: None,
        },
        None,
    )));

    // The local operation wins transiently; the hardware value is not
    // adopted until the send completes and the next poll confirms it.
    assert_level_eq(app.speaker.position(), 0.2);
    assert_eq!(
        app.speaker.status(),
        VolumeStatus::Sending {
            sending: bits(0.2),
            queued: None,
        }
    );

    let _done = app.update(Message::SpeakerVolumeFinished(SpeakerVolumeOutcome {
        level: bits(0.2),
        error: None,
    }));
    assert_eq!(app.speaker.status(), VolumeStatus::Sent { level: bits(0.2) });
}

#[test]
fn app_failed_poll_blanks_meters_but_keeps_confirmed_monitor() {
    let mut app = App::new();
    app.status = DeviceStatus::Ready(report_with_control());
    app.channels = fresh_ready_channels();
    app.meters = fresh_meters_for(&app.selected_device().unwrap());

    let _confirmed = app.update(Message::FeedbackFinished(feedback_ok(
        MonitorSnapshot {
            speaker_level: Some(bits(0.5)),
            toggles: Vec::new(),
            digital_output_mode: None,
        },
        Some(vec![0x20; 10]),
    )));
    assert_eq!(
        app.speaker.status(),
        VolumeStatus::Confirmed { level: bits(0.5) }
    );

    // A frozen meter presented as live would be a lie: meters go back
    // to unknown while the last confirmed monitor value stands.
    let _failed = app.update(Message::FeedbackFinished(FeedbackOutcome {
        location: report_location(),
        read_monitor: false,
        result: FeedbackResult::Failed("stalled".to_owned()),
    }));
    assert!(app.meters.iter().all(Option::is_none));
    assert_eq!(
        app.speaker.status(),
        VolumeStatus::Confirmed { level: bits(0.5) }
    );
    assert_eq!(app.feedback_notice.as_deref(), Some("stalled"));
}

#[test]
fn app_stale_feedback_from_a_replaced_device_is_ignored() {
    let mut app = App::new();
    app.status = DeviceStatus::Ready(report_with_control());
    app.feedback_in_flight = true;

    let _stale = app.update(Message::FeedbackFinished(FeedbackOutcome {
        location: DeviceLocation {
            bus: "9".to_owned(),
            address: 9,
        },
        read_monitor: true,
        result: FeedbackResult::Read(FeedbackSnapshot {
            monitor: Some(MonitorSnapshot {
                speaker_level: Some(bits(0.1)),
                toggles: Vec::new(),
                digital_output_mode: None,
            }),
            meters: None,
        }),
    }));

    // Neither adopted nor cleared: the newer poll still owns the flag.
    assert_eq!(app.speaker.status(), VolumeStatus::Unknown);
    assert!(app.feedback_in_flight);
}

#[test]
fn app_reconnect_resets_confirmed_state_and_meters_to_unknown() {
    let mut app = App::new();
    app.status = DeviceStatus::Ready(report_with_control());
    app.channels = fresh_ready_channels();
    app.meters = fresh_meters_for(&app.selected_device().unwrap());

    let _confirmed = app.update(Message::FeedbackFinished(feedback_ok(
        MonitorSnapshot {
            speaker_level: Some(bits(0.6)),
            toggles: Vec::new(),
            digital_output_mode: None,
        },
        Some(vec![0x10; 10]),
    )));
    assert_eq!(
        app.speaker.status(),
        VolumeStatus::Confirmed { level: bits(0.6) }
    );

    // Disconnect drops everything: old values are never restored as
    // confirmed before readback succeeds again.
    let _gone = app.update(Message::DiscoveryFinished(ScanResult::Found(
        DiscoveryReport::default(),
    )));
    assert!(matches!(app.status, DeviceStatus::Empty));
    assert_eq!(app.speaker.status(), VolumeStatus::Unknown);
    assert!(app.meters.is_empty());
    assert!(app.feedback_notice.is_none());
    assert!(!app.feedback_in_flight);
}

#[test]
fn app_second_device_can_be_selected_explicitly() {
    let mut app = App::new();
    let mk = |addr: u8| DetectedDevice {
        location: DeviceLocation {
            bus: "3".to_owned(),
            address: addr,
        },
        model: supported_device(0x0008).unwrap(),
        reported_name: None,
        control_interface: Some(ControlInterface {
            number: 4,
            kind: ControlInterfaceKind::ApplicationSpecific,
        }),
    };
    app.status = DeviceStatus::Ready(DiscoveryReport {
        supported: vec![mk(16), mk(17)],
        unsupported: vec![],
    });
    app.selected = None;
    let first = app.selected_device().unwrap().location.address;
    assert_eq!(first, 16);
    let _pick = app.update(Message::DeviceSelected(DeviceLocation {
        bus: "3".to_owned(),
        address: 17,
    }));
    assert_eq!(app.selected_device().unwrap().location.address, 17);
}

#[test]
fn app_picked_model_drives_channel_and_meter_counts() {
    let mut app = App::new();
    let mk = |product_id: u16, address: u8| DetectedDevice {
        location: DeviceLocation {
            bus: "3".to_owned(),
            address,
        },
        model: supported_device(product_id).unwrap(),
        reported_name: None,
        control_interface: Some(ControlInterface {
            number: 4,
            kind: ControlInterfaceKind::ApplicationSpecific,
        }),
    };
    let report = || DiscoveryReport {
        supported: vec![mk(0x0008, 16), mk(0x0003, 17)],
        unsupported: vec![],
    };
    let first_model = supported_device(0x0008).unwrap();
    let second_model = supported_device(0x0003).unwrap();
    let first_strips = mixer_channel_count(&first_model) as usize;
    let first_meters = meter_channel_count(&first_model) as usize;
    let second_strips = mixer_channel_count(&second_model) as usize;
    let second_meters = meter_channel_count(&second_model) as usize;
    assert_ne!(first_strips, second_strips);

    let _found = app.update(Message::DiscoveryFinished(ScanResult::Found(report())));
    assert_eq!(app.selected_device().unwrap().location.address, 16);
    assert_eq!(app.channels.len(), first_strips);
    assert_eq!(app.meters.len(), first_meters);

    let _pick = app.update(Message::DeviceSelected(DeviceLocation {
        bus: "3".to_owned(),
        address: 17,
    }));
    assert_eq!(app.selected_device().unwrap().location.address, 17);
    assert_eq!(app.channels.len(), second_strips);
    assert_eq!(app.meters.len(), second_meters);
}

fn feedback_ok(monitor: MonitorSnapshot, meters: Option<Vec<u8>>) -> FeedbackOutcome {
    FeedbackOutcome {
        location: report_location(),
        read_monitor: true,
        result: FeedbackResult::Read(FeedbackSnapshot {
            monitor: Some(monitor),
            meters,
        }),
    }
}

fn report_location() -> DeviceLocation {
    DeviceLocation {
        bus: "1".to_owned(),
        address: 2,
    }
}

fn headphone_route(source: RoutingSource) -> Route {
    Route {
        destination: RoutingDestination::Headphones,
        source,
    }
}

fn report_with_control() -> DiscoveryReport {
    DiscoveryReport {
        supported: vec![DetectedDevice {
            location: DeviceLocation {
                bus: "1".to_owned(),
                address: 2,
            },
            model: supported_device(0x0008).unwrap(),
            reported_name: None,
            control_interface: Some(ControlInterface {
                number: 4,
                kind: ControlInterfaceKind::ApplicationSpecific,
            }),
        }],
        unsupported: vec![],
    }
}
