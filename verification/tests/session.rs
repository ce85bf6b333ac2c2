use selah::device::control::{
    ControlOperation, FeedbackPlan, FeedbackSnapshot, operation_requests, read_outcome,
    send_outcome, validate_operation, validated_channel,
};
use selah::device::protocol::{ControlRequest, MonitorToggle};
use selah::device::{
    AUDIENT_VENDOR_ID, ControlInterface, ControlInterfaceKind, DetectedDevice, DeviceIdentity,
    DeviceLocation, DiscoveryError, SessionError, UsbError, UsbErrorKind, plan_session,
    supported_device,
};
use selah::device::control::{feedback_plan, monitor_snapshot};
use selah::routing::{DigitalOutputMode, Route, RoutingDestination, RoutingSource};

fn usb(kind: UsbErrorKind, message: &str) -> UsbError {
    UsbError {
        kind,
        message: message.to_owned(),
    }
}

fn device(product_id: u16, has_control: bool) -> DetectedDevice {
    DetectedDevice {
        location: DeviceLocation {
            bus: "3".to_owned(),
            address: 16,
        },
        model: supported_device(product_id).unwrap(),
        reported_name: None,
        control_interface: has_control.then_some(ControlInterface {
            number: 4,
            kind: ControlInterfaceKind::ApplicationSpecific,
        }),
    }
}

fn identity(product_id: u16, address: u8, interfaces: Vec<(u8, u8)>) -> DeviceIdentity {
    DeviceIdentity {
        vendor_id: AUDIENT_VENDOR_ID,
        product_id,
        reported_name: None,
        location: DeviceLocation {
            bus: "3".to_owned(),
            address,
        },
        interfaces,
    }
}

#[test]
fn session_errors_name_the_failure_and_a_next_step() {
    let busy = SessionError::Claim {
        interface: 4,
        source: usb(UsbErrorKind::Busy, "resource busy"),
    };
    assert_eq!(busy.message(), "could not claim control interface 4: resource busy");
    assert_eq!(
        busy.recovery_hint(),
        "Another process owns the control interface. Close it and try again."
    );
    assert_eq!(
        busy.report(),
        "could not claim control interface 4: resource busy — Another process owns the control interface. Close it and try again."
    );

    let denied = SessionError::Open(usb(UsbErrorKind::PermissionDenied, "access denied"));
    assert_eq!(
        denied.message(),
        "could not open the Audient device: access denied"
    );
    assert_eq!(
        denied.recovery_hint(),
        "Install the Selah udev rule, reconnect the interface, and try again."
    );

    let scan = SessionError::Enumerate(usb(UsbErrorKind::PermissionDenied, "no access"));
    assert_eq!(scan.message(), "USB device scan failed: no access");
    assert_eq!(
        scan.recovery_hint(),
        "Install the Selah udev rule, reconnect the interface, and try again."
    );

    let gone = SessionError::NotFound { product_id: 0x0008 };
    assert_eq!(gone.message(), "Audient device 0008 is no longer present");
    assert_eq!(gone.recovery_hint(), "Reconnect the interface and scan again.");

    let unsafe_only = SessionError::NoSafeControlInterface { product_id: 0x000d };
    assert_eq!(
        unsafe_only.message(),
        "Audient device 000d has no safe control interface"
    );
    assert_eq!(
        unsafe_only.recovery_hint(),
        "Selah will not claim an audio interface. This model needs hardware investigation."
    );

    let transfer = SessionError::Transfer {
        interface: 4,
        source: usb(UsbErrorKind::Disconnected, "pipe error"),
    };
    assert_eq!(
        transfer.message(),
        "control transfer on interface 4 failed: pipe error"
    );
    assert_eq!(transfer.recovery_hint(), "Reconnect the interface and try again.");

    let release = SessionError::Release {
        interface: 4,
        source: usb(UsbErrorKind::Other, "i/o"),
    };
    assert_eq!(release.message(), "could not release control interface 4: i/o");
    assert_eq!(release.recovery_hint(), "Reconnect the interface and try again.");
}

#[test]
fn discovery_errors_name_the_step_and_a_next_step() {
    let scan = DiscoveryError::enumerate(usb(UsbErrorKind::PermissionDenied, "no access"));
    assert_eq!(scan.message(), "USB device scan failed: no access");
    assert_eq!(
        scan.recovery_hint(),
        "Check the Selah udev rule, then reconnect the interface and try again."
    );

    let watch = DiscoveryError::watch(usb(UsbErrorKind::Unsupported, "no hotplug"));
    assert_eq!(watch.message(), "USB device monitor failed: no hotplug");
    assert_eq!(
        watch.recovery_hint(),
        "USB discovery is not supported on this system. Selah currently targets Linux."
    );

    let other = DiscoveryError::enumerate(usb(UsbErrorKind::Other, "i/o"));
    assert_eq!(
        other.recovery_hint(),
        "Reconnect the interface and try the scan again."
    );
}

#[test]
fn sessions_open_the_matching_attachment_on_its_safe_interface() {
    let ids = vec![
        identity(0x0008, 15, vec![(0, 0x01), (4, 0xfe)]),
        identity(0x0008, 16, vec![(0, 0x01), (3, 0xff)]),
    ];
    assert_eq!(
        plan_session(&ids, &device(0x0008, true)),
        Ok((
            1,
            ControlInterface {
                number: 3,
                kind: ControlInterfaceKind::VendorSpecific,
            }
        ))
    );
}

#[test]
fn sessions_refuse_missing_devices_and_audio_only_interfaces() {
    let elsewhere = vec![identity(0x0008, 17, vec![(4, 0xfe)])];
    assert_eq!(
        plan_session(&elsewhere, &device(0x0008, true)),
        Err(SessionError::NotFound { product_id: 0x0008 })
    );

    let audio_only = vec![identity(0x0008, 16, vec![(0, 0x01), (1, 0x01)])];
    assert_eq!(
        plan_session(&audio_only, &device(0x0008, true)),
        Err(SessionError::NoSafeControlInterface { product_id: 0x0008 })
    );
}

#[test]
fn transfer_failure_wins_over_close_failure() {
    let transfer = SessionError::Transfer {
        interface: 4,
        source: usb(UsbErrorKind::Disconnected, "pipe error"),
    };
    let release = SessionError::Release {
        interface: 4,
        source: usb(UsbErrorKind::Other, "i/o"),
    };
    assert_eq!(send_outcome(Ok(()), Ok(())), Ok(()));
    assert_eq!(
        send_outcome(Err(transfer.clone()), Err(release.clone())),
        Err(transfer.report())
    );
    assert_eq!(send_outcome(Ok(()), Err(release.clone())), Err(release.report()));

    let snapshot = FeedbackSnapshot {
        monitor: None,
        meters: Some(vec![1, 2]),
    };
    assert_eq!(read_outcome(snapshot.clone(), Ok(())), Ok(snapshot.clone()));
    assert_eq!(read_outcome(snapshot, Err(release.clone())), Err(release.report()));
}

#[test]
fn channel_indexes_outside_the_model_are_refused() {
    let id14 = device(0x0008, true);
    assert_eq!(validated_channel(&id14, 9), Ok(9));
    assert_eq!(
        validated_channel(&id14, 10),
        Err("input channel 10 is outside this model's 10 inputs".to_owned())
    );
    assert_eq!(
        validate_operation(&id14, ControlOperation::ChannelPolarity(12, true)),
        Err("input channel 12 is outside this model's 10 inputs".to_owned())
    );
    assert_eq!(
        validate_operation(&id14, ControlOperation::DigitalOutputMode(DigitalOutputMode::Spdif)),
        Err("digital output mode is unavailable for this model".to_owned())
    );
    assert_eq!(
        validate_operation(&device(0x000d, true), ControlOperation::DigitalOutputMode(DigitalOutputMode::Spdif)),
        Ok(())
    );
}

#[test]
fn accepted_operations_encode_their_writes_in_order() {
    let id14 = device(0x0008, true);
    let route = ControlOperation::OutputRoute(Route {
        destination: RoutingDestination::Outputs3And4,
        source: RoutingSource::DawMix,
    });
    assert_eq!(validate_operation(&id14, route), Ok(()));
    let writes = operation_requests(&id14, route, 4);
    assert_eq!(writes.len(), 2);
    assert_eq!([writes[0].value, writes[1].value], [0x0602, 0x0603]);
    assert_eq!([writes[0].payload[0], writes[1].payload[0]], [2, 3]);

    assert_eq!(
        operation_requests(&id14, ControlOperation::MonitorToggle(MonitorToggle::Mono, true), 4),
        vec![ControlRequest {
            request: 0x01,
            value: 0x0000,
            index: 0x3604,
            payload: vec![0x01],
        }]
    );
    let headphones = operation_requests(&id14, ControlOperation::HeadphoneLevel(-16_384), 4);
    assert_eq!([headphones[0].value, headphones[1].value], [0x0203, 0x0204]);
    assert_eq!(headphones[0].payload, vec![0x00, 0xc0]);
}

#[test]
fn feedback_polls_read_only_trustworthy_state() {
    assert_eq!(
        feedback_plan(&device(0x0008, true), true),
        FeedbackPlan {
            speaker: true,
            toggles: true,
            digital_output_mode: false,
            meter_inputs: Some(10),
        }
    );
    assert_eq!(
        feedback_plan(&device(0x0008, true), false),
        FeedbackPlan {
            speaker: false,
            toggles: false,
            digital_output_mode: false,
            meter_inputs: Some(10),
        }
    );
    assert_eq!(
        feedback_plan(&device(0x000d, true), true),
        FeedbackPlan {
            speaker: true,
            toggles: false,
            digital_output_mode: true,
            meter_inputs: None,
        }
    );
    assert_eq!(
        feedback_plan(&device(0x0008, false), true),
        FeedbackPlan {
            speaker: false,
            toggles: false,
            digital_output_mode: false,
            meter_inputs: None,
        }
    );
}

#[test]
fn monitor_snapshots_keep_only_answered_toggles_in_order() {
    let snapshot = monitor_snapshot(
        Some(0.5f32.to_bits()),
        [Some(true), None, Some(false), None, Some(true)],
        Some(DigitalOutputMode::Adat),
    );
    assert_eq!(snapshot.speaker_level, Some(0.5f32.to_bits()));
    assert_eq!(
        snapshot.toggles,
        vec![
            (MonitorToggle::Dim, true),
            (MonitorToggle::Talkback, false),
            (MonitorToggle::SpeakerMute, true),
        ]
    );
    assert_eq!(snapshot.digital_output_mode, Some(DigitalOutputMode::Adat));
}
