use selah::device::{ControlInterface, ControlInterfaceKind, DetectedDevice, DeviceLocation, supported_device};
use selah::monitor::{
    ToggleControl, ToggleStatus, VolumeControl, VolumeStatus, monitor_controls_available,
    monitor_toggles_available, volume_status_text,
};

fn bits(level: f32) -> u32 {
    level.to_bits()
}

fn percent(bits: u32) -> String {
    format!("{:.0}", f32::from_bits(bits) * 100.0)
}

/// The status line of a volume control, with its levels shown as whole
/// percentages the way the window renders them.
fn status_text(control: &VolumeControl) -> String {
    let status = control.status();
    let (level, latest) = match &status {
        VolumeStatus::Sending { sending, queued } => {
            (percent(*sending), queued.map(percent).unwrap_or_default())
        }
        VolumeStatus::Confirmed { level } | VolumeStatus::Sent { level } => {
            (percent(*level), String::new())
        }
        VolumeStatus::Failed { .. } | VolumeStatus::Unknown => (String::new(), String::new()),
    };
    volume_status_text(&status, &level, &latest)
}

fn assert_level_eq(actual: u32, expected: f32) {
    let actual = f32::from_bits(actual);
    assert!(
        (actual - expected).abs() < f32::EPSILON,
        "expected slider level {expected}, got {actual}"
    );
}

#[test]
fn non_finite_requests_are_ignored_without_touching_state() {
    let mut control = VolumeControl::default();
    let _send = control.request(bits(0.4));
    let _done = control.finish(bits(0.4), Ok(()));

    for level in [f32::NAN, f32::INFINITY, f32::NEG_INFINITY] {
        assert_eq!(control.request(bits(level)), None);
    }

    assert_level_eq(control.position(), 0.4);
    assert_eq!(control.status(), VolumeStatus::Sent { level: bits(0.4) });
}

#[test]
fn requests_clamp_to_the_device_range() {
    let mut control = VolumeControl::default();

    assert_eq!(control.request(bits(1.5)), Some(bits(1.0)));
    assert_level_eq(control.position(), 1.0);
    assert_eq!(control.finish(bits(1.0), Ok(())), None);

    assert_eq!(control.request(bits(-0.5)), Some(bits(0.0)));
    assert_level_eq(control.position(), 0.0);
}

#[test]
fn negative_zero_is_kept_and_compares_equal_to_zero() {
    let mut control = VolumeControl::default();
    assert_eq!(control.request(bits(-0.0)), Some(bits(-0.0)));
    assert!(control.is_in_flight(bits(0.0)));
    assert!(!control.is_in_flight(bits(f32::NAN)));
}

#[test]
fn moves_from_unknown_through_sending_to_sent() {
    let mut control = VolumeControl::default();
    assert_eq!(control.status(), VolumeStatus::Unknown);

    assert_eq!(control.request(bits(0.2)), Some(bits(0.2)));
    assert_eq!(
        control.status(),
        VolumeStatus::Sending {
            sending: bits(0.2),
            queued: None,
        }
    );

    assert_eq!(control.finish(bits(0.2), Ok(())), None);
    assert_eq!(control.status(), VolumeStatus::Sent { level: bits(0.2) });
    assert!(status_text(&control).contains("not read back from the device"));
}

#[test]
fn failure_keeps_last_sent_and_reports_the_error() {
    let mut control = VolumeControl::default();
    let _send = control.request(bits(0.2));
    let _done = control.finish(bits(0.2), Ok(()));

    assert_eq!(control.request(bits(0.3)), Some(bits(0.3)));
    assert_eq!(control.finish(bits(0.3), Err("no device".to_owned())), None);

    // The failed level is not presented as confirmed: the previous
    // acknowledged send is preserved and the error stays visible.
    assert_level_eq(control.position(), 0.3);
    assert_eq!(
        control.status(),
        VolumeStatus::Failed {
            error: "no device".to_owned(),
            last_sent: Some(bits(0.2)),
        }
    );
    assert!(status_text(&control).contains("no device"));
}

#[test]
fn volume_status_lines_name_each_state() {
    let mut control = VolumeControl::default();
    assert_eq!(
        status_text(&control),
        "No value read from the device — moving the slider sends a new level."
    );
    let _send = control.request(bits(0.2));
    assert_eq!(status_text(&control), "Sending 20%…");
    let _queued = control.request(bits(0.45));
    assert_eq!(status_text(&control), "Sending 20%… (latest request 45%)");
    let _next = control.finish(bits(0.2), Ok(()));
    let _done = control.finish(bits(0.45), Ok(()));
    assert_eq!(
        status_text(&control),
        "Last sent 45% — not read back from the device."
    );
    assert!(control.apply_confirmed(bits(0.7)));
    assert_eq!(status_text(&control), "Hardware reports 70% — follows the device.");
    let _retry = control.request(bits(0.3));
    let _failed = control.finish(bits(0.3), Err("no device".to_owned()));
    assert_eq!(
        status_text(&control),
        "Send failed: no device Move the slider to retry."
    );
}

#[test]
fn a_queued_repeat_of_the_sending_level_is_not_shown_as_latest() {
    let status = VolumeStatus::Sending {
        sending: bits(0.2),
        queued: Some(bits(0.2)),
    };
    assert_eq!(volume_status_text(&status, "20", "20"), "Sending 20%…");
}

#[test]
fn changes_while_sending_queue_behind_one_send() {
    let mut control = VolumeControl::default();

    assert_eq!(control.request(bits(0.2)), Some(bits(0.2)));
    assert_eq!(control.request(bits(0.3)), None);
    assert_eq!(control.request(bits(0.4)), None);

    // Still a single send in flight; only the latest request waits.
    assert_eq!(
        control.status(),
        VolumeStatus::Sending {
            sending: bits(0.2),
            queued: Some(bits(0.4)),
        }
    );
    assert_level_eq(control.position(), 0.4);

    assert_eq!(control.finish(bits(0.2), Ok(())), Some(bits(0.4)));
    assert_eq!(
        control.status(),
        VolumeStatus::Sending {
            sending: bits(0.4),
            queued: None,
        }
    );
    let _done = control.finish(bits(0.4), Ok(()));
    assert_eq!(control.status(), VolumeStatus::Sent { level: bits(0.4) });
}

#[test]
fn stale_completions_leave_state_untouched() {
    let mut control = VolumeControl::default();
    let _send = control.request(bits(0.2));

    // A completion for a level that is not in flight belongs to a
    // previous device set (e.g. before a rescan reset the control).
    assert_eq!(control.finish(bits(0.9), Ok(())), None);
    assert!(!control.is_in_flight(bits(0.9)));
    assert!(control.is_in_flight(bits(0.2)));
    assert_level_eq(control.position(), 0.2);
    assert_eq!(
        control.status(),
        VolumeStatus::Sending {
            sending: bits(0.2),
            queued: None,
        }
    );
}

#[test]
fn drop_pending_returns_to_the_last_acknowledged_state() {
    let mut control = VolumeControl::default();
    let _first = control.request(bits(0.2));
    let _done = control.finish(bits(0.2), Ok(()));
    let _second = control.request(bits(0.3));
    let _queued = control.request(bits(0.4));

    control.drop_pending();

    assert_eq!(control.status(), VolumeStatus::Sent { level: bits(0.2) });
}

#[test]
fn readback_is_ignored_while_sending_and_confirmed_otherwise() {
    let mut control = VolumeControl::default();
    let _send = control.request(bits(0.2));
    assert!(!control.apply_confirmed(bits(0.9)));
    assert_level_eq(control.position(), 0.2);

    let _done = control.finish(bits(0.2), Ok(()));
    assert!(control.apply_confirmed(bits(0.7)));
    assert_level_eq(control.position(), 0.7);
    assert_eq!(control.status(), VolumeStatus::Confirmed { level: bits(0.7) });
    // The same reading again changes nothing.
    assert!(!control.apply_confirmed(bits(0.7)));
}

#[test]
fn availability_follows_the_safe_control_interface() {
    assert!(monitor_controls_available(&device_with_control(true)));
    assert!(!monitor_controls_available(&device_with_control(false)));
}

#[test]
fn toggle_moves_from_unknown_through_sending_to_sent() {
    let mut control = ToggleControl::default();
    assert_eq!(control.status(), ToggleStatus::Unknown);

    assert_eq!(control.request(true), Some(true));
    assert!(control.position());
    assert_eq!(control.status(), ToggleStatus::Sending { sending: true });

    assert!(control.finish(true, Ok(())));
    assert_eq!(control.status(), ToggleStatus::Sent { on: true });
    assert!(
        control
            .status_text()
            .contains("not read back from the device")
    );
}

#[test]
fn toggle_failure_keeps_last_sent_and_reports_the_error() {
    let mut control = ToggleControl::default();
    let _send = control.request(true);
    assert!(control.finish(true, Ok(())));

    assert_eq!(control.request(false), Some(false));
    assert!(control.finish(false, Err("no device".to_owned())));
    assert!(!control.position());
    assert_eq!(
        control.status(),
        ToggleStatus::Failed {
            error: "no device".to_owned(),
            last_sent: Some(true),
        }
    );
    assert!(control.status_text().contains("no device"));
}

#[test]
fn toggle_request_while_sending_is_ignored() {
    let mut control = ToggleControl::default();
    assert_eq!(control.request(true), Some(true));
    assert_eq!(control.request(false), None);
    assert_eq!(control.status(), ToggleStatus::Sending { sending: true });

    assert!(control.finish(true, Ok(())));
    assert_eq!(control.status(), ToggleStatus::Sent { on: true });
}

#[test]
fn toggle_readback_is_named_confirmed() {
    let mut control = ToggleControl::default();
    assert!(control.apply_confirmed(true));
    assert_eq!(control.status(), ToggleStatus::Confirmed { on: true });
    assert_eq!(control.status_text(), "Hardware reports on — follows the device.");
}

#[test]
fn toggle_availability_requires_id14_mkii_with_a_control_interface() {
    assert!(monitor_toggles_available(&device_with_product(0x0008, true)));
    assert!(!monitor_toggles_available(&device_with_product(0x0008, false)));
    assert!(!monitor_toggles_available(&device_with_product(0x0002, true)));
    assert!(!monitor_toggles_available(&device_with_product(0x000d, true)));
}

fn device_with_product(product_id: u16, has_control: bool) -> DetectedDevice {
    DetectedDevice {
        location: DeviceLocation {
            bus: "1".to_owned(),
            address: 2,
        },
        model: supported_device(product_id).unwrap(),
        reported_name: None,
        control_interface: has_control.then_some(ControlInterface {
            number: 4,
            kind: ControlInterfaceKind::ApplicationSpecific,
        }),
    }
}

fn device_with_control(has_control: bool) -> DetectedDevice {
    device_with_product(0x0008, has_control)
}
