use std::collections::HashSet;

use selah::device::control::{ControlOperation, validate_operation};
use selah::device::{
    AUDIENT_VENDOR_ID, ControlInterface, ControlInterfaceKind, DetectedDevice, DeviceIdentity,
    DeviceLocation, DiscoveryReport, SupportLevel, UnknownAudientDevice, diagnostics_text,
    select_control_interface, support_label, support_level, supported_device, supported_devices,
};
use selah::routing::{Route, RoutingDestination, RoutingSource};

#[test]
fn every_product_id_is_unique() {
    let devices = supported_devices();
    let unique_ids = devices
        .iter()
        .map(|device| device.product_id)
        .collect::<HashSet<_>>();

    assert_eq!(unique_ids.len(), devices.len());
}

#[test]
fn finds_a_supported_model_by_product_id() {
    assert_eq!(
        supported_device(0x000d).map(|device| device.name),
        Some("iD24")
    );
    assert_eq!(supported_device(0xffff), None);
}

#[test]
fn diagnostics_omits_names_and_paths() {
    let report = DiscoveryReport {
        supported: vec![DetectedDevice {
            location: DeviceLocation {
                bus: "3".to_owned(),
                address: 16,
            },
            model: supported_device(0x0008).unwrap(),
            reported_name: Some("DO NOT LEAK".to_owned()),
            control_interface: Some(ControlInterface {
                number: 4,
                kind: ControlInterfaceKind::ApplicationSpecific,
            }),
        }],
        unsupported: vec![UnknownAudientDevice {
            product_id: 0xbeef,
            reported_name: Some("DO NOT LEAK".to_owned()),
        }],
    };
    let text = diagnostics_text(&report);
    assert!(text.contains("iD14 MKII"));
    assert!(text.contains("2708:0008"));
    assert!(!text.contains("DO NOT LEAK"));
    assert!(!text.contains("serial"));
}

#[test]
fn diagnostics_lists_each_device_line_exactly() {
    let report = DiscoveryReport {
        supported: vec![DetectedDevice {
            location: DeviceLocation {
                bus: "3".to_owned(),
                address: 16,
            },
            model: supported_device(0x0008).unwrap(),
            reported_name: Some("Audient iD14".to_owned()),
            control_interface: Some(ControlInterface {
                number: 4,
                kind: ControlInterfaceKind::ApplicationSpecific,
            }),
        }],
        unsupported: vec![UnknownAudientDevice {
            product_id: 0xbeef,
            reported_name: None,
        }],
    };
    let text = diagnostics_text(&report);
    assert!(text.starts_with("Selah diagnostics (copy-safe)\n"));
    assert!(text.contains(
        "- iD14 MKII 2708:0008 @ 3:16 · control 4 (application/DFU) · Verified on iD14 MKII\n"
    ));
    assert!(text.contains("- unknown Audient 2708:beef · unsupported\n"));
    assert!(!text.contains("Audient iD14\n"));
    assert!(!text.contains("no Audient interfaces detected"));
}

#[test]
fn diagnostics_of_an_empty_scan_says_nothing_was_found() {
    let text = diagnostics_text(&DiscoveryReport::default());
    assert!(text.contains("- no Audient interfaces detected\n"));
}

#[test]
fn ignores_devices_from_other_vendors() {
    let report = DiscoveryReport::from_identities(vec![identity(0x1234, 0x000d, None)]);

    assert_eq!(report, DiscoveryReport::default());
}

#[test]
fn separates_supported_and_unknown_audient_devices() {
    let report = DiscoveryReport::from_identities(vec![
        identity(AUDIENT_VENDOR_ID, 0x000d, Some("Audient iD24")),
        identity(AUDIENT_VENDOR_ID, 0xbeef, Some("Future iD")),
    ]);

    assert_eq!(report.supported.len(), 1);
    assert_eq!(report.supported[0].model.name, "iD24");
    assert_eq!(
        report.supported[0].reported_name.as_deref(),
        Some("Audient iD24")
    );

    assert_eq!(report.unsupported.len(), 1);
    assert_eq!(report.unsupported[0].product_id, 0xbeef);
    assert_eq!(
        report.unsupported[0].reported_name.as_deref(),
        Some("Future iD")
    );
}

#[test]
fn discovery_picks_the_safe_interface_of_each_supported_device() {
    let mut id = identity(AUDIENT_VENDOR_ID, 0x0008, None);
    id.interfaces = vec![(0, 0x01), (3, 0xff), (4, 0xfe)];
    let report = DiscoveryReport::from_identities(vec![id]);
    assert_eq!(
        report.supported[0].control_interface,
        Some(ControlInterface {
            number: 4,
            kind: ControlInterfaceKind::ApplicationSpecific,
        })
    );
}

fn identity(vendor_id: u16, product_id: u16, reported_name: Option<&str>) -> DeviceIdentity {
    DeviceIdentity {
        vendor_id,
        product_id,
        reported_name: reported_name.map(str::to_owned),
        location: DeviceLocation {
            bus: "1".to_owned(),
            address: 2,
        },
        interfaces: Vec::new(),
    }
}

#[test]
fn prefers_application_specific_interface() {
    let selected = select_control_interface(&[(0, 0x01), (3, 0xff), (4, 0xfe)]);

    assert_eq!(
        selected,
        Some(ControlInterface {
            number: 4,
            kind: ControlInterfaceKind::ApplicationSpecific,
        })
    );
}

#[test]
fn uses_vendor_specific_interface_when_dfu_is_absent() {
    let selected = select_control_interface(&[(0, 0x01), (2, 0xff)]);

    assert_eq!(
        selected,
        Some(ControlInterface {
            number: 2,
            kind: ControlInterfaceKind::VendorSpecific,
        })
    );
}

#[test]
fn refuses_to_select_an_audio_interface() {
    assert_eq!(select_control_interface(&[(0, 0x01), (1, 0x01)]), None);
}

#[test]
fn id14_mkii_is_the_verified_primary() {
    let model = supported_device(0x0008).unwrap();
    assert_eq!(support_level(&model), SupportLevel::VerifiedPrimary);
}

#[test]
fn id24_is_reference_derived_and_unmapped_models_are_cataloged() {
    let id24 = supported_device(0x000d).unwrap();
    assert_eq!(support_level(&id24), SupportLevel::ReferenceDerived);
    let unmapped = supported_device(0x0003).unwrap();
    assert_eq!(support_level(&unmapped), SupportLevel::Cataloged);
}

#[test]
fn support_labels_never_overclaim() {
    assert_eq!(support_label(SupportLevel::VerifiedPrimary), "Verified on iD14 MKII");
    assert_eq!(support_label(SupportLevel::ReferenceDerived), "Reference-derived");
    assert_eq!(support_label(SupportLevel::Cataloged), "Cataloged — unverified");
}

#[test]
fn invalid_route_is_rejected_before_opening_usb() {
    let device = DetectedDevice {
        location: DeviceLocation {
            bus: "no-such-bus".to_owned(),
            address: u8::MAX,
        },
        model: supported_device(0x0008).unwrap(),
        reported_name: None,
        control_interface: None,
    };
    let error = validate_operation(
        &device,
        ControlOperation::OutputRoute(Route {
            destination: RoutingDestination::Headphones,
            source: RoutingSource::AltSpeaker,
        }),
    )
    .unwrap_err();
    assert_eq!(error, "Alt Speaker is unavailable for this model");
}
