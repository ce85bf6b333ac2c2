use selah::device::{ControlInterface, ControlInterfaceKind, DetectedDevice, DeviceLocation, supported_device};
use selah::mixer::{channel_name, mixer_available, mixer_channel_count, meter_channel_count};
use selah::routing::{
    AdatChannel, DigitalOutput, InvalidRoute, Route, RouteControl, RouteStatus,
    RoutingDestination, RoutingSource, adat_input_mixer_index, digital_output_mode_available,
    reset_route, route_controls, routing_available, validate_route,
};

#[test]
fn id14_capabilities_include_outputs_3_4_but_not_alt() {
    let model = supported_device(0x0008).unwrap();
    let capabilities = model.routing_capabilities().unwrap();
    assert_eq!(capabilities.outputs.len(), 3);
    assert!(capabilities.sources.contains(&RoutingSource::CueB));
    assert!(!capabilities.sources.contains(&RoutingSource::AltSpeaker));
    assert!(
        validate_route(
            &model,
            Route {
                destination: RoutingDestination::Outputs3And4,
                source: RoutingSource::DawMix,
            }
        )
        .is_ok()
    );
}

#[test]
fn id24_exposes_digital_mode_without_inventing_an_optical_route_reset() {
    let model = supported_device(0x000d).unwrap();
    assert!(model.routing_capabilities().unwrap().digital_output_mode);
    assert_eq!(model.routing_capabilities().unwrap().outputs.len(), 3);
}

#[test]
fn id22_adat_inputs_follow_onboard_inputs_in_mixer_order() {
    let model = supported_device(0x0001).unwrap();
    assert_eq!(
        adat_input_mixer_index(&model, AdatChannel::new(1).unwrap()),
        Ok(2)
    );
    assert_eq!(
        adat_input_mixer_index(&model, AdatChannel::new(8).unwrap()),
        Ok(9)
    );
    assert!(
        model.routing.is_none(),
        "unverified iD22 route codes stay unavailable"
    );
}

#[test]
fn adat_channels_beyond_the_model_inputs_are_rejected() {
    let model = supported_device(0x0003).unwrap();
    assert_eq!(
        adat_input_mixer_index(&model, AdatChannel::new(1).unwrap()),
        Err(InvalidRoute::RoutingUnavailable)
    );
    assert_eq!(AdatChannel::new(5).unwrap().number(), 5);
}

#[test]
fn rejects_invalid_sources_destinations_and_adat_channels() {
    let id14 = supported_device(0x0008).unwrap();
    assert!(matches!(
        validate_route(
            &id14,
            Route {
                destination: RoutingDestination::Headphones,
                source: RoutingSource::AltSpeaker,
            }
        ),
        Err(InvalidRoute::UnsupportedSource(_))
    ));
    assert!(matches!(
        validate_route(
            &id14,
            Route {
                destination: RoutingDestination::Digital(DigitalOutput::AdatPair {
                    left: AdatChannel::new(1).unwrap(),
                    right: AdatChannel::new(2).unwrap(),
                }),
                source: RoutingSource::MainMix,
            }
        ),
        Err(InvalidRoute::UnsupportedDestination(_))
    ));
    assert!(AdatChannel::new(0).is_none());
    assert!(AdatChannel::new(9).is_none());
}

#[test]
fn models_without_a_map_refuse_every_route() {
    let id4 = supported_device(0x0003).unwrap();
    let result = validate_route(
        &id4,
        Route {
            destination: RoutingDestination::MainSpeakers,
            source: RoutingSource::MainMix,
        },
    );
    assert_eq!(result.unwrap_err(), InvalidRoute::RoutingUnavailable);
    assert_eq!(
        InvalidRoute::RoutingUnavailable.message(),
        "routing is unavailable for this model"
    );
    assert!(route_controls(&id4).is_empty());
}

#[test]
fn source_display_matches_the_dropdown_label() {
    assert_eq!(RoutingSource::MainMix.label(), "Main Mix");
    assert_eq!(RoutingSource::CueA.label(), "Cue A");
    assert_eq!(RoutingSource::DawMix.label(), "DAW Mix");
}

#[test]
fn reset_returns_each_output_documented_default() {
    let model = supported_device(0x0008).unwrap();
    assert_eq!(
        reset_route(&model, RoutingDestination::Outputs3And4)
            .unwrap()
            .source,
        RoutingSource::DawMix
    );
    assert_eq!(
        reset_route(&model, RoutingDestination::Headphones)
            .unwrap()
            .source,
        RoutingSource::CueA
    );
}

#[test]
fn every_reset_route_is_accepted_by_its_model() {
    for product_id in [0x0008, 0x000d] {
        let model = supported_device(product_id).unwrap();
        for destination in [
            RoutingDestination::MainSpeakers,
            RoutingDestination::Outputs3And4,
            RoutingDestination::Headphones,
        ] {
            let route = reset_route(&model, destination).unwrap();
            assert_eq!(route.destination, destination);
            assert!(validate_route(&model, route).is_ok());
        }
    }
}

#[test]
fn operation_state_never_claims_hardware_confirmation() {
    let mut control = RouteControl::default();
    assert_eq!(control.status(), RouteStatus::Unknown);
    assert_eq!(
        control.request(RoutingSource::CueA),
        Some(RoutingSource::CueA)
    );
    assert_eq!(
        control.status(),
        RouteStatus::Sending {
            source: RoutingSource::CueA
        }
    );
    assert!(control.finish(RoutingSource::CueA, Ok(())));
    assert_eq!(
        control.status(),
        RouteStatus::Sent {
            source: RoutingSource::CueA
        }
    );
    assert!(control.status_text().contains("not read back"));
}

#[test]
fn routing_and_optical_mode_follow_the_capability_map() {
    assert!(routing_available(&device_with(0x0008, true)));
    assert!(!routing_available(&device_with(0x0008, false)));
    assert!(!routing_available(&device_with(0x0002, true)));
    assert!(digital_output_mode_available(&device_with(0x000d, true)));
    assert!(!digital_output_mode_available(&device_with(0x0008, true)));
}

#[test]
fn channel_count_covers_microphone_plus_digital_inputs() {
    assert_eq!(mixer_channel_count(&supported_device(0x0008).unwrap()), 10);
    assert_eq!(mixer_channel_count(&supported_device(0x0003).unwrap()), 1);
    assert_eq!(mixer_channel_count(&supported_device(0x000b).unwrap()), 20);
}

#[test]
fn meter_count_is_capped_by_one_block() {
    assert_eq!(meter_channel_count(&supported_device(0x0008).unwrap()), 10);
    assert_eq!(meter_channel_count(&supported_device(0x000b).unwrap()), 16);
}

#[test]
fn channel_names_number_microphones_then_digital_inputs() {
    let model = supported_device(0x0008).unwrap();
    assert_eq!(channel_name(&model, 0), "Mic 1");
    assert_eq!(channel_name(&model, 1), "Mic 2");
    assert_eq!(channel_name(&model, 2), "ADAT 1");
    assert_eq!(channel_name(&model, 9), "ADAT 8");
}

#[test]
fn availability_requires_id14_mkii_with_a_control_interface() {
    assert!(mixer_available(&device_with(0x0008, true)));
    assert!(!mixer_available(&device_with(0x0008, false)));
    assert!(!mixer_available(&device_with(0x000d, true)));
}

fn device_with(product_id: u16, has_control: bool) -> DetectedDevice {
    DetectedDevice {
        location: DeviceLocation {
            bus: "1".to_owned(),
            address: 2,
        },
        model: supported_device(product_id).unwrap(),
        reported_name: None,
        control_interface: has_control.then_some(ControlInterface {
            number: 4,
            kind: ControlInterfaceKind::ApplicationSpecific,
        }),
    }
}
