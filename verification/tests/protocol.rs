use selah::device::protocol::{
    ControlReadRequest, ControlRequest, DecodeError, MAX_METER_INPUTS, MonitorToggle,
    channel_polarity, channel_volume, decode_digital_output_mode_response, decode_level_response,
    decode_meter_block, decode_toggle_response, digital_output_mode, digital_output_mode_read,
    headphone_volume, meter_block_read, monitor_toggle, monitor_toggle_read, output_route,
    speaker_volume, speaker_volume_read,
};
use selah::device::supported_device;
use selah::routing::{DigitalOutputMode, Route, RoutingDestination, RoutingSource};

/// The device's signed level for a normalized slider value, as the
/// application shell computes it.
fn raw(level: f32) -> i16 {
    (-32_768.0 + 32_767.0 * level) as i16
}

/// The normalized slider value of a decoded raw level.
fn normalized(raw: i16) -> f32 {
    ((f32::from(raw) + 32_768.0) / 32_767.0).clamp(0.0, 1.0)
}

#[test]
fn encodes_reference_speaker_volume_request() {
    assert_eq!(
        speaker_volume(raw(0.0), 4),
        ControlRequest {
            request: 0x01,
            value: 0x1200,
            index: 0x3604,
            payload: vec![0x00, 0x80],
        }
    );
    assert_eq!(speaker_volume(raw(0.5), 4).payload, vec![0x00, 0xc0]);
    assert_eq!(speaker_volume(raw(1.0), 4).payload, vec![0xff, 0xff]);
}

#[test]
fn encodes_reference_headphone_volume_requests() {
    assert_eq!(
        headphone_volume(raw(0.0), 4),
        [
            ControlRequest {
                request: 0x01,
                value: 0x0203,
                index: 0x0c04,
                payload: vec![0x00, 0x80],
            },
            ControlRequest {
                request: 0x01,
                value: 0x0204,
                index: 0x0c04,
                payload: vec![0x00, 0x80],
            },
        ]
    );
    for request in headphone_volume(raw(0.5), 4) {
        assert_eq!(request.payload, vec![0x00, 0xc0]);
    }
    for request in headphone_volume(raw(1.0), 4) {
        assert_eq!(request.payload, vec![0xff, 0xff]);
    }
}

#[test]
fn encodes_id14_output_routes_at_minimum_and_maximum_channels() {
    let model = supported_device(0x0008).unwrap();
    assert_eq!(
        output_route(
            &model,
            Route {
                destination: RoutingDestination::MainSpeakers,
                source: RoutingSource::MainMix,
            },
            4
        )
        .unwrap(),
        [
            ControlRequest {
                request: 0x01,
                value: 0x0600,
                index: 0x3304,
                payload: vec![0x1b],
            },
            ControlRequest {
                request: 0x01,
                value: 0x0601,
                index: 0x3304,
                payload: vec![0x1c],
            },
        ]
    );
    let phones = output_route(
        &model,
        Route {
            destination: RoutingDestination::Headphones,
            source: RoutingSource::DawMix,
        },
        4,
    )
    .unwrap();
    assert_eq!([phones[0].value, phones[1].value], [0x0604, 0x0605]);
    assert_eq!([phones[0].payload[0], phones[1].payload[0]], [4, 5]);
}

#[test]
fn encodes_id24_extended_outputs() {
    let model = supported_device(0x000d).unwrap();
    let line = output_route(
        &model,
        Route {
            destination: RoutingDestination::Outputs3And4,
            source: RoutingSource::AltSpeaker,
        },
        4,
    )
    .unwrap();
    assert_eq!([line[0].value, line[1].value], [0x0602, 0x0603]);
    assert_eq!([line[0].payload[0], line[1].payload[0]], [0x27, 0x28]);
}

#[test]
fn encodes_id24_named_sources_and_daw_channels() {
    let model = supported_device(0x000d).unwrap();
    let cases = [
        (RoutingSource::MainMix, [0x25, 0x26]),
        (RoutingSource::CueA, [0x1e, 0x1f]),
        (RoutingSource::CueB, [0x20, 0x21]),
        (RoutingSource::DawMix, [4, 5]),
    ];
    for (source, codes) in cases {
        let pair = output_route(
            &model,
            Route {
                destination: RoutingDestination::Headphones,
                source,
            },
            4,
        )
        .unwrap();
        assert_eq!([pair[0].payload[0], pair[1].payload[0]], codes);
    }
}

#[test]
fn encodes_bounded_id24_digital_output_modes() {
    assert_eq!(
        digital_output_mode(DigitalOutputMode::Adat, 4),
        ControlRequest {
            request: 0x01,
            value: 0x0100,
            index: 0x1404,
            payload: vec![0, 0, 0, 0],
        }
    );
    assert_eq!(
        digital_output_mode(DigitalOutputMode::Spdif, 4).payload,
        vec![1, 0, 0, 0]
    );
}

#[test]
fn rejects_unsupported_route_before_encoding() {
    let model = supported_device(0x0008).unwrap();
    assert!(
        output_route(
            &model,
            Route {
                destination: RoutingDestination::Headphones,
                source: RoutingSource::AltSpeaker,
            },
            4
        )
        .is_err()
    );
}

#[test]
fn encodes_reference_monitor_toggles() {
    let cases = [
        (MonitorToggle::Dim, 0x0500),
        (MonitorToggle::AltSpeaker, 0x0c00),
        (MonitorToggle::Talkback, 0x0700),
        (MonitorToggle::Mono, 0x0000),
        (MonitorToggle::SpeakerMute, 0x0400),
    ];
    for (toggle, value) in cases {
        assert_eq!(
            monitor_toggle(toggle, true, 4),
            ControlRequest {
                request: 0x01,
                value,
                index: 0x3604,
                payload: vec![0x01],
            }
        );
        assert_eq!(monitor_toggle(toggle, false, 4).payload, vec![0x00]);
    }
}

#[test]
fn encodes_channel_volume_cell_pair() {
    assert_eq!(
        channel_volume(raw(1.0), 0, 4),
        [
            ControlRequest {
                request: 0x01,
                value: 0x0100,
                index: 0x3c04,
                payload: vec![0xff, 0xff],
            },
            ControlRequest {
                request: 0x01,
                value: 0x0101,
                index: 0x3c04,
                payload: vec![0xff, 0xff],
            },
        ]
    );
    // Channel 9 (last input on the iD14 MKII) strides by six cells.
    for request in channel_volume(raw(0.0), 9, 4) {
        assert_eq!(request.request, 0x01);
        assert_eq!(request.index, 0x3c04);
        assert_eq!(request.payload, vec![0x00, 0x80]);
    }
    let pair = channel_volume(raw(0.5), 9, 4);
    assert_eq!([pair[0].value, pair[1].value], [0x0136, 0x0137]);
}

#[test]
fn encodes_channel_polarity_request() {
    assert_eq!(
        channel_polarity(2, true, 4),
        ControlRequest {
            request: 0x01,
            value: 0x0d03,
            index: 0x0b04,
            payload: vec![0x01],
        }
    );
    assert_eq!(channel_polarity(0, false, 4).payload, vec![0x00]);
}

#[test]
fn read_requests_mirror_their_write_addresses() {
    assert_eq!(
        speaker_volume_read(4),
        ControlReadRequest {
            request: 0x01,
            value: 0x1200,
            index: 0x3604,
            length: 2,
        }
    );
    assert_eq!(
        monitor_toggle_read(MonitorToggle::Dim, 4),
        ControlReadRequest {
            request: 0x01,
            value: 0x0500,
            index: 0x3604,
            length: 1,
        }
    );
    assert_eq!(
        digital_output_mode_read(4),
        ControlReadRequest {
            request: 0x01,
            value: 0x0100,
            index: 0x1404,
            length: 4,
        }
    );
    // Meters are the one block GET_MEM read, not a per-channel GET_CUR.
    assert_eq!(
        meter_block_read(4),
        ControlReadRequest {
            request: 0x03,
            value: 0x0000,
            index: 0x3c04,
            length: 32,
        }
    );
}

#[test]
fn level_responses_invert_the_device_mapping() {
    // Endpoints of the write mapping decode back to themselves.
    for level in [0.0, 0.25, 0.5, 1.0] {
        let bytes = raw(level).to_le_bytes();
        let decoded = normalized(decode_level_response(&bytes).unwrap());
        assert!(
            (decoded - level).abs() < 0.001,
            "level {level} decoded as {decoded}"
        );
    }
    // Raw silence and full scale land exactly on the endpoints.
    assert_eq!(decode_level_response(&[0x00, 0x80]), Ok(-32_768));
    assert_eq!(normalized(decode_level_response(&[0x00, 0x80]).unwrap()), 0.0);
    assert_eq!(decode_level_response(&[0xff, 0xff]), Ok(-1));
    assert_eq!(normalized(decode_level_response(&[0xff, 0xff]).unwrap()), 1.0);
}

#[test]
fn speaker_level_payload_reads_back_as_written() {
    for level in [-32_768_i16, -16_384, -1, 0, 12_345] {
        let written = speaker_volume(level, 4).payload;
        assert_eq!(decode_level_response(&written), Ok(level));
    }
}

#[test]
fn short_level_responses_are_rejected_not_zero_filled() {
    for bytes in [&[][..], &[0x00][..], &[0x00, 0x80, 0x00][..]] {
        assert_eq!(
            decode_level_response(bytes),
            Err(DecodeError::ShortResponse {
                expected: 2,
                actual: bytes.len(),
            })
        );
    }
}

#[test]
fn toggle_responses_decode_any_nonzero_byte_as_on() {
    assert_eq!(decode_toggle_response(&[0x00]), Ok(false));
    assert_eq!(decode_toggle_response(&[0x01]), Ok(true));
    assert_eq!(decode_toggle_response(&[0xff]), Ok(true));
    assert_eq!(
        decode_toggle_response(&[]),
        Err(DecodeError::ShortResponse {
            expected: 1,
            actual: 0,
        })
    );
    assert_eq!(
        decode_toggle_response(&[0x01, 0x00]),
        Err(DecodeError::ShortResponse {
            expected: 1,
            actual: 2,
        })
    );
}

#[test]
fn digital_mode_responses_accept_only_known_modes() {
    assert_eq!(
        decode_digital_output_mode_response(&[0, 0, 0, 0]),
        Ok(DigitalOutputMode::Adat)
    );
    assert_eq!(
        decode_digital_output_mode_response(&[1, 0, 0, 0]),
        Ok(DigitalOutputMode::Spdif)
    );
    assert!(matches!(
        decode_digital_output_mode_response(&[2, 0, 0, 0]),
        Err(DecodeError::InvalidValue(_))
    ));
    assert_eq!(
        decode_digital_output_mode_response(&[0, 0, 0]),
        Err(DecodeError::ShortResponse {
            expected: 4,
            actual: 3,
        })
    );
}

#[test]
fn decode_errors_read_as_user_messages() {
    assert_eq!(
        DecodeError::ShortResponse {
            expected: 2,
            actual: 1,
        }
        .message(),
        "device answered 1 bytes, expected 2"
    );
    assert!(
        DecodeError::InvalidValue("unknown optical format")
            .message()
            .starts_with("device answered an invalid value: ")
    );
}

#[test]
fn meter_blocks_yield_the_first_byte_of_each_node() {
    let mut block = [0_u8; 32];
    let mut level = 0_u8;
    for pair in block.chunks_mut(2) {
        pair[0] = level;
        pair[1] = 0xaa;
        level = level.wrapping_add(0x10);
    }
    assert_eq!(decode_meter_block(&block, 3), Ok(vec![0x00, 0x10, 0x20]));
    assert_eq!(decode_meter_block(&block, 0), Ok(vec![]));
    assert_eq!(
        decode_meter_block(&block, MAX_METER_INPUTS).unwrap().len(),
        16
    );
}

#[test]
fn short_or_oversized_meter_reads_are_rejected() {
    let block = [0_u8; 32];
    assert_eq!(
        decode_meter_block(&block[..31], 10),
        Err(DecodeError::ShortResponse {
            expected: 32,
            actual: 31,
        })
    );
    assert_eq!(
        decode_meter_block(&[], 10),
        Err(DecodeError::ShortResponse {
            expected: 32,
            actual: 0,
        })
    );
    assert!(matches!(
        decode_meter_block(&block, MAX_METER_INPUTS + 1),
        Err(DecodeError::InvalidValue(_))
    ));
}
