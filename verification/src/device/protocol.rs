//! Pure encoding and decoding of Audient USB control requests.
//!
//! Every request is plain data: the transport layer only copies these
//! fields into a USB control transfer. Levels travel as the device's raw
//! signed 16-bit value (`-32768` is silence, `-1` full scale), two bytes
//! little-endian.

use vstd::prelude::*;

use super::catalog::DeviceModel;
use crate::routing::{
    DigitalOutputMode, InvalidRoute, Route, RoutingScheme, RoutingSource,
    route_validation, scheme_sources, validate_route,
};
use crate::text::{decimal_digits, push_decimal};

verus! {

/// `SET_CUR`: host-to-device write of a control's current value.
pub const SET_CURRENT: u8 = 0x01;

/// `GET_CUR` shares `bRequest 0x01` with `SET_CUR`; the IN direction lives
/// in `bmRequestType`, which the transport selects.
pub const GET_CURRENT: u8 = 0x01;

/// `GET_MEM`: the meter block is read as one memory block for every input.
pub const GET_MEMORY: u8 = 0x03;

/// Monitor (speaker) volume selector.
pub const SPEAKER_VOLUME_CONTROL: u16 = 0x1200;

/// Monitor output entity, in the high byte of `wIndex`.
pub const SPEAKER_OUTPUT_ENTITY: u16 = 0x3600;

/// Headphone channels 3 and 4 of feature unit `0x0c`, selector `0x02`.
pub const HEADPHONE_LEFT_CONTROL: u16 = 0x0203;

/// Right headphone channel control.
pub const HEADPHONE_RIGHT_CONTROL: u16 = 0x0204;

/// Headphone feature unit entity.
pub const HEADPHONE_OUTPUT_ENTITY: u16 = 0x0c00;

/// Output routing entity.
pub const ROUTING_ENTITY: u16 = 0x3300;

/// Output routing selector; the low byte carries the output channel.
pub const ROUTING_SELECTOR: u16 = 0x0600;

/// Optical-output mode entity.
pub const DIGITAL_OUTPUT_MODE_ENTITY: u16 = 0x1400;

/// Optical-output mode selector.
pub const DIGITAL_OUTPUT_MODE_CONTROL: u16 = 0x0100;

/// Monitor toggles live on the monitor entity.
pub const MONITOR_TOGGLE_ENTITY: u16 = 0x3600;

/// Mixer matrix entity; also answers the meter block read.
pub const MIXER_MATRIX_ENTITY: u16 = 0x3c00;

/// Selector of input zero's Main-left cell.
pub const MIXER_MATRIX_SELECTOR_BASE: u16 = 0x0100;

/// Cells between consecutive inputs' Main-left cells.
pub const MIXER_MATRIX_CELL_STRIDE: u16 = 6;

/// Bytes in one meter block: sixteen input nodes of two bytes.
pub const METER_BLOCK_LENGTH: u16 = 32;

/// How many input nodes one meter block can describe.
pub const MAX_METER_INPUTS: u8 = 16;

/// Input polarity entity.
pub const POLARITY_ENTITY: u16 = 0x0b00;

/// Selector of input zero's polarity.
pub const POLARITY_SELECTOR_BASE: u16 = 0x0d01;

/// A host-to-device control write: `bRequest`, `wValue`, `wIndex`, data.
#[derive(Clone, Debug, PartialEq, Eq)]
pub struct ControlRequest {
    pub request: u8,
    pub value: u16,
    pub index: u16,
    pub payload: Vec<u8>,
}

/// A control write as a mathematical value.
pub struct ControlRequestView {
    pub request: u8,
    pub value: u16,
    pub index: u16,
    pub payload: Seq<u8>,
}

impl View for ControlRequest {
    type V = ControlRequestView;

    open spec fn view(&self) -> ControlRequestView {
        ControlRequestView {
            request: self.request,
            value: self.value,
            index: self.index,
            payload: self.payload@,
        }
    }
}

/// `wIndex` for `entity` addressed through interface `interface_number`.
pub open spec fn entity_index(entity: u16, interface_number: u8) -> u16 {
    (entity + interface_number) as u16
}

/// The two little-endian bytes of a raw signed 16-bit level.
pub open spec fn level_payload(raw: i16) -> Seq<u8> {
    let u = (raw as int) % 65536;
    seq![(u % 256) as u8, (u / 256) as u8]
}

/// The raw signed 16-bit level carried by two little-endian bytes.
pub open spec fn level_from_bytes(low: u8, high: u8) -> i16 {
    let u = low + 256 * high;
    if u >= 32768 {
        (u - 65536) as i16
    } else {
        u as i16
    }
}

/// The one-byte payload of a boolean control.
pub open spec fn bool_payload(on: bool) -> Seq<u8> {
    seq![if on { 1u8 } else { 0u8 }]
}

/// The write of a raw level to the monitor volume node.
pub open spec fn speaker_volume_request(raw: i16, interface_number: u8) -> ControlRequestView {
    ControlRequestView {
        request: SET_CURRENT,
        value: SPEAKER_VOLUME_CONTROL,
        index: entity_index(SPEAKER_OUTPUT_ENTITY, interface_number),
        payload: level_payload(raw),
    }
}

/// The write of a raw level to one headphone channel control.
pub open spec fn headphone_volume_request(raw: i16, control: u16, interface_number: u8) -> ControlRequestView {
    ControlRequestView {
        request: SET_CURRENT,
        value: control,
        index: entity_index(HEADPHONE_OUTPUT_ENTITY, interface_number),
        payload: level_payload(raw),
    }
}

/// Encodes the two little-endian bytes of a raw level.
fn level_bytes(raw: i16) -> (bytes: Vec<u8>)
    ensures
        bytes@ == level_payload(raw),
{
    let u: u16 = if raw < 0 {
        (raw as i32 + 65536) as u16
    } else {
        raw as u16
    };
    assert(u as int == (raw as int) % 65536);
    let mut bytes = Vec::new();
    bytes.push((u % 256) as u8);
    bytes.push((u / 256) as u8);
    assert(bytes@ =~= level_payload(raw));
    bytes
}

/// The one-byte encoding of a boolean control.
fn bool_bytes(on: bool) -> (bytes: Vec<u8>)
    ensures
        bytes@ == bool_payload(on),
{
    let mut bytes = Vec::new();
    bytes.push(if on { 1u8 } else { 0u8 });
    assert(bytes@ =~= bool_payload(on));
    bytes
}

/// Encodes a raw level write to selector `value` of `entity`.
pub fn level_write(value: u16, entity: u16, interface_number: u8, raw: i16) -> (request: ControlRequest)
    requires
        entity + interface_number <= u16::MAX,
    ensures
        request@ == (ControlRequestView {
            request: SET_CURRENT,
            value,
            index: entity_index(entity, interface_number),
            payload: level_payload(raw),
        }),
{
    ControlRequest {
        request: SET_CURRENT,
        value,
        index: entity + interface_number as u16,
        payload: level_bytes(raw),
    }
}

/// Encodes the write routing `source` to routing channel `output_channel`.
pub fn route_write(scheme: RoutingScheme, source: RoutingSource, output_channel: u8, interface_number: u8) -> (request: ControlRequest)
    requires
        scheme_sources(scheme).contains(source),
    ensures
        request@ == route_channel_request(scheme, source, output_channel, interface_number),
{
    let mut payload = Vec::new();
    payload.push(route_code(scheme, source, output_channel));
    assert(payload@ =~= seq![route_source_code(scheme, source, output_channel)]);
    ControlRequest {
        request: SET_CURRENT,
        value: ROUTING_SELECTOR + output_channel as u16,
        index: ROUTING_ENTITY + interface_number as u16,
        payload,
    }
}

/// Encodes the monitor (speaker) volume write.
pub fn speaker_volume(raw: i16, interface_number: u8) -> (request: ControlRequest)
    ensures
        request@ == speaker_volume_request(raw, interface_number),
{
    ControlRequest {
        request: SET_CURRENT,
        value: SPEAKER_VOLUME_CONTROL,
        index: SPEAKER_OUTPUT_ENTITY + interface_number as u16,
        payload: level_bytes(raw),
    }
}

/// Encodes headphone volume as the left and right channel writes, in the
/// order they must be sent.
pub fn headphone_volume(raw: i16, interface_number: u8) -> (requests: [ControlRequest; 2])
    ensures
        requests[0]@ == headphone_volume_request(raw, HEADPHONE_LEFT_CONTROL, interface_number),
        requests[1]@ == headphone_volume_request(raw, HEADPHONE_RIGHT_CONTROL, interface_number),
{
    let left = level_write(HEADPHONE_LEFT_CONTROL, HEADPHONE_OUTPUT_ENTITY, interface_number, raw);
    let right = level_write(HEADPHONE_RIGHT_CONTROL, HEADPHONE_OUTPUT_ENTITY, interface_number, raw);
    [left, right]
}

/// A monitor toggle on the monitor entity.
#[derive(Clone, Copy, Debug, PartialEq, Eq, Structural)]
pub enum MonitorToggle {
    Dim,
    AltSpeaker,
    Talkback,
    Mono,
    SpeakerMute,
}

impl MonitorToggle {
    /// The position of this toggle in the stable UI order.
    pub open spec fn spec_index(self) -> int {
        match self {
            MonitorToggle::Dim => 0,
            MonitorToggle::AltSpeaker => 1,
            MonitorToggle::Talkback => 2,
            MonitorToggle::Mono => 3,
            MonitorToggle::SpeakerMute => 4,
        }
    }

    /// The selector (`wValue`) of this toggle.
    pub open spec fn spec_control(self) -> u16 {
        match self {
            MonitorToggle::Dim => 0x0500,
            MonitorToggle::AltSpeaker => 0x0c00,
            MonitorToggle::Talkback => 0x0700,
            MonitorToggle::Mono => 0x0000,
            MonitorToggle::SpeakerMute => 0x0400,
        }
    }

    /// The short button label of this toggle.
    pub open spec fn spec_label(self) -> Seq<char> {
        match self {
            MonitorToggle::Dim => "DIM"@,
            MonitorToggle::AltSpeaker => "ALT"@,
            MonitorToggle::Talkback => "TB"@,
            MonitorToggle::Mono => "MONO"@,
            MonitorToggle::SpeakerMute => "MUTE"@,
        }
    }

    /// All toggles in stable UI order.
    pub fn all() -> (toggles: [MonitorToggle; 5])
        ensures
            forall|i: int| 0 <= i < 5 ==> (#[trigger] toggles[i]).spec_index() == i,
    {
        [
            MonitorToggle::Dim,
            MonitorToggle::AltSpeaker,
            MonitorToggle::Talkback,
            MonitorToggle::Mono,
            MonitorToggle::SpeakerMute,
        ]
    }

    /// Short label for buttons, matching the hardware panel.
    pub fn label(self) -> (text: &'static str)
        ensures
            text@ == self.spec_label(),
    {
        match self {
            MonitorToggle::Dim => "DIM",
            MonitorToggle::AltSpeaker => "ALT",
            MonitorToggle::Talkback => "TB",
            MonitorToggle::Mono => "MONO",
            MonitorToggle::SpeakerMute => "MUTE",
        }
    }

    /// The selector (`wValue`) shared by this toggle's write and read.
    pub fn control(self) -> (value: u16)
        ensures
            value == self.spec_control(),
    {
        match self {
            MonitorToggle::Dim => 0x0500,
            MonitorToggle::AltSpeaker => 0x0c00,
            MonitorToggle::Talkback => 0x0700,
            MonitorToggle::Mono => 0x0000,
            MonitorToggle::SpeakerMute => 0x0400,
        }
    }

    /// The position of this toggle in [`MonitorToggle::all`].
    pub fn index(self) -> (i: usize)
        ensures
            i == self.spec_index(),
    {
        match self {
            MonitorToggle::Dim => 0,
            MonitorToggle::AltSpeaker => 1,
            MonitorToggle::Talkback => 2,
            MonitorToggle::Mono => 3,
            MonitorToggle::SpeakerMute => 4,
        }
    }
}

/// The one-byte write of a monitor toggle.
pub open spec fn monitor_toggle_request(toggle: MonitorToggle, on: bool, interface_number: u8) -> ControlRequestView {
    ControlRequestView {
        request: SET_CURRENT,
        value: toggle.spec_control(),
        index: entity_index(MONITOR_TOGGLE_ENTITY, interface_number),
        payload: bool_payload(on),
    }
}

/// Encodes one monitor toggle as a one-byte bool write.
pub fn monitor_toggle(toggle: MonitorToggle, on: bool, interface_number: u8) -> (request: ControlRequest)
    ensures
        request@ == monitor_toggle_request(toggle, on, interface_number),
{
    ControlRequest {
        request: SET_CURRENT,
        value: toggle.control(),
        index: MONITOR_TOGGLE_ENTITY + interface_number as u16,
        payload: bool_bytes(on),
    }
}

/// The `wValue` of input `channel`'s Main-left matrix cell; Main-right is
/// the next selector.
pub open spec fn matrix_cell(channel: u8) -> u16 {
    (MIXER_MATRIX_SELECTOR_BASE + channel * MIXER_MATRIX_CELL_STRIDE) as u16
}

/// The write of a raw level to one mixer matrix cell.
pub open spec fn matrix_cell_request(raw: i16, cell: u16, interface_number: u8) -> ControlRequestView {
    ControlRequestView {
        request: SET_CURRENT,
        value: cell,
        index: entity_index(MIXER_MATRIX_ENTITY, interface_number),
        payload: level_payload(raw),
    }
}

/// Encodes one input channel's level as its Main-send cell pair (left,
/// then right). `channel` is the running input index across microphone
/// then digital inputs.
pub fn channel_volume(raw: i16, channel: u8, interface_number: u8) -> (requests: [ControlRequest; 2])
    ensures
        requests[0]@ == matrix_cell_request(raw, matrix_cell(channel), interface_number),
        requests[1]@ == matrix_cell_request(raw, (matrix_cell(channel) + 1) as u16, interface_number),
{
    let base = MIXER_MATRIX_SELECTOR_BASE + channel as u16 * MIXER_MATRIX_CELL_STRIDE;
    let left = level_write(base, MIXER_MATRIX_ENTITY, interface_number, raw);
    let right = level_write(base + 1, MIXER_MATRIX_ENTITY, interface_number, raw);
    [left, right]
}

/// The one-byte polarity write of input `channel`.
pub open spec fn channel_polarity_request(channel: u8, flipped: bool, interface_number: u8) -> ControlRequestView {
    ControlRequestView {
        request: SET_CURRENT,
        value: (POLARITY_SELECTOR_BASE + channel) as u16,
        index: entity_index(POLARITY_ENTITY, interface_number),
        payload: bool_payload(flipped),
    }
}

/// Encodes one input channel's polarity as a one-byte bool write.
pub fn channel_polarity(channel: u8, flipped: bool, interface_number: u8) -> (request: ControlRequest)
    ensures
        request@ == channel_polarity_request(channel, flipped, interface_number),
{
    ControlRequest {
        request: SET_CURRENT,
        value: POLARITY_SELECTOR_BASE + channel as u16,
        index: POLARITY_ENTITY + interface_number as u16,
        payload: bool_bytes(flipped),
    }
}

/// The source byte a scheme sends for `source` on routing channel
/// `output_channel`; stereo sources alternate by the channel's parity.
pub open spec fn route_source_code(scheme: RoutingScheme, source: RoutingSource, output_channel: u8) -> u8 {
    let side = (output_channel % 2) as u8;
    match scheme {
        RoutingScheme::Id14Table => match source {
            RoutingSource::MainMix => (0x1b + side) as u8,
            RoutingSource::CueA => 0x19,
            RoutingSource::CueB => 0x1a,
            RoutingSource::DawMix => output_channel,
            RoutingSource::AltSpeaker => 0,
        },
        RoutingScheme::Id24Formula => match source {
            RoutingSource::MainMix => (0x25 + side) as u8,
            RoutingSource::AltSpeaker => (0x27 + side) as u8,
            RoutingSource::CueA => (0x1e + side) as u8,
            RoutingSource::CueB => (0x20 + side) as u8,
            RoutingSource::DawMix => output_channel,
        },
    }
}

/// The source byte for `source` on routing channel `output_channel`.
pub fn route_code(scheme: RoutingScheme, source: RoutingSource, output_channel: u8) -> (code: u8)
    requires
        scheme_sources(scheme).contains(source),
    ensures
        code == route_source_code(scheme, source, output_channel),
{
    let side = output_channel % 2;
    match (scheme, source) {
        (RoutingScheme::Id14Table, RoutingSource::MainMix) => 0x1b + side,
        (RoutingScheme::Id14Table, RoutingSource::AltSpeaker) => {
            proof {
                assert(scheme_sources(scheme)[3] == RoutingSource::DawMix);
            }
            0
        },
        (RoutingScheme::Id14Table, RoutingSource::CueA) => 0x19,
        (RoutingScheme::Id14Table, RoutingSource::CueB) => 0x1a,
        (_, RoutingSource::DawMix) => output_channel,
        (RoutingScheme::Id24Formula, RoutingSource::MainMix) => 0x25 + side,
        (RoutingScheme::Id24Formula, RoutingSource::AltSpeaker) => 0x27 + side,
        (RoutingScheme::Id24Formula, RoutingSource::CueA) => 0x1e + side,
        (RoutingScheme::Id24Formula, RoutingSource::CueB) => 0x20 + side,
    }
}

/// The write that routes `source` to routing channel `output_channel`.
pub open spec fn route_channel_request(
    scheme: RoutingScheme,
    source: RoutingSource,
    output_channel: u8,
    interface_number: u8,
) -> ControlRequestView {
    ControlRequestView {
        request: SET_CURRENT,
        value: (ROUTING_SELECTOR + output_channel) as u16,
        index: entity_index(ROUTING_ENTITY, interface_number),
        payload: seq![route_source_code(scheme, source, output_channel)],
    }
}

/// Encodes a validated route as the writes for both halves of the
/// physical output pair (left channel first). Validation happens before
/// any request is built, so nothing outside the model's capability table
/// can be encoded.
pub fn output_route(model: &DeviceModel, route: Route, interface_number: u8) -> (result: Result<
    [ControlRequest; 2],
    InvalidRoute,
>)
    ensures
        match route_validation(*model, route) {
            Err(error) => result == Err::<[ControlRequest; 2], InvalidRoute>(error),
            Ok(output) => result matches Ok(requests) && {
                &&& requests[0]@ == route_channel_request(model.routing.unwrap(), route.source, output.channels[0], interface_number)
                &&& requests[1]@ == route_channel_request(model.routing.unwrap(), route.source, output.channels[1], interface_number)
            },
        },
{
    let (capabilities, output) = match validate_route(model, route) {
        Ok(found) => found,
        Err(error) => return Err(error),
    };
    proof {
        let scheme = model.routing.unwrap();
        assert(capabilities.sources@ == scheme_sources(scheme));
        assert(scheme_sources(scheme).contains(route.source));
    }
    let left = route_write(capabilities.scheme, route.source, output.channels[0], interface_number);
    let right = route_write(capabilities.scheme, route.source, output.channels[1], interface_number);
    Ok([left, right])
}

/// The four little-endian bytes of an optical-output mode: `0` is ADAT,
/// `1` is S/PDIF.
pub open spec fn digital_output_mode_payload(mode: DigitalOutputMode) -> Seq<u8> {
    seq![if mode is Adat { 0u8 } else { 1u8 }, 0u8, 0u8, 0u8]
}

/// The optical-output mode write.
pub open spec fn digital_output_mode_request(mode: DigitalOutputMode, interface_number: u8) -> ControlRequestView {
    ControlRequestView {
        request: SET_CURRENT,
        value: DIGITAL_OUTPUT_MODE_CONTROL,
        index: entity_index(DIGITAL_OUTPUT_MODE_ENTITY, interface_number),
        payload: digital_output_mode_payload(mode),
    }
}

/// Encodes the evidenced iD24 optical-output mode write.
pub fn digital_output_mode(mode: DigitalOutputMode, interface_number: u8) -> (request: ControlRequest)
    ensures
        request@ == digital_output_mode_request(mode, interface_number),
{
    let mut payload = Vec::new();
    payload.push(
        match mode {
            DigitalOutputMode::Adat => 0u8,
            DigitalOutputMode::Spdif => 1u8,
        },
    );
    payload.push(0);
    payload.push(0);
    payload.push(0);
    assert(payload@ =~= digital_output_mode_payload(mode));
    ControlRequest {
        request: SET_CURRENT,
        value: DIGITAL_OUTPUT_MODE_CONTROL,
        index: DIGITAL_OUTPUT_MODE_ENTITY + interface_number as u16,
        payload,
    }
}

/// A device-to-host control read: the `GET_CUR` or `GET_MEM` counterpart of
/// a [`ControlRequest`]. Only entities whose reads answer truthfully have
/// constructors; the mixer matrix cells, routing, polarity, and headphone
/// volume stay write-only.
#[derive(Clone, Copy, Debug, PartialEq, Eq, Structural)]
pub struct ControlReadRequest {
    pub request: u8,
    pub value: u16,
    pub index: u16,
    pub length: u16,
}

/// Reads the monitor volume node back: two bytes little-endian.
pub fn speaker_volume_read(interface_number: u8) -> (read: ControlReadRequest)
    ensures
        read == (ControlReadRequest {
            request: GET_CURRENT,
            value: SPEAKER_VOLUME_CONTROL,
            index: entity_index(SPEAKER_OUTPUT_ENTITY, interface_number),
            length: 2,
        }),
{
    ControlReadRequest {
        request: GET_CURRENT,
        value: SPEAKER_VOLUME_CONTROL,
        index: SPEAKER_OUTPUT_ENTITY + interface_number as u16,
        length: 2,
    }
}

/// Reads one monitor toggle back as the one-byte bool the device holds.
pub fn monitor_toggle_read(toggle: MonitorToggle, interface_number: u8) -> (read: ControlReadRequest)
    ensures
        read == (ControlReadRequest {
            request: GET_CURRENT,
            value: toggle.spec_control(),
            index: entity_index(MONITOR_TOGGLE_ENTITY, interface_number),
            length: 1,
        }),
{
    ControlReadRequest {
        request: GET_CURRENT,
        value: toggle.control(),
        index: MONITOR_TOGGLE_ENTITY + interface_number as u16,
        length: 1,
    }
}

/// Reads the optical-output mode back: four bytes little-endian.
pub fn digital_output_mode_read(interface_number: u8) -> (read: ControlReadRequest)
    ensures
        read == (ControlReadRequest {
            request: GET_CURRENT,
            value: DIGITAL_OUTPUT_MODE_CONTROL,
            index: entity_index(DIGITAL_OUTPUT_MODE_ENTITY, interface_number),
            length: 4,
        }),
{
    ControlReadRequest {
        request: GET_CURRENT,
        value: DIGITAL_OUTPUT_MODE_CONTROL,
        index: DIGITAL_OUTPUT_MODE_ENTITY + interface_number as u16,
        length: 4,
    }
}

/// Reads the whole input-node meter block at once.
pub fn meter_block_read(interface_number: u8) -> (read: ControlReadRequest)
    ensures
        read == (ControlReadRequest {
            request: GET_MEMORY,
            value: 0,
            index: entity_index(MIXER_MATRIX_ENTITY, interface_number),
            length: METER_BLOCK_LENGTH,
        }),
{
    ControlReadRequest {
        request: GET_MEMORY,
        value: 0x0000,
        index: MIXER_MATRIX_ENTITY + interface_number as u16,
        length: METER_BLOCK_LENGTH,
    }
}

/// A device response that cannot be trusted as the requested value.
#[derive(Clone, Copy, Debug, PartialEq, Eq)]
pub enum DecodeError {
    /// The device answered with fewer (or more) bytes than requested. A
    /// short block is rejected rather than zero-filled.
    ShortResponse { expected: u16, actual: usize },
    /// The bytes arrived intact but name no valid value.
    InvalidValue(&'static str),
}

impl DecodeError {
    /// The user-facing message for this error.
    pub open spec fn spec_message(self) -> Seq<char> {
        match self {
            DecodeError::ShortResponse { expected, actual } => "device answered "@
                + decimal_digits(actual as nat) + " bytes, expected "@ + decimal_digits(
                expected as nat,
            ),
            DecodeError::InvalidValue(detail) => "device answered an invalid value: "@ + detail@,
        }
    }

    /// User-facing message for this error.
    pub fn message(self) -> (text: String)
        ensures
            text@ == self.spec_message(),
    {
        match self {
            DecodeError::ShortResponse { expected, actual } => {
                let mut text = "device answered ".to_owned();
                push_decimal(&mut text, actual as u64);
                text.append(" bytes, expected ");
                push_decimal(&mut text, expected as u64);
                text
            },
            DecodeError::InvalidValue(detail) => {
                let mut text = "device answered an invalid value: ".to_owned();
                text.append(detail);
                text
            },
        }
    }
}

/// What a two-byte level response decodes to.
pub open spec fn level_decoding(bytes: Seq<u8>) -> Result<i16, DecodeError> {
    if bytes.len() != 2 {
        Err(DecodeError::ShortResponse { expected: 2, actual: bytes.len() as usize })
    } else {
        Ok(level_from_bytes(bytes[0], bytes[1]))
    }
}

/// Decodes a two-byte little-endian level response into the raw level.
/// A response of any other length is rejected, not zero-filled.
pub fn decode_level_response(bytes: &[u8]) -> (result: Result<i16, DecodeError>)
    ensures
        result == level_decoding(bytes@),
{
    if bytes.len() != 2 {
        return Err(DecodeError::ShortResponse { expected: 2, actual: bytes.len() });
    }
    let u: u32 = bytes[0] as u32 + 256 * bytes[1] as u32;
    let raw: i16 = if u >= 32768 {
        (u as i32 - 65536) as i16
    } else {
        u as i16
    };
    Ok(raw)
}

/// What a one-byte toggle response decodes to: any nonzero byte is on.
pub open spec fn toggle_decoding(bytes: Seq<u8>) -> Result<bool, DecodeError> {
    if bytes.len() != 1 {
        Err(DecodeError::ShortResponse { expected: 1, actual: bytes.len() as usize })
    } else {
        Ok(bytes[0] != 0)
    }
}

/// Decodes a one-byte monitor-toggle response: any nonzero byte means on.
pub fn decode_toggle_response(bytes: &[u8]) -> (result: Result<bool, DecodeError>)
    ensures
        result == toggle_decoding(bytes@),
{
    if bytes.len() != 1 {
        return Err(DecodeError::ShortResponse { expected: 1, actual: bytes.len() });
    }
    Ok(bytes[0] != 0)
}

/// What a four-byte optical-output mode response decodes to.
pub open spec fn digital_output_mode_decoding(bytes: Seq<u8>) -> Result<DigitalOutputMode, DecodeError> {
    if bytes.len() != 4 {
        Err(DecodeError::ShortResponse { expected: 4, actual: bytes.len() as usize })
    } else if bytes[0] == 0 {
        Ok(DigitalOutputMode::Adat)
    } else if bytes[0] == 1 {
        Ok(DigitalOutputMode::Spdif)
    } else {
        Err(DecodeError::InvalidValue("optical output mode is neither ADAT (0) nor S/PDIF (1)"))
    }
}

/// Decodes a four-byte optical-output mode response (`0` is ADAT, `1` is
/// S/PDIF). Any other first byte is rejected, not guessed.
pub fn decode_digital_output_mode_response(bytes: &[u8]) -> (result: Result<DigitalOutputMode, DecodeError>)
    ensures
        result == digital_output_mode_decoding(bytes@),
{
    if bytes.len() != 4 {
        return Err(DecodeError::ShortResponse { expected: 4, actual: bytes.len() });
    }
    match bytes[0] {
        0 => Ok(DigitalOutputMode::Adat),
        1 => Ok(DigitalOutputMode::Spdif),
        _ => Err(DecodeError::InvalidValue("optical output mode is neither ADAT (0) nor S/PDIF (1)")),
    }
}

/// What a meter block decodes to for `inputs` input nodes: the first byte
/// of each two-byte node.
pub open spec fn meter_decoding(bytes: Seq<u8>, inputs: u8) -> Result<Seq<u8>, DecodeError> {
    if inputs > MAX_METER_INPUTS {
        Err(DecodeError::InvalidValue("meter input count exceeds one block"))
    } else if bytes.len() != METER_BLOCK_LENGTH {
        Err(DecodeError::ShortResponse { expected: METER_BLOCK_LENGTH, actual: bytes.len() as usize })
    } else {
        Ok(Seq::new(inputs as nat, |i: int| bytes[2 * i]))
    }
}

/// Decodes the meter block into one level byte per input node. The block
/// must arrive whole: a short block is rejected rather than padded with
/// fake silence.
pub fn decode_meter_block(bytes: &[u8], inputs: u8) -> (result: Result<Vec<u8>, DecodeError>)
    ensures
        match meter_decoding(bytes@, inputs) {
            Ok(levels) => result matches Ok(v) && v@ == levels,
            Err(error) => result == Err::<Vec<u8>, DecodeError>(error),
        },
{
    if inputs > MAX_METER_INPUTS {
        return Err(DecodeError::InvalidValue("meter input count exceeds one block"));
    }
    if bytes.len() != METER_BLOCK_LENGTH as usize {
        return Err(DecodeError::ShortResponse { expected: METER_BLOCK_LENGTH, actual: bytes.len() });
    }
    let mut levels = Vec::new();
    let mut input: u8 = 0;
    while input < inputs
        invariant
            inputs <= MAX_METER_INPUTS,
            bytes@.len() == METER_BLOCK_LENGTH,
            input <= inputs,
            levels@ == Seq::new(input as nat, |i: int| bytes@[2 * i]),
        decreases inputs - input,
    {
        levels.push(bytes[2 * input as usize]);
        input += 1;
        assert(levels@ =~= Seq::new(input as nat, |i: int| bytes@[2 * i]));
    }
    assert(levels@ =~= Seq::new(inputs as nat, |i: int| bytes@[2 * i]));
    Ok(levels)
}

/// Reading a level back decodes exactly the raw level that was written:
/// decoding the payload of any level write yields that level.
pub proof fn lemma_level_roundtrip(raw: i16)
    ensures
        level_decoding(level_payload(raw)) == Ok::<i16, DecodeError>(raw),
{
    let u = (raw as int) % 65536;
    assert(u == if raw < 0 { raw + 65536 } else { raw as int });
}

/// Every raw level the device can answer with has exactly one encoding:
/// re-encoding a decoded two-byte response reproduces its bytes.
pub proof fn lemma_level_bytes_roundtrip(bytes: Seq<u8>)
    requires
        bytes.len() == 2,
    ensures
        level_decoding(bytes) matches Ok(raw) && level_payload(raw) == bytes,
{
    let raw = level_from_bytes(bytes[0], bytes[1]);
    let u = (raw as int) % 65536;
    assert(u == bytes[0] + 256 * bytes[1]);
    assert(level_payload(raw) =~= bytes);
}

/// A toggle's read answers at the address of its write, and decoding the
/// written byte yields the value written.
pub proof fn lemma_toggle_read_mirrors_write(toggle: MonitorToggle, on: bool, interface_number: u8)
    ensures
        monitor_toggle_request(toggle, on, interface_number).value == toggle.spec_control(),
        monitor_toggle_request(toggle, on, interface_number).index == entity_index(
            MONITOR_TOGGLE_ENTITY,
            interface_number,
        ),
        toggle_decoding(monitor_toggle_request(toggle, on, interface_number).payload) == Ok::<
            bool,
            DecodeError,
        >(on),
{
}

/// The optical-output mode read answers at the address of its write, and
/// decoding the written bytes yields the mode written.
pub proof fn lemma_digital_output_mode_roundtrip(mode: DigitalOutputMode, interface_number: u8)
    ensures
        digital_output_mode_request(mode, interface_number).value == DIGITAL_OUTPUT_MODE_CONTROL,
        digital_output_mode_decoding(digital_output_mode_request(mode, interface_number).payload)
            == Ok::<DigitalOutputMode, DecodeError>(mode),
{
}

/// The speaker level read answers at the address of its write, and reading
/// back the written bytes yields the level written.
pub proof fn lemma_speaker_level_read_mirrors_write(raw: i16, interface_number: u8)
    ensures
        speaker_volume_request(raw, interface_number).value == SPEAKER_VOLUME_CONTROL,
        speaker_volume_request(raw, interface_number).index == entity_index(
            SPEAKER_OUTPUT_ENTITY,
            interface_number,
        ),
        level_decoding(speaker_volume_request(raw, interface_number).payload) == Ok::<
            i16,
            DecodeError,
        >(raw),
{
    lemma_level_roundtrip(raw);
}

/// A route write always names the routing entity, a selector for one of
/// the validated output's channels, and exactly one source byte; the two
/// writes of a pair address distinct channels.
pub proof fn lemma_route_pair_addresses_both_channels(model: DeviceModel, route: Route, interface_number: u8)
    requires
        route_validation(model, route) is Ok,
    ensures
        ({
            let output = route_validation(model, route)->Ok_0;
            let scheme = model.routing.unwrap();
            &&& output.channels[0] != output.channels[1]
            &&& route_channel_request(scheme, route.source, output.channels[0], interface_number).value
                != route_channel_request(scheme, route.source, output.channels[1], interface_number).value
            &&& route_channel_request(scheme, route.source, output.channels[0], interface_number).payload.len() == 1
        }),
{
    let scheme = model.routing.unwrap();
    reveal_with_fuel(crate::routing::find_output, 4);
}

} // verus!
