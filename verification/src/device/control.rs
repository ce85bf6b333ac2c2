//! What each control send and feedback poll does, decided before and
//! after the USB work that the transport performs.
//!
//! Every send validates its input before any USB I/O, opens a short-lived
//! session, transfers its bounded request sequence in order (stopping at the
//! first failure so stereo pairs cannot silently mismatch), and always
//! closes the session. Failures are reported with a recovery hint.

use vstd::prelude::*;

use super::catalog::DeviceModel;
use super::discovery::DetectedDevice;
use super::protocol::{
    ControlRequest, ControlRequestView, HEADPHONE_LEFT_CONTROL, HEADPHONE_OUTPUT_ENTITY,
    HEADPHONE_RIGHT_CONTROL, MIXER_MATRIX_CELL_STRIDE, MIXER_MATRIX_ENTITY,
    MIXER_MATRIX_SELECTOR_BASE, level_write, route_write,
    MonitorToggle, channel_polarity, channel_polarity_request,
    digital_output_mode, digital_output_mode_request, headphone_volume_request,
    matrix_cell, matrix_cell_request, monitor_toggle, monitor_toggle_request,
    route_channel_request, speaker_volume, speaker_volume_request,
};
use super::session::SessionError;
use crate::mixer::{channel_count, meter_count, meter_channel_count, meter_feedback_available, mixer_supported};
use crate::monitor::{speaker_feedback_available, toggle_feedback_available, toggles_supported};
use crate::routing::{
    DigitalOutputMode, Route, digital_output_mode_available,
    model_has_digital_output_mode, route_validation, validate_route,
};
use crate::text::{decimal_digits, push_decimal};

verus! {

/// One user-initiated control send. Levels are the device's raw signed
/// 16-bit values.
#[derive(Clone, Copy, Debug, PartialEq, Eq, Structural)]
pub enum ControlOperation {
    SpeakerLevel(i16),
    HeadphoneLevel(i16),
    OutputRoute(Route),
    DigitalOutputMode(DigitalOutputMode),
    MonitorToggle(MonitorToggle, bool),
    ChannelLevel(u8, i16),
    ChannelPolarity(u8, bool),
}

/// The number of mixer inputs of a model, as a bound on channel indexes.
pub open spec fn input_count(model: DeviceModel) -> u8 {
    channel_count(model)
}

/// The message for an input index outside the model's inputs.
pub open spec fn channel_range_message(channel: u8, inputs: u8) -> Seq<char> {
    "input channel "@ + decimal_digits(channel as nat) + " is outside this model's "@
        + decimal_digits(inputs as nat) + " inputs"@
}

/// Rejects a channel index outside the model's microphone plus digital
/// inputs before any USB I/O happens.
pub fn validated_channel(device: &DetectedDevice, channel: u8) -> (result: Result<u8, String>)
    ensures
        channel < input_count(device.model) ==> result == Ok::<u8, String>(channel),
        channel >= input_count(device.model) ==> (result matches Err(message) && message@
            == channel_range_message(channel, input_count(device.model))),
{
    let inputs = device.model.mic_inputs.saturating_add(device.model.digital_inputs);
    if channel < inputs {
        Ok(channel)
    } else {
        let mut message = "input channel ".to_owned();
        push_decimal(&mut message, channel as u64);
        message.append(" is outside this model's ");
        push_decimal(&mut message, inputs as u64);
        message.append(" inputs");
        Err(message)
    }
}

/// The refusal message for an operation, or `None` when it may be sent:
/// routes must validate for the model, the optical format must be
/// evidenced for it, and channel indexes must name one of its inputs.
pub open spec fn operation_refusal(device: DetectedDevice, operation: ControlOperation) -> Option<Seq<char>> {
    match operation {
        ControlOperation::OutputRoute(route) => match route_validation(device.model, route) {
            Err(error) => Some(error.spec_message()),
            Ok(_) => None,
        },
        ControlOperation::DigitalOutputMode(_) => if device.control_interface is Some
            && model_has_digital_output_mode(device.model) {
            None
        } else {
            Some("digital output mode is unavailable for this model"@)
        },
        ControlOperation::ChannelLevel(channel, _) => if channel < input_count(device.model) {
            None
        } else {
            Some(channel_range_message(channel, input_count(device.model)))
        },
        ControlOperation::ChannelPolarity(channel, _) => if channel < input_count(device.model) {
            None
        } else {
            Some(channel_range_message(channel, input_count(device.model)))
        },
        _ => None,
    }
}

/// Checks an operation against the attachment before any USB I/O.
pub fn validate_operation(device: &DetectedDevice, operation: ControlOperation) -> (result: Result<(), String>)
    ensures
        match operation_refusal(*device, operation) {
            None => result is Ok,
            Some(message) => result matches Err(text) && text@ == message,
        },
{
    match operation {
        ControlOperation::OutputRoute(route) => match validate_route(&device.model, route) {
            Ok(_) => Ok(()),
            Err(error) => Err(error.message()),
        },
        ControlOperation::DigitalOutputMode(_) => if digital_output_mode_available(device) {
            Ok(())
        } else {
            Err("digital output mode is unavailable for this model".to_owned())
        },
        ControlOperation::ChannelLevel(channel, _) => match validated_channel(device, channel) {
            Ok(_) => Ok(()),
            Err(message) => Err(message),
        },
        ControlOperation::ChannelPolarity(channel, _) => match validated_channel(device, channel) {
            Ok(_) => Ok(()),
            Err(message) => Err(message),
        },
        _ => Ok(()),
    }
}

/// The writes an accepted operation sends through interface
/// `interface_number`, in transfer order.
pub open spec fn operation_writes(
    model: DeviceModel,
    operation: ControlOperation,
    interface_number: u8,
) -> Seq<ControlRequestView> {
    match operation {
        ControlOperation::SpeakerLevel(raw) => seq![speaker_volume_request(raw, interface_number)],
        ControlOperation::HeadphoneLevel(raw) => seq![
            headphone_volume_request(raw, HEADPHONE_LEFT_CONTROL, interface_number),
            headphone_volume_request(raw, HEADPHONE_RIGHT_CONTROL, interface_number),
        ],
        ControlOperation::OutputRoute(route) => {
            let output = route_validation(model, route)->Ok_0;
            seq![
                route_channel_request(model.routing.unwrap(), route.source, output.channels[0], interface_number),
                route_channel_request(model.routing.unwrap(), route.source, output.channels[1], interface_number),
            ]
        },
        ControlOperation::DigitalOutputMode(mode) => seq![digital_output_mode_request(mode, interface_number)],
        ControlOperation::MonitorToggle(toggle, on) => seq![monitor_toggle_request(toggle, on, interface_number)],
        ControlOperation::ChannelLevel(channel, raw) => seq![
            matrix_cell_request(raw, matrix_cell(channel), interface_number),
            matrix_cell_request(raw, (matrix_cell(channel) + 1) as u16, interface_number),
        ],
        ControlOperation::ChannelPolarity(channel, flipped) => seq![channel_polarity_request(channel, flipped, interface_number)],
    }
}

/// Encodes an accepted operation as its ordered writes.
pub fn operation_requests(device: &DetectedDevice, operation: ControlOperation, interface_number: u8) -> (requests: Vec<ControlRequest>)
    requires
        operation_refusal(*device, operation) is None,
    ensures
        requests@.len() == operation_writes(device.model, operation, interface_number).len(),
        forall|i: int| 0 <= i < requests@.len() ==> (#[trigger] requests@[i])@ == operation_writes(device.model, operation, interface_number)[i],
{
    let mut requests: Vec<ControlRequest> = Vec::new();
    match operation {
        ControlOperation::SpeakerLevel(raw) => {
            requests.push(speaker_volume(raw, interface_number));
        },
        ControlOperation::HeadphoneLevel(raw) => {
            requests.push(level_write(HEADPHONE_LEFT_CONTROL, HEADPHONE_OUTPUT_ENTITY, interface_number, raw));
            requests.push(level_write(HEADPHONE_RIGHT_CONTROL, HEADPHONE_OUTPUT_ENTITY, interface_number, raw));
        },
        ControlOperation::OutputRoute(route) => {
            if let Ok((capabilities, output)) = validate_route(&device.model, route) {
                proof {
                    assert(capabilities.sources@ == crate::routing::scheme_sources(capabilities.scheme));
                }
                requests.push(route_write(capabilities.scheme, route.source, output.channels[0], interface_number));
                requests.push(route_write(capabilities.scheme, route.source, output.channels[1], interface_number));
            }
        },
        ControlOperation::DigitalOutputMode(mode) => {
            requests.push(digital_output_mode(mode, interface_number));
        },
        ControlOperation::MonitorToggle(toggle, on) => {
            requests.push(monitor_toggle(toggle, on, interface_number));
        },
        ControlOperation::ChannelLevel(channel, raw) => {
            let base = MIXER_MATRIX_SELECTOR_BASE + channel as u16 * MIXER_MATRIX_CELL_STRIDE;
            requests.push(level_write(base, MIXER_MATRIX_ENTITY, interface_number, raw));
            requests.push(level_write(base + 1, MIXER_MATRIX_ENTITY, interface_number, raw));
        },
        ControlOperation::ChannelPolarity(channel, flipped) => {
            requests.push(channel_polarity(channel, flipped, interface_number));
        },
    }
    requests
}

/// The result of a send after the session was closed: the transfer's
/// failure wins (a close failure after it is only logged), otherwise a
/// close failure is reported.
pub open spec fn send_result(send: Result<(), SessionError>, close: Result<(), SessionError>) -> Result<(), Seq<char>> {
    match send {
        Err(error) => Err(error.spec_report()),
        Ok(()) => match close {
            Err(error) => Err(error.spec_report()),
            Ok(()) => Ok(()),
        },
    }
}

/// Combines a send's transfer result and the session close result.
pub fn send_outcome(send: Result<(), SessionError>, close: Result<(), SessionError>) -> (result: Result<(), String>)
    ensures
        match send_result(send, close) {
            Ok(()) => result is Ok,
            Err(text) => result matches Err(message) && message@ == text,
        },
{
    match send {
        Err(error) => Err(error.report()),
        Ok(()) => match close {
            Err(error) => Err(error.report()),
            Ok(()) => Ok(()),
        },
    }
}

/// Which reads one feedback poll issues. Only controls whose reads answer
/// truthfully are ever read; mixer levels, polarity, routing, and headphone
/// level stay write-only.
#[derive(Clone, Copy, Debug, PartialEq, Eq, Structural)]
pub struct FeedbackPlan {
    /// Read the monitor volume node.
    pub speaker: bool,
    /// Read each monitor toggle, in UI order.
    pub toggles: bool,
    /// Read the optical-output mode.
    pub digital_output_mode: bool,
    /// Read the meter block, decoding this many inputs.
    pub meter_inputs: Option<u8>,
}

/// Plans one bounded feedback poll: monitor reads only when asked for, and
/// only for readable controls; meters whenever the model has them.
pub fn feedback_plan(device: &DetectedDevice, read_monitor: bool) -> (plan: FeedbackPlan)
    ensures
        plan.speaker == (read_monitor && device.control_interface is Some),
        plan.toggles == (read_monitor && toggles_supported(*device)),
        plan.digital_output_mode == (read_monitor && device.control_interface is Some
            && model_has_digital_output_mode(device.model)),
        plan.meter_inputs == if mixer_supported(*device) {
            Some(meter_count(device.model))
        } else {
            None::<u8>
        },
{
    FeedbackPlan {
        speaker: read_monitor && speaker_feedback_available(device),
        toggles: read_monitor && toggle_feedback_available(device),
        digital_output_mode: read_monitor && digital_output_mode_available(device),
        meter_inputs: if meter_feedback_available(device) {
            Some(meter_channel_count(&device.model))
        } else {
            None
        },
    }
}

/// Monitor state read back from the device. Every field is optional or
/// partial: a control that is unsupported or did not answer stays unknown,
/// never zero and never the last locally requested value. The speaker level
/// is the bit pattern of a single-precision number in `0.0..=1.0`.
#[derive(Clone, Debug, PartialEq, Eq)]
pub struct MonitorSnapshot {
    pub speaker_level: Option<u32>,
    pub toggles: Vec<(MonitorToggle, bool)>,
    pub digital_output_mode: Option<DigitalOutputMode>,
}

/// The toggle at position `i` of the stable UI order.
pub open spec fn toggle_at(i: int) -> MonitorToggle {
    if i == 0 {
        MonitorToggle::Dim
    } else if i == 1 {
        MonitorToggle::AltSpeaker
    } else if i == 2 {
        MonitorToggle::Talkback
    } else if i == 3 {
        MonitorToggle::Mono
    } else {
        MonitorToggle::SpeakerMute
    }
}

/// The readings of the toggles that answered, in UI order: `reads[i]` is
/// what the toggle at position `i` answered, if it answered at all.
pub open spec fn answered_toggles(reads: Seq<Option<bool>>) -> Seq<(MonitorToggle, bool)>
    decreases reads.len(),
{
    if reads.len() == 0 {
        Seq::empty()
    } else {
        let earlier = answered_toggles(reads.drop_last());
        match reads.last() {
            Some(on) => earlier.push((toggle_at(reads.len() - 1), on)),
            None => earlier,
        }
    }
}

/// Assembles the monitor part of one poll from what the device answered:
/// an unanswered read stays unknown instead of failing the whole snapshot.
pub fn monitor_snapshot(
    speaker_level: Option<u32>,
    toggle_reads: [Option<bool>; 5],
    digital_output_mode: Option<DigitalOutputMode>,
) -> (snapshot: MonitorSnapshot)
    ensures
        snapshot.speaker_level == speaker_level,
        snapshot.toggles@ == answered_toggles(toggle_reads@),
        snapshot.digital_output_mode == digital_output_mode,
{
    let all = MonitorToggle::all();
    let mut toggles: Vec<(MonitorToggle, bool)> = Vec::new();
    let mut i: usize = 0;
    assert(toggle_reads@.take(0) =~= Seq::<Option<bool>>::empty());
    while i < 5
        invariant
            i <= 5,
            toggle_reads@.len() == 5,
            forall|j: int| 0 <= j < 5 ==> (#[trigger] all[j]).spec_index() == j,
            toggles@ == answered_toggles(toggle_reads@.take(i as int)),
        decreases 5 - i,
    {
        assert(toggle_reads@.take(i + 1).drop_last() =~= toggle_reads@.take(i as int));
        assert(toggle_reads@.take(i + 1).last() == toggle_reads@[i as int]);
        assert(all[i as int] == toggle_at(i as int)) by {
            assert(all[i as int].spec_index() == i);
        }
        if let Some(on) = toggle_reads[i] {
            toggles.push((all[i], on));
        }
        i += 1;
    }
    assert(toggle_reads@.take(5) =~= toggle_reads@);
    MonitorSnapshot { speaker_level, toggles, digital_output_mode }
}

/// One bounded feedback poll: monitor state plus meter levels. `meters`
/// holds one level byte per input, or is `None` when meters are unsupported
/// or the block did not arrive whole.
#[derive(Clone, Debug, PartialEq, Eq)]
pub struct FeedbackSnapshot {
    pub monitor: Option<MonitorSnapshot>,
    pub meters: Option<Vec<u8>>,
}

/// The result of a poll after the session was closed: only a close failure
/// fails the poll; unanswered reads were already left out of the snapshot.
pub fn read_outcome(snapshot: FeedbackSnapshot, close: Result<(), SessionError>) -> (result: Result<FeedbackSnapshot, String>)
    ensures
        match close {
            Ok(()) => result == Ok::<FeedbackSnapshot, String>(snapshot),
            Err(error) => result matches Err(message) && message@ == error.spec_report(),
        },
{
    match close {
        Ok(()) => Ok(snapshot),
        Err(error) => Err(error.report()),
    }
}

} // verus!
