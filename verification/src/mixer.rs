//! Input mixer channel strips.
//!
//! Each strip pairs a level control with a polarity control. Channel mute,
//! solo, and stereo linking have no known USB mapping, so nothing is sent
//! for them and no control pretends otherwise.

use vstd::prelude::*;

use crate::device::protocol::MAX_METER_INPUTS;
use crate::device::{DetectedDevice, DeviceModel};
use crate::monitor::{ToggleControl, ToggleControlView, VolumeControl, VolumeControlView, fresh_toggle, fresh_volume};
use crate::routing::{AdatChannel, adat_input_mixer_index};
use crate::text::{decimal_digits, push_decimal};

verus! {

/// Live send state for one input channel strip.
#[derive(Clone, Debug, Default)]
pub struct ChannelStrip {
    /// Fader level: the last requested value, never confirmed device state.
    pub level: VolumeControl,
    /// Polarity invert: the last requested value, never confirmed state.
    pub polarity: ToggleControl,
}

/// One strip's controls, as a mathematical value.
pub struct ChannelView {
    pub level: VolumeControlView,
    pub polarity: ToggleControlView,
}

impl View for ChannelStrip {
    type V = ChannelView;

    open spec fn view(&self) -> ChannelView {
        ChannelView { level: self.level@, polarity: self.polarity@ }
    }
}

impl ChannelStrip {
    /// A strip with nothing requested or sent.
    pub fn new() -> (strip: Self)
        ensures
            strip.level@ == fresh_volume(),
            strip.polarity@ == fresh_toggle(),
    {
        ChannelStrip { level: VolumeControl::new(), polarity: ToggleControl::new() }
    }
}

/// The number of mixer strips of a model: microphones then digital inputs,
/// saturating at 255.
pub open spec fn channel_count(model: DeviceModel) -> u8 {
    if model.mic_inputs + model.digital_inputs > u8::MAX {
        u8::MAX
    } else {
        (model.mic_inputs + model.digital_inputs) as u8
    }
}

/// The number of meter slots of a model: one per strip, at most one block.
pub open spec fn meter_count(model: DeviceModel) -> u8 {
    if channel_count(model) > MAX_METER_INPUTS {
        MAX_METER_INPUTS
    } else {
        channel_count(model)
    }
}

/// How many strips the mixer shows for a model: microphones then digital.
pub fn mixer_channel_count(model: &DeviceModel) -> (count: u8)
    ensures
        count == channel_count(*model),
{
    model.mic_inputs.saturating_add(model.digital_inputs)
}

/// How many input meters one meter block reports for a model.
pub fn meter_channel_count(model: &DeviceModel) -> (count: u8)
    ensures
        count == meter_count(*model),
{
    let channels = mixer_channel_count(model);
    if channels > MAX_METER_INPUTS {
        MAX_METER_INPUTS
    } else {
        channels
    }
}

/// The display name of strip `index`: `Mic n` for microphones, then
/// `ADAT n` for digital inputs that are ADAT channels, else `Digital n`.
pub open spec fn channel_label(model: DeviceModel, index: u8) -> Seq<char> {
    if index < model.mic_inputs {
        "Mic "@ + decimal_digits(index as nat + 1)
    } else {
        let digital = index - model.mic_inputs + 1;
        if 1 <= digital <= 8 && digital <= model.digital_inputs {
            "ADAT "@ + decimal_digits(digital as nat)
        } else {
            "Digital "@ + decimal_digits(digital as nat)
        }
    }
}

/// Display name for a strip: microphones first, then digital inputs.
///
/// `index` is the running channel across both groups, matching the USB
/// channel numbering.
pub fn channel_name(model: &DeviceModel, index: u8) -> (name: String)
    requires
        index >= model.mic_inputs ==> index - model.mic_inputs + 1 <= u8::MAX,
    ensures
        name@ == channel_label(*model, index),
{
    if index < model.mic_inputs {
        let mut name = "Mic ".to_owned();
        push_decimal(&mut name, index as u64 + 1);
        name
    } else {
        let digital = index - model.mic_inputs + 1;
        let is_adat = match AdatChannel::new(digital) {
            Some(adat) => match adat_input_mixer_index(model, adat) {
                Ok(row) => row == index,
                Err(_) => false,
            },
            None => false,
        };
        let mut name = if is_adat {
            "ADAT ".to_owned()
        } else {
            "Digital ".to_owned()
        };
        push_decimal(&mut name, digital as u64);
        name
    }
}

/// Whether the input mixer can be offered: gated to the iD14 MKII
/// (`0x0008`) with a safe control interface, the only model whose strip
/// counts and audibility are verified.
pub open spec fn mixer_supported(device: DetectedDevice) -> bool {
    device.control_interface is Some && device.model.product_id == 0x0008
}

/// Whether the input mixer can be offered for this attachment.
pub fn mixer_available(device: &DetectedDevice) -> (available: bool)
    ensures
        available == mixer_supported(*device),
{
    device.control_interface.is_some() && device.model.product_id == 0x0008
}

/// Whether input meters can be read: strips and meters share one gate.
pub fn meter_feedback_available(device: &DetectedDevice) -> (available: bool)
    ensures
        available == mixer_supported(*device),
{
    mixer_available(device)
}

} // verus!
