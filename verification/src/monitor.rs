//! Honest send state for monitor volumes and toggles.
//!
//! A control tracks what the user last requested, what is being sent, what
//! the device last acknowledged, and what the device reported on readback.
//! Only readback is presented as confirmed device state.
//!
//! Volume levels are slider values in `0.0..=1.0`, carried here as the bit
//! pattern of an IEEE-754 single-precision number. They are request
//! identities: compared exactly, never computed with.

use vstd::prelude::*;

use crate::device::DetectedDevice;

verus! {

/// Bit pattern of `+0.0`.
pub const LEVEL_ZERO: u32 = 0x0000_0000;

/// Bit pattern of `1.0`.
pub const LEVEL_FULL: u32 = 0x3f80_0000;

/// Bit pattern of `-0.0`.
pub const LEVEL_NEGATIVE_ZERO: u32 = 0x8000_0000;

/// Whether `bits` encodes a finite number (its exponent is not all ones).
pub open spec fn is_finite_level(bits: u32) -> bool {
    (bits / 0x80_0000) % 256 != 255
}

/// Whether `bits` encodes a NaN.
pub open spec fn is_nan_level(bits: u32) -> bool {
    !is_finite_level(bits) && bits % 0x80_0000 != 0
}

/// Whether `bits` encodes `+0.0` or `-0.0`.
pub open spec fn is_zero_level(bits: u32) -> bool {
    bits % 0x8000_0000 == 0
}

/// Numeric equality of two encoded numbers: NaN equals nothing, and the
/// two zeros are equal.
pub open spec fn same_level(a: u32, b: u32) -> bool {
    (a == b && !is_nan_level(a)) || (is_zero_level(a) && is_zero_level(b))
}

/// A finite encoded number clamped to `0.0..=1.0`: negative numbers become
/// `+0.0`, numbers above one become `1.0`, and everything else (`-0.0`
/// included) is kept. For non-negative finite numbers the bit patterns are
/// ordered like the numbers.
pub open spec fn clamp_level(bits: u32) -> u32 {
    if bits > LEVEL_NEGATIVE_ZERO {
        LEVEL_ZERO
    } else if bits == LEVEL_NEGATIVE_ZERO {
        bits
    } else if bits > LEVEL_FULL {
        LEVEL_FULL
    } else {
        bits
    }
}

/// Whether `bits` encodes a finite number.
pub fn level_is_finite(bits: u32) -> (finite: bool)
    ensures
        finite == is_finite_level(bits),
{
    (bits / 0x80_0000) % 256 != 255
}

/// Numeric equality of two encoded numbers.
pub fn levels_equal(a: u32, b: u32) -> (equal: bool)
    ensures
        equal == same_level(a, b),
{
    let a_nan = !level_is_finite(a) && a % 0x80_0000 != 0;
    (a == b && !a_nan) || (a % 0x8000_0000 == 0 && b % 0x8000_0000 == 0)
}

/// Clamps a finite encoded number to `0.0..=1.0`.
pub fn clamp_to_unit(bits: u32) -> (clamped: u32)
    ensures
        clamped == clamp_level(bits),
{
    if bits > LEVEL_NEGATIVE_ZERO {
        LEVEL_ZERO
    } else if bits == LEVEL_NEGATIVE_ZERO {
        bits
    } else if bits > LEVEL_FULL {
        LEVEL_FULL
    } else {
        bits
    }
}

/// Whether `level` is the level held in `slot`.
pub open spec fn holds_level(slot: Option<u32>, level: u32) -> bool {
    match slot {
        Some(held) => same_level(held, level),
        None => false,
    }
}

/// The state of one volume control, as a mathematical value.
pub struct VolumeControlView {
    pub position: u32,
    pub in_flight: Option<u32>,
    pub queued: Option<u32>,
    pub last_sent: Option<u32>,
    pub last_error: Option<Seq<char>>,
    pub confirmed: Option<u32>,
}

/// Slider position and send state for one output volume.
///
/// `position` is what the user last requested, or the level the device last
/// reported on readback. Only one send runs at a time; the newest request
/// made while sending waits as the queued level.
#[derive(Clone, Debug, Default)]
pub struct VolumeControl {
    position: u32,
    in_flight: Option<u32>,
    queued: Option<u32>,
    last_sent: Option<u32>,
    last_error: Option<String>,
    confirmed: Option<u32>,
}

impl View for VolumeControl {
    type V = VolumeControlView;

    closed spec fn view(&self) -> VolumeControlView {
        VolumeControlView {
            position: self.position,
            in_flight: self.in_flight,
            queued: self.queued,
            last_sent: self.last_sent,
            last_error: match self.last_error {
                Some(e) => Some(e@),
                None => None,
            },
            confirmed: self.confirmed,
        }
    }
}

/// The honest, nameable state of one volume control.
#[derive(Clone, Debug, PartialEq, Eq)]
pub enum VolumeStatus {
    /// Nothing has been sent or read back; the device level is unknown.
    Unknown,
    /// A send is running, with the newest waiting level when one arrived
    /// while sending.
    Sending { sending: u32, queued: Option<u32> },
    /// The last send failed; the error stays visible until the next request.
    /// `last_sent` is the most recent acknowledged level.
    Failed { error: String, last_sent: Option<u32> },
    /// The device reported this level on readback.
    Confirmed { level: u32 },
    /// The last send was acknowledged; not read back from the device.
    Sent { level: u32 },
}

/// `status` names the state `v`: a send in flight first, then a failure,
/// then a readback, then the last acknowledged level, else unknown.
pub open spec fn volume_status_matches(v: VolumeControlView, status: VolumeStatus) -> bool {
    match status {
        VolumeStatus::Sending { sending, queued } => v.in_flight == Some(sending) && queued
            == v.queued,
        VolumeStatus::Failed { error, last_sent } => {
            &&& v.in_flight is None
            &&& v.last_error == Some(error@)
            &&& last_sent == v.last_sent
        },
        VolumeStatus::Confirmed { level } => {
            &&& v.in_flight is None
            &&& v.last_error is None
            &&& v.confirmed == Some(level)
        },
        VolumeStatus::Sent { level } => {
            &&& v.in_flight is None
            &&& v.last_error is None
            &&& v.confirmed is None
            &&& v.last_sent == Some(level)
        },
        VolumeStatus::Unknown => {
            &&& v.in_flight is None
            &&& v.last_error is None
            &&& v.confirmed is None
            &&& v.last_sent is None
        },
    }
}

/// A volume control with nothing requested, sent, or read back.
pub open spec fn fresh_volume() -> VolumeControlView {
    VolumeControlView {
        position: LEVEL_ZERO,
        in_flight: None,
        queued: None,
        last_sent: None,
        last_error: None,
        confirmed: None,
    }
}

/// A send result as a mathematical value.
pub open spec fn error_view(result: Result<(), String>) -> Result<(), Seq<char>> {
    match result {
        Ok(()) => Ok(()),
        Err(error) => Err(error@),
    }
}

/// Requesting `level`: non-finite levels change nothing; otherwise the
/// clamped level becomes the position and either starts sending (returned)
/// or, behind a send in flight, replaces the queued level.
pub open spec fn volume_request(v: VolumeControlView, level: u32) -> (VolumeControlView, Option<u32>) {
    if !is_finite_level(level) {
        (v, None)
    } else if v.in_flight is Some {
        (
            VolumeControlView {
                position: clamp_level(level),
                queued: Some(clamp_level(level)),
                last_error: None,
                ..v
            },
            None,
        )
    } else {
        (
            VolumeControlView {
                position: clamp_level(level),
                in_flight: Some(clamp_level(level)),
                queued: None,
                last_error: None,
                ..v
            },
            Some(clamp_level(level)),
        )
    }
}

/// Completing a send of `level`: stale completions change nothing; a
/// success becomes the last sent level and supersedes any readback; a
/// failure is kept as the error; the queued level, when it differs from the
/// completed one, starts sending and is returned.
pub open spec fn volume_finish(v: VolumeControlView, level: u32, result: Result<(), Seq<char>>) -> (
    VolumeControlView,
    Option<u32>,
) {
    if !holds_level(v.in_flight, level) {
        (v, None)
    } else {
        let next = match v.queued {
            Some(q) => if same_level(q, level) {
                None
            } else {
                Some(q)
            },
            None => None,
        };
        (
            VolumeControlView {
                position: v.position,
                in_flight: next,
                queued: None,
                last_sent: match result {
                    Ok(()) => Some(level),
                    Err(_) => v.last_sent,
                },
                last_error: match result {
                    Ok(()) => None,
                    Err(error) => Some(error),
                },
                confirmed: match result {
                    Ok(()) => None,
                    Err(_) => v.confirmed,
                },
            },
            next,
        )
    }
}

/// Dropping a pending send keeps everything but the send in flight and the
/// queued level.
pub open spec fn volume_drop_pending(v: VolumeControlView) -> VolumeControlView {
    VolumeControlView { in_flight: None, queued: None, ..v }
}

/// Adopting a read-back level: ignored while a send is in flight;
/// otherwise the position moves to it and it becomes the confirmed level.
/// The flag tells whether the confirmed level changed.
pub open spec fn volume_confirm(v: VolumeControlView, level: u32) -> (VolumeControlView, bool) {
    if v.in_flight is Some {
        (v, false)
    } else {
        (
            VolumeControlView { position: level, confirmed: Some(level), ..v },
            !holds_level(v.confirmed, level),
        )
    }
}

impl VolumeControl {
    /// A control at level zero with nothing requested, sent, or read back.
    pub fn new() -> (control: Self)
        ensures
            control@ == fresh_volume(),
    {
        VolumeControl {
            position: LEVEL_ZERO,
            in_flight: None,
            queued: None,
            last_sent: None,
            last_error: None,
            confirmed: None,
        }
    }

    /// The slider position: the last requested or read-back level.
    pub fn position(&self) -> (level: u32)
        ensures
            level == self@.position,
    {
        self.position
    }

    /// Names the current honest state of this control.
    pub fn status(&self) -> (status: VolumeStatus)
        ensures
            volume_status_matches(self@, status),
    {
        match (self.in_flight, &self.last_error, self.confirmed, self.last_sent) {
            (Some(sending), _, _, _) => VolumeStatus::Sending { sending, queued: self.queued },
            (None, Some(error), _, _) => VolumeStatus::Failed {
                error: error.clone(),
                last_sent: self.last_sent,
            },
            (None, None, Some(level), _) => VolumeStatus::Confirmed { level },
            (None, None, None, Some(level)) => VolumeStatus::Sent { level },
            (None, None, None, None) => VolumeStatus::Unknown,
        }
    }

    /// Records a user-requested level.
    ///
    /// Non-finite levels are ignored without touching state. Otherwise the
    /// level is clamped to `0.0..=1.0` and becomes the slider position; it is
    /// returned to send now, or, while another send is in flight, it
    /// replaces the queued level and `None` is returned.
    pub fn request(&mut self, level: u32) -> (send: Option<u32>)
        ensures
            (final(self)@, send) == volume_request(old(self)@, level),
    {
        if !level_is_finite(level) {
            return None;
        }
        let level = clamp_to_unit(level);
        self.position = level;
        self.last_error = None;
        if self.in_flight.is_some() {
            self.queued = Some(level);
            return None;
        }
        self.in_flight = Some(level);
        self.queued = None;
        Some(level)
    }

    /// Whether a completion for `level` belongs to the current send.
    pub fn is_in_flight(&self, level: u32) -> (current: bool)
        ensures
            current == holds_level(self@.in_flight, level),
    {
        match self.in_flight {
            Some(sending) => levels_equal(sending, level),
            None => false,
        }
    }

    /// Records a background send result.
    ///
    /// Stale completions (for anything but the in-flight level) leave the
    /// state untouched and return `None`. Otherwise a success becomes the
    /// last sent level and supersedes any readback, a failure is kept as the
    /// error, and the queued level — when it differs from the completed one —
    /// starts sending and is returned.
    pub fn finish(&mut self, level: u32, result: Result<(), String>) -> (next: Option<u32>)
        ensures
            (final(self)@, next) == volume_finish(old(self)@, level, error_view(result)),
    {
        if !self.is_in_flight(level) {
            return None;
        }
        match result {
            Ok(()) => {
                self.last_sent = Some(level);
                self.last_error = None;
                self.confirmed = None;
            },
            Err(error) => {
                self.last_error = Some(error);
            },
        }
        let next = match self.queued {
            Some(queued) => if levels_equal(queued, level) {
                None
            } else {
                Some(queued)
            },
            None => None,
        };
        self.queued = None;
        self.in_flight = next;
        next
    }

    /// Drops a pending send without touching the last acknowledged state.
    pub fn drop_pending(&mut self)
        ensures
            final(self)@ == volume_drop_pending(old(self)@),
    {
        self.in_flight = None;
        self.queued = None;
    }

    /// Adopts a level the device reported on readback.
    ///
    /// While a send is in flight the local operation wins and the readback
    /// is ignored. Otherwise the slider moves to the reported level, which
    /// becomes the confirmed level. Returns whether the confirmed level
    /// changed.
    pub fn apply_confirmed(&mut self, level: u32) -> (changed: bool)
        ensures
            (final(self)@, changed) == volume_confirm(old(self)@, level),
    {
        if self.in_flight.is_some() {
            return false;
        }
        let changed = match self.confirmed {
            Some(confirmed) => !levels_equal(confirmed, level),
            None => true,
        };
        self.position = level;
        self.confirmed = Some(level);
        changed
    }
}

/// The status line of a volume control in state `status`. `level` is the
/// displayed whole percentage of the status's level (the one sending, read
/// back, or last sent) and `latest` that of the queued request.
pub open spec fn volume_status_line(status: VolumeStatus, level: Seq<char>, latest: Seq<char>) -> Seq<char> {
    match status {
        VolumeStatus::Sending { sending, queued } => match queued {
            Some(requested) => if !same_level(requested, sending) {
                "Sending "@ + level + "%… (latest request "@ + latest + "%)"@
            } else {
                "Sending "@ + level + "%…"@
            },
            None => "Sending "@ + level + "%…"@,
        },
        VolumeStatus::Failed { error, .. } => "Send failed: "@ + error@ + " Move the slider to retry."@,
        VolumeStatus::Confirmed { .. } => "Hardware reports "@ + level + "% — follows the device."@,
        VolumeStatus::Sent { .. } => "Last sent "@ + level + "% — not read back from the device."@,
        VolumeStatus::Unknown => "No value read from the device — moving the slider sends a new level."@,
    }
}

/// Describes a volume control's state without implying confirmed device
/// state. The caller renders the percentages: `level` for the level the
/// status names (sending, read back, or last sent) and `latest` for the
/// queued request of a send in flight.
pub fn volume_status_text(status: &VolumeStatus, level: &str, latest: &str) -> (text: String)
    ensures
        text@ == volume_status_line(*status, level@, latest@),
{
    match status {
        VolumeStatus::Sending { sending, queued } => {
            let mut text = "Sending ".to_owned();
            text.append(level);
            match queued {
                Some(requested) => if !levels_equal(*requested, *sending) {
                    text.append("%… (latest request ");
                    text.append(latest);
                    text.append("%)");
                } else {
                    text.append("%…");
                },
                None => {
                    text.append("%…");
                },
            }
            text
        },
        VolumeStatus::Failed { error, .. } => {
            let mut text = "Send failed: ".to_owned();
            text.append(error.as_str());
            text.append(" Move the slider to retry.");
            text
        },
        VolumeStatus::Confirmed { .. } => {
            let mut text = "Hardware reports ".to_owned();
            text.append(level);
            text.append("% — follows the device.");
            text
        },
        VolumeStatus::Sent { .. } => {
            let mut text = "Last sent ".to_owned();
            text.append(level);
            text.append("% — not read back from the device.");
            text
        },
        VolumeStatus::Unknown => "No value read from the device — moving the slider sends a new level.".to_owned(),
    }
}

/// Whether the monitor volume controls can be offered: every cataloged
/// model exposes them through the safe control interface.
pub fn monitor_controls_available(device: &DetectedDevice) -> (available: bool)
    ensures
        available == device.control_interface is Some,
{
    device.control_interface.is_some()
}

/// Whether the monitor toggles can be offered: gated to the iD14 MKII
/// (`0x0008`) with a safe control interface, the only layout verified.
pub open spec fn toggles_supported(device: DetectedDevice) -> bool {
    device.control_interface is Some && device.model.product_id == 0x0008
}

/// Whether the monitor toggles can be offered for this attachment.
pub fn monitor_toggles_available(device: &DetectedDevice) -> (available: bool)
    ensures
        available == toggles_supported(*device),
{
    device.control_interface.is_some() && device.model.product_id == 0x0008
}

/// Whether the speaker level can be read back: the monitor volume node
/// answers reads on every model with a safe control interface.
pub fn speaker_feedback_available(device: &DetectedDevice) -> (available: bool)
    ensures
        available == device.control_interface is Some,
{
    device.control_interface.is_some()
}

/// Whether the monitor toggles can be read back: exactly where they can be
/// offered.
pub fn toggle_feedback_available(device: &DetectedDevice) -> (available: bool)
    ensures
        available == toggles_supported(*device),
{
    monitor_toggles_available(device)
}

/// The state of one toggle control, as a mathematical value.
pub struct ToggleControlView {
    pub position: bool,
    pub in_flight: Option<bool>,
    pub last_sent: Option<bool>,
    pub last_error: Option<Seq<char>>,
    pub confirmed: Option<bool>,
}

/// Send state for one on/off control (monitor toggles, polarity, optical
/// format). `position` is the last requested or read-back value.
#[derive(Clone, Debug, Default)]
pub struct ToggleControl {
    position: bool,
    in_flight: Option<bool>,
    last_sent: Option<bool>,
    last_error: Option<String>,
    confirmed: Option<bool>,
}

impl View for ToggleControl {
    type V = ToggleControlView;

    closed spec fn view(&self) -> ToggleControlView {
        ToggleControlView {
            position: self.position,
            in_flight: self.in_flight,
            last_sent: self.last_sent,
            last_error: match self.last_error {
                Some(e) => Some(e@),
                None => None,
            },
            confirmed: self.confirmed,
        }
    }
}

/// The honest, nameable state of one toggle.
#[derive(Clone, Debug, PartialEq, Eq)]
pub enum ToggleStatus {
    /// Nothing has been sent or read back; the device state is unknown.
    Unknown,
    /// A send is running.
    Sending { sending: bool },
    /// The last send failed; the error stays visible until the next request.
    Failed { error: String, last_sent: Option<bool> },
    /// The device reported this value on readback.
    Confirmed { on: bool },
    /// The last send was acknowledged; not read back from the device.
    Sent { on: bool },
}

/// `status` names the state `v`, with the same precedence as volumes.
pub open spec fn toggle_status_matches(v: ToggleControlView, status: ToggleStatus) -> bool {
    match status {
        ToggleStatus::Sending { sending } => v.in_flight == Some(sending),
        ToggleStatus::Failed { error, last_sent } => {
            &&& v.in_flight is None
            &&& v.last_error == Some(error@)
            &&& last_sent == v.last_sent
        },
        ToggleStatus::Confirmed { on } => {
            &&& v.in_flight is None
            &&& v.last_error is None
            &&& v.confirmed == Some(on)
        },
        ToggleStatus::Sent { on } => {
            &&& v.in_flight is None
            &&& v.last_error is None
            &&& v.confirmed is None
            &&& v.last_sent == Some(on)
        },
        ToggleStatus::Unknown => {
            &&& v.in_flight is None
            &&& v.last_error is None
            &&& v.confirmed is None
            &&& v.last_sent is None
        },
    }
}

/// `"on"` or `"off"`.
pub open spec fn on_off(on: bool) -> Seq<char> {
    if on {
        "on"@
    } else {
        "off"@
    }
}

/// The status line shown for toggle state `v`.
pub open spec fn toggle_status_text(v: ToggleControlView) -> Seq<char> {
    match v.in_flight {
        Some(sending) => "Sending "@ + on_off(sending) + "…"@,
        None => match v.last_error {
            Some(error) => "Send failed: "@ + error + " Press again to retry."@,
            None => match v.confirmed {
                Some(on) => "Hardware reports "@ + on_off(on) + " — follows the device."@,
                None => match v.last_sent {
                    Some(on) => "Last sent "@ + on_off(on) + " — not read back from the device."@,
                    None => "No value read from the device — pressing sends a new value."@,
                },
            },
        },
    }
}

/// A toggle control with nothing requested, sent, or read back.
pub open spec fn fresh_toggle() -> ToggleControlView {
    ToggleControlView {
        position: false,
        in_flight: None,
        last_sent: None,
        last_error: None,
        confirmed: None,
    }
}

fn on_off_text(on: bool) -> (text: &'static str)
    ensures
        text@ == on_off(on),
{
    if on {
        "on"
    } else {
        "off"
    }
}

/// Requesting `on`: the position always follows; the value starts sending
/// (and is returned) unless a send is already in flight.
pub open spec fn toggle_request(v: ToggleControlView, on: bool) -> (ToggleControlView, Option<bool>) {
    if v.in_flight is Some {
        (ToggleControlView { position: on, last_error: None, ..v }, None)
    } else {
        (ToggleControlView { position: on, in_flight: Some(on), last_error: None, ..v }, Some(on))
    }
}

/// Completing a send of `on`: stale completions change nothing; a success
/// becomes the last sent value and supersedes any readback; a failure is
/// kept as the error. The flag tells whether the completion was adopted.
pub open spec fn toggle_finish(v: ToggleControlView, on: bool, result: Result<(), Seq<char>>) -> (
    ToggleControlView,
    bool,
) {
    if v.in_flight != Some(on) {
        (v, false)
    } else {
        (
            ToggleControlView {
                position: v.position,
                in_flight: None,
                last_sent: match result {
                    Ok(()) => Some(on),
                    Err(_) => v.last_sent,
                },
                last_error: match result {
                    Ok(()) => None,
                    Err(error) => Some(error),
                },
                confirmed: match result {
                    Ok(()) => None,
                    Err(_) => v.confirmed,
                },
            },
            true,
        )
    }
}

/// Adopting a read-back value: ignored while a send is in flight;
/// otherwise the position follows it and it becomes the confirmed value.
pub open spec fn toggle_confirm(v: ToggleControlView, on: bool) -> (ToggleControlView, bool) {
    if v.in_flight is Some {
        (v, false)
    } else {
        (ToggleControlView { position: on, confirmed: Some(on), ..v }, v.confirmed != Some(on))
    }
}

impl ToggleControl {
    /// An off control with nothing requested, sent, or read back.
    pub fn new() -> (control: Self)
        ensures
            control@ == fresh_toggle(),
    {
        ToggleControl {
            position: false,
            in_flight: None,
            last_sent: None,
            last_error: None,
            confirmed: None,
        }
    }

    /// The last requested or read-back value.
    pub fn position(&self) -> (on: bool)
        ensures
            on == self@.position,
    {
        self.position
    }

    /// Names the current honest state of this control.
    pub fn status(&self) -> (status: ToggleStatus)
        ensures
            toggle_status_matches(self@, status),
    {
        match (self.in_flight, &self.last_error, self.confirmed, self.last_sent) {
            (Some(sending), _, _, _) => ToggleStatus::Sending { sending },
            (None, Some(error), _, _) => ToggleStatus::Failed {
                error: error.clone(),
                last_sent: self.last_sent,
            },
            (None, None, Some(on), _) => ToggleStatus::Confirmed { on },
            (None, None, None, Some(on)) => ToggleStatus::Sent { on },
            (None, None, None, None) => ToggleStatus::Unknown,
        }
    }

    /// Describes the current state without implying confirmed device state
    /// it does not have.
    pub fn status_text(&self) -> (text: String)
        ensures
            text@ == toggle_status_text(self@),
    {
        match (self.in_flight, &self.last_error, self.confirmed, self.last_sent) {
            (Some(sending), _, _, _) => {
                let mut text = "Sending ".to_owned();
                text.append(on_off_text(sending));
                text.append("…");
                text
            },
            (None, Some(error), _, _) => {
                let mut text = "Send failed: ".to_owned();
                text.append(error.as_str());
                text.append(" Press again to retry.");
                text
            },
            (None, None, Some(on), _) => {
                let mut text = "Hardware reports ".to_owned();
                text.append(on_off_text(on));
                text.append(" — follows the device.");
                text
            },
            (None, None, None, Some(on)) => {
                let mut text = "Last sent ".to_owned();
                text.append(on_off_text(on));
                text.append(" — not read back from the device.");
                text
            },
            (None, None, None, None) => "No value read from the device — pressing sends a new value.".to_owned(),
        }
    }

    /// Records a user-requested value. Returns it to send now, or `None`
    /// when a send is already in flight (the request only moves the
    /// position).
    pub fn request(&mut self, on: bool) -> (send: Option<bool>)
        ensures
            (final(self)@, send) == toggle_request(old(self)@, on),
    {
        self.position = on;
        self.last_error = None;
        if self.in_flight.is_some() {
            return None;
        }
        self.in_flight = Some(on);
        Some(on)
    }

    /// Whether a completion for `on` belongs to the current send.
    pub fn is_in_flight(&self, on: bool) -> (current: bool)
        ensures
            current == (self@.in_flight == Some(on)),
    {
        match self.in_flight {
            Some(sending) => sending == on,
            None => false,
        }
    }

    /// Records a background send result. Stale completions leave the state
    /// untouched and return `false`.
    pub fn finish(&mut self, on: bool, result: Result<(), String>) -> (adopted: bool)
        ensures
            (final(self)@, adopted) == toggle_finish(old(self)@, on, error_view(result)),
    {
        if !self.is_in_flight(on) {
            return false;
        }
        match result {
            Ok(()) => {
                self.last_sent = Some(on);
                self.last_error = None;
                self.confirmed = None;
            },
            Err(error) => {
                self.last_error = Some(error);
            },
        }
        self.in_flight = None;
        true
    }

    /// Adopts a value the device reported on readback. Ignored while a send
    /// is in flight; otherwise the position follows the device. Returns
    /// whether the confirmed value changed.
    pub fn apply_confirmed(&mut self, on: bool) -> (changed: bool)
        ensures
            (final(self)@, changed) == toggle_confirm(old(self)@, on),
    {
        if self.in_flight.is_some() {
            return false;
        }
        let changed = match self.confirmed {
            Some(confirmed) => confirmed != on,
            None => true,
        };
        self.position = on;
        self.confirmed = Some(on);
        changed
    }
}

} // verus!
