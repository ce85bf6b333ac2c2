//! The application's decisions: from the current state and one event to
//! the next state and the background work to start.
//!
//! The application shell performs each [`Command`] (a USB scan, a feedback
//! poll on a short-lived session, or one control send) and hands its
//! completion back as a [`Message`]. Every completion carries the identity
//! of what it started, so a completion that no longer matches the current
//! state is ignored.

use vstd::prelude::*;

use crate::device::control::{FeedbackSnapshot, MonitorSnapshot};
use crate::device::discovery::{DetectedDevice, DeviceLocation, DiscoveryReport};
use crate::device::error::DiscoveryError;
use crate::device::protocol::MonitorToggle;
use crate::device::watch::DeviceWatchEvent;
use crate::mixer::{
    ChannelStrip, ChannelView, channel_count, meter_feedback_available, mixer_channel_count,
    mixer_supported,
};
use crate::monitor::{
    ToggleControl, ToggleControlView, VolumeControl, VolumeControlView, fresh_toggle,
    fresh_volume, holds_level, speaker_feedback_available, toggle_confirm, toggle_feedback_available,
    toggle_finish, toggle_request, volume_confirm, volume_drop_pending,
    volume_finish, volume_request,
};
use crate::routing::{
    DigitalOutputMode, OutputRouteControl, OutputRouteView, Route, RouteStatus, RoutingDestination,
    default_route, digital_output_mode_available, fresh_route, model_has_digital_output_mode,
    reset_route, route_controls, route_finish, route_request, scheme_outputs,
};

verus! {

/// Meter polls run at 10 Hz: the slowest rate that still reads as motion.
pub const METER_CADENCE_MS: u64 = 100;

/// Monitor state is refreshed about once a second.
pub const MONITOR_CADENCE_MS: u64 = 1_000;

/// What the discovery side of the application currently shows.
#[derive(Clone, Debug, PartialEq, Eq)]
pub enum DeviceStatus {
    Scanning,
    Ready(DiscoveryReport),
    Unsupported(DiscoveryReport),
    Empty,
    Failed(DiscoveryError),
}

/// Whether automatic USB change detection is running.
#[derive(Clone, Copy, Debug, PartialEq, Eq, Structural)]
pub enum WatchStatus {
    Starting,
    Active,
    Failed,
}

/// What one attachment reports back. The single decision point shared by
/// the poll cadence and the header honesty line.
#[derive(Clone, Copy, Debug, PartialEq, Eq, Structural)]
pub enum FeedbackKind {
    MetersAndMonitor,
    MonitorOnly,
    WriteOnly,
}

/// Background work the application shell performs for the state machine.
#[derive(Clone, Debug, PartialEq, Eq)]
pub enum Command {
    /// Scan USB descriptors; completes with `DiscoveryFinished`.
    Scan,
    /// Poll readable state and meters on one short-lived session;
    /// completes with `FeedbackFinished`.
    ReadFeedback { device: DetectedDevice, read_monitor: bool },
    /// Send a speaker level; completes with `SpeakerVolumeFinished`.
    SendSpeakerLevel { device: DetectedDevice, level: u32 },
    /// Send a headphone level to both channels; completes with
    /// `HeadphoneVolumeFinished`.
    SendHeadphoneLevel { device: DetectedDevice, level: u32 },
    /// Send an output route; completes with `RoutingFinished`.
    SendRoute { device: DetectedDevice, route: Route },
    /// Send the optical format; completes with `DigitalOutputModeFinished`.
    SendDigitalOutputMode { device: DetectedDevice, mode: DigitalOutputMode },
    /// Send a monitor toggle; completes with `MonitorToggleFinished`.
    SendMonitorToggle { device: DetectedDevice, toggle: MonitorToggle, on: bool },
    /// Send an input level; completes with `ChannelLevelFinished`.
    SendChannelLevel { device: DetectedDevice, channel: u8, level: u32 },
    /// Send an input polarity; completes with `ChannelPolarityFinished`.
    SendChannelPolarity { device: DetectedDevice, channel: u8, flipped: bool },
}

/// Outcome of one speaker-volume send, with the level it attempted.
#[derive(Clone, Debug, PartialEq, Eq)]
pub struct SpeakerVolumeOutcome {
    pub level: u32,
    /// `None` when the device acknowledged the send, else the failure.
    pub error: Option<String>,
}

/// Outcome of one headphone-volume send, with the level it attempted.
#[derive(Clone, Debug, PartialEq, Eq)]
pub struct HeadphoneVolumeOutcome {
    pub level: u32,
    /// `None` when the device acknowledged the send, else the failure.
    pub error: Option<String>,
}

/// Outcome of one monitor-toggle send, with the value it attempted.
#[derive(Clone, Debug, PartialEq, Eq)]
pub struct MonitorToggleOutcome {
    pub toggle: MonitorToggle,
    pub on: bool,
    /// `None` when the device acknowledged the send, else the failure.
    pub error: Option<String>,
}

/// Outcome of one channel-level send, with the channel and level.
#[derive(Clone, Debug, PartialEq, Eq)]
pub struct ChannelLevelOutcome {
    pub channel: u8,
    pub level: u32,
    /// `None` when the device acknowledged the send, else the failure.
    pub error: Option<String>,
}

/// Outcome of one channel-polarity send, with the channel and value.
#[derive(Clone, Debug, PartialEq, Eq)]
pub struct ChannelPolarityOutcome {
    pub channel: u8,
    pub flipped: bool,
    /// `None` when the device acknowledged the send, else the failure.
    pub error: Option<String>,
}

/// Outcome of one routing send; the whole route is its identity.
#[derive(Clone, Debug, PartialEq, Eq)]
pub struct RoutingOutcome {
    pub route: Route,
    /// `None` when the device acknowledged the send, else the failure.
    pub error: Option<String>,
}

/// Outcome of one optical-format send.
#[derive(Clone, Debug, PartialEq, Eq)]
pub struct DigitalOutputModeOutcome {
    pub mode: DigitalOutputMode,
    /// `None` when the device acknowledged the send, else the failure.
    pub error: Option<String>,
}

/// What one feedback poll produced.
#[derive(Clone, Debug, PartialEq, Eq)]
pub enum FeedbackResult {
    /// The session opened and closed; unanswered reads are left out.
    Read(FeedbackSnapshot),
    /// The session could not be opened or closed.
    Failed(String),
}

/// Outcome of one feedback poll, with the attachment it read.
#[derive(Clone, Debug, PartialEq, Eq)]
pub struct FeedbackOutcome {
    pub location: DeviceLocation,
    pub read_monitor: bool,
    pub result: FeedbackResult,
}

/// What one USB scan produced.
#[derive(Clone, Debug, PartialEq, Eq)]
pub enum ScanResult {
    /// The Audient interfaces visible on the bus.
    Found(DiscoveryReport),
    /// USB devices could not be listed.
    Failed(DiscoveryError),
}

/// A send's error slot as a send result.
pub open spec fn send_result_of(error: Option<String>) -> Result<(), Seq<char>> {
    match error {
        None => Ok(()),
        Some(e) => Err(e@),
    }
}

/// Everything that can happen to the application.
#[derive(Clone, Debug, PartialEq, Eq)]
pub enum Message {
    Refresh,
    DeviceSelected(DeviceLocation),
    DeviceWatch(DeviceWatchEvent),
    DiscoveryFinished(ScanResult),
    SpeakerVolumeChanged(u32),
    SpeakerVolumeFinished(SpeakerVolumeOutcome),
    HeadphoneVolumeChanged(u32),
    HeadphoneVolumeFinished(HeadphoneVolumeOutcome),
    RouteSelected(Route),
    RouteReset(RoutingDestination),
    RoutingFinished(RoutingOutcome),
    DigitalOutputModeSelected(DigitalOutputMode),
    DigitalOutputModeFinished(DigitalOutputModeOutcome),
    MonitorToggleChanged { toggle: MonitorToggle, on: bool },
    MonitorToggleFinished(MonitorToggleOutcome),
    ChannelLevelChanged { channel: u8, level: u32 },
    ChannelLevelFinished(ChannelLevelOutcome),
    ChannelPolarityChanged { channel: u8, flipped: bool },
    ChannelPolarityFinished(ChannelPolarityOutcome),
    FeedbackTick,
    FeedbackFinished(FeedbackOutcome),
}

/// The application state, as a mathematical value.
pub struct AppView {
    pub status: DeviceStatus,
    pub selected: Option<DeviceLocation>,
    pub scan_in_flight: bool,
    pub rescan_requested: bool,
    pub watch_status: WatchStatus,
    pub speaker: VolumeControlView,
    pub headphone: VolumeControlView,
    pub routes: Seq<OutputRouteView>,
    pub digital_output_mode: ToggleControlView,
    pub toggles: Seq<ToggleControlView>,
    pub channels: Seq<ChannelView>,
    pub meters: Seq<Option<u8>>,
    pub feedback_in_flight: bool,
    pub feedback_tick: u64,
    pub feedback_notice: Option<Seq<char>>,
}

/// The application state.
pub struct App {
    pub status: DeviceStatus,
    /// The explicitly picked attachment, if any.
    pub selected: Option<DeviceLocation>,
    pub scan_in_flight: bool,
    pub rescan_requested: bool,
    pub watch_status: WatchStatus,
    pub speaker: VolumeControl,
    /// Headphone level: write-only, never confirmed by readback.
    pub headphone: VolumeControl,
    pub routes: Vec<OutputRouteControl>,
    pub digital_output_mode: ToggleControl,
    /// One control per monitor toggle, in [`MonitorToggle::all`] order.
    pub toggles: Vec<ToggleControl>,
    pub channels: Vec<ChannelStrip>,
    /// One level byte per input while meters are live, `None` per input
    /// while the level is unknown. Unknown is never shown as zero.
    pub meters: Vec<Option<u8>>,
    /// Whether a feedback poll currently owns a device session.
    pub feedback_in_flight: bool,
    /// Counts feedback ticks to fold the monitor refresh into the meter
    /// cadence.
    pub feedback_tick: u64,
    /// The last feedback failure, shown until a poll succeeds or the device
    /// set changes.
    pub feedback_notice: Option<String>,
}

/// The views of route controls.
pub open spec fn route_views(routes: Seq<OutputRouteControl>) -> Seq<OutputRouteView> {
    routes.map_values(|r: OutputRouteControl| r@)
}

/// The views of toggle controls.
pub open spec fn toggle_views(toggles: Seq<ToggleControl>) -> Seq<ToggleControlView> {
    toggles.map_values(|t: ToggleControl| t@)
}

/// The views of channel strips.
pub open spec fn channel_views(channels: Seq<ChannelStrip>) -> Seq<ChannelView> {
    channels.map_values(|c: ChannelStrip| c@)
}

impl View for App {
    type V = AppView;

    open spec fn view(&self) -> AppView {
        AppView {
            status: self.status,
            selected: self.selected,
            scan_in_flight: self.scan_in_flight,
            rescan_requested: self.rescan_requested,
            watch_status: self.watch_status,
            speaker: self.speaker@,
            headphone: self.headphone@,
            routes: route_views(self.routes@),
            digital_output_mode: self.digital_output_mode@,
            toggles: toggle_views(self.toggles@),
            channels: channel_views(self.channels@),
            meters: self.meters@,
            feedback_in_flight: self.feedback_in_flight,
            feedback_tick: self.feedback_tick,
            feedback_notice: match self.feedback_notice {
                Some(n) => Some(n@),
                None => None,
            },
        }
    }
}

/// A well-formed state keeps one control per monitor toggle.
pub open spec fn well_formed(v: AppView) -> bool {
    v.toggles.len() == 5
}

/// Five fresh monitor toggles.
pub open spec fn fresh_toggles() -> Seq<ToggleControlView> {
    Seq::new(5, |i: int| fresh_toggle())
}

/// The state the application starts in: scanning, with nothing known.
pub open spec fn initial_view() -> AppView {
    AppView {
        status: DeviceStatus::Scanning,
        selected: None,
        scan_in_flight: false,
        rescan_requested: false,
        watch_status: WatchStatus::Starting,
        speaker: fresh_volume(),
        headphone: fresh_volume(),
        routes: Seq::empty(),
        digital_output_mode: fresh_toggle(),
        toggles: fresh_toggles(),
        channels: Seq::empty(),
        meters: Seq::empty(),
        feedback_in_flight: false,
        feedback_tick: 0,
        feedback_notice: None,
    }
}

/// The first device of `devices` at bus position `wanted`.
pub open spec fn located(devices: Seq<DetectedDevice>, wanted: DeviceLocation) -> Option<DetectedDevice>
    decreases devices.len(),
{
    if devices.len() == 0 {
        None
    } else if devices[0].location.spec_key() == wanted.spec_key() {
        Some(devices[0])
    } else {
        located(devices.drop_first(), wanted)
    }
}

/// The attachment controls act on: the explicitly picked one while it is
/// still present, else the first supported one; nothing unless the scan
/// found supported devices.
pub open spec fn selected_of(status: DeviceStatus, selected: Option<DeviceLocation>) -> Option<DetectedDevice> {
    match status {
        DeviceStatus::Ready(report) => {
            let picked = match selected {
                Some(wanted) => located(report.supported@, wanted),
                None => None,
            };
            match picked {
                Some(device) => Some(device),
                None => if report.supported@.len() > 0 {
                    Some(report.supported@[0])
                } else {
                    None
                },
            }
        },
        _ => None,
    }
}

/// The attachment controls act on in state `v`.
pub open spec fn selected_in(v: AppView) -> Option<DetectedDevice> {
    selected_of(v.status, v.selected)
}

/// What an attachment reports back: nothing without a safe control
/// interface; meters and monitor state where the mixer is verified;
/// otherwise monitor state (the monitor volume node always answers).
pub open spec fn feedback_kind_of(device: DetectedDevice) -> FeedbackKind {
    if device.control_interface is None {
        FeedbackKind::WriteOnly
    } else if mixer_supported(device) {
        FeedbackKind::MetersAndMonitor
    } else {
        FeedbackKind::MonitorOnly
    }
}

/// How often an attachment of `kind` may be polled, in milliseconds.
pub open spec fn kind_cadence(kind: FeedbackKind) -> Option<u64> {
    match kind {
        FeedbackKind::MetersAndMonitor => Some(METER_CADENCE_MS),
        FeedbackKind::MonitorOnly => Some(MONITOR_CADENCE_MS),
        FeedbackKind::WriteOnly => None,
    }
}

/// The poll cadence of state `v`, or `None` when nothing may be polled.
pub open spec fn cadence_in(v: AppView) -> Option<u64> {
    match selected_in(v) {
        Some(device) => kind_cadence(feedback_kind_of(device)),
        None => None,
    }
}

/// Whether tick `tick` of a `cadence_ms` timer also refreshes monitor
/// state: once per monitor period, and on every tick of a slower timer.
pub open spec fn monitor_due_at(tick: u64, cadence_ms: u64) -> bool {
    let cadence: int = if cadence_ms == 0 { 1 } else { cadence_ms as int };
    let every: int = if (MONITOR_CADENCE_MS as int) / cadence == 0 { 1 } else { (MONITOR_CADENCE_MS as int) / cadence };
    (tick as int) % every == 0
}

/// Fresh route controls for the attachment's routable outputs.
pub open spec fn fresh_routes_of(device: Option<DetectedDevice>) -> Seq<OutputRouteView> {
    match device {
        Some(d) => match d.model.routing {
            Some(scheme) => Seq::new(
                scheme_outputs(scheme).len(),
                |i: int| OutputRouteView { destination: scheme_outputs(scheme)[i].destination, control: fresh_route() },
            ),
            None => Seq::empty(),
        },
        None => Seq::empty(),
    }
}

/// Fresh strips, one per input of the attachment.
pub open spec fn fresh_channels_of(device: Option<DetectedDevice>) -> Seq<ChannelView> {
    match device {
        Some(d) => Seq::new(
            channel_count(d.model) as nat,
            |i: int| ChannelView { level: fresh_volume(), polarity: fresh_toggle() },
        ),
        None => Seq::empty(),
    }
}

/// Unknown meter slots, one per mixer input of the attachment.
pub open spec fn fresh_meters_of(device: Option<DetectedDevice>) -> Seq<Option<u8>> {
    match device {
        Some(d) => Seq::new(channel_count(d.model) as nat, |i: int| None),
        None => Seq::empty(),
    }
}

/// Every meter slot of `meters` back to unknown.
pub open spec fn blank_meters(meters: Seq<Option<u8>>) -> Seq<Option<u8>> {
    Seq::new(meters.len(), |i: int| None)
}

/// Requesting a scan: coalesced into one follow-up while a scan runs.
pub open spec fn request_scan_step(v: AppView) -> (AppView, Seq<Command>) {
    if v.scan_in_flight {
        (AppView { rescan_requested: true, ..v }, Seq::empty())
    } else {
        (AppView { scan_in_flight: true, status: DeviceStatus::Scanning, ..v }, seq![Command::Scan])
    }
}

/// A scan completed: start the coalesced follow-up scan, if any.
pub open spec fn finish_scan_step(v: AppView) -> (AppView, Seq<Command>) {
    let done = AppView { scan_in_flight: false, rescan_requested: false, ..v };
    if v.rescan_requested {
        request_scan_step(done)
    } else {
        (done, Seq::empty())
    }
}

/// One immediate feedback poll of the selected attachment, when it has
/// readable state.
pub open spec fn refresh_step(v: AppView, read_monitor: bool) -> (AppView, Seq<Command>) {
    match selected_in(v) {
        Some(device) => if cadence_in(v) is Some {
            (
                AppView { feedback_in_flight: true, ..v },
                seq![Command::ReadFeedback { device, read_monitor }],
            )
        } else {
            (v, Seq::empty())
        },
        None => (v, Seq::empty()),
    }
}

/// Drops per-device state for a new or rescanned selection: every control
/// and meter starts unknown, then the scan completes and one refresh starts.
pub open spec fn adopt_selection_step(v: AppView) -> (AppView, Seq<Command>) {
    let device = selected_in(v);
    let reset = AppView {
        speaker: fresh_volume(),
        headphone: fresh_volume(),
        toggles: fresh_toggles(),
        routes: fresh_routes_of(device),
        digital_output_mode: fresh_toggle(),
        channels: fresh_channels_of(device),
        meters: fresh_meters_of(device),
        feedback_notice: None,
        feedback_in_flight: false,
        feedback_tick: 0,
        ..v
    };
    let (scanned, scan) = finish_scan_step(reset);
    let (refreshed, refresh) = refresh_step(scanned, true);
    (refreshed, scan + refresh)
}

/// Forgets the attachment and all per-device state.
pub open spec fn clear_device(v: AppView) -> AppView {
    AppView {
        selected: None,
        speaker: fresh_volume(),
        headphone: fresh_volume(),
        toggles: fresh_toggles(),
        routes: Seq::empty(),
        digital_output_mode: fresh_toggle(),
        channels: Seq::empty(),
        meters: Seq::empty(),
        feedback_notice: None,
        feedback_in_flight: false,
        ..v
    }
}

/// A scan completed: supported devices are adopted (keeping the explicit
/// pick while it is still present); otherwise everything per-device is
/// dropped and the status names what was found.
pub open spec fn discovery_finished_step(v: AppView, result: ScanResult) -> (AppView, Seq<Command>) {
    match result {
        ScanResult::Found(report) => if report.supported@.len() > 0 {
            let keep = match v.selected {
                Some(wanted) => located(report.supported@, wanted) is Some,
                None => false,
            };
            adopt_selection_step(
                AppView {
                    status: DeviceStatus::Ready(report),
                    selected: if keep { v.selected } else { None },
                    ..v
                },
            )
        } else if report.unsupported@.len() > 0 {
            finish_scan_step(AppView { status: DeviceStatus::Unsupported(report), ..clear_device(v) })
        } else {
            finish_scan_step(AppView { status: DeviceStatus::Empty, ..clear_device(v) })
        },
        ScanResult::Failed(error) => finish_scan_step(AppView { status: DeviceStatus::Failed(error), ..clear_device(v) }),
    }
}

/// The USB monitor reported an event: every event triggers a fresh scan.
pub open spec fn watch_event_step(v: AppView, event: DeviceWatchEvent) -> (AppView, Seq<Command>) {
    match event {
        DeviceWatchEvent::Started => request_scan_step(AppView { watch_status: WatchStatus::Active, ..v }),
        DeviceWatchEvent::DevicesChanged => request_scan_step(v),
        DeviceWatchEvent::Failed(_) => request_scan_step(AppView { watch_status: WatchStatus::Failed, ..v }),
    }
}

/// A poll tick: dropped (never queued) while a poll owns the session or
/// when nothing is readable; otherwise one poll starts, folding the monitor
/// refresh into the meter cadence.
pub open spec fn feedback_tick_step(v: AppView) -> (AppView, Seq<Command>) {
    match cadence_in(v) {
        None => (v, Seq::empty()),
        Some(cadence) => if v.feedback_in_flight {
            (v, Seq::empty())
        } else {
            let tick = if v.feedback_tick == u64::MAX { 0 } else { (v.feedback_tick + 1) as u64 };
            refresh_step(AppView { feedback_tick: tick, ..v }, monitor_due_at(tick, cadence))
        },
    }
}

/// Applies read-back toggle values in order.
pub open spec fn apply_toggle_readings(toggles: Seq<ToggleControlView>, readings: Seq<(MonitorToggle, bool)>) -> Seq<ToggleControlView>
    decreases readings.len(),
{
    if readings.len() == 0 {
        toggles
    } else {
        let earlier = apply_toggle_readings(toggles, readings.drop_last());
        let (toggle, on) = readings.last();
        earlier.update(toggle.spec_index(), toggle_confirm(earlier[toggle.spec_index()], on).0)
    }
}

/// Adopts read-back monitor state: hardware values win over local state,
/// except for controls with a send in flight.
pub open spec fn adopt_monitor(v: AppView, monitor: MonitorSnapshot) -> AppView {
    AppView {
        speaker: match monitor.speaker_level {
            Some(level) => volume_confirm(v.speaker, level).0,
            None => v.speaker,
        },
        toggles: apply_toggle_readings(v.toggles, monitor.toggles@),
        digital_output_mode: match monitor.digital_output_mode {
            Some(mode) => toggle_confirm(v.digital_output_mode, mode is Adat).0,
            None => v.digital_output_mode,
        },
        ..v
    }
}

/// Adopts a meter block: a block of the current length replaces the
/// levels; a block of another length (from a replaced device) is ignored;
/// a missing block blanks the meters.
pub open spec fn adopt_meters(v: AppView, meters: Option<Vec<u8>>) -> AppView {
    match meters {
        Some(levels) => if levels@.len() == v.meters.len() {
            AppView { meters: Seq::new(v.meters.len(), |i: int| Some(levels@[i])), ..v }
        } else {
            v
        },
        None => AppView { meters: blank_meters(v.meters), ..v },
    }
}

/// A poll completed. Completions from a replaced attachment change nothing
/// (and only clear the in-flight flag when no attachment is left). A
/// successful poll clears the notice and adopts the monitor state it was
/// asked for and the meters; a failed poll blanks the meters but keeps the
/// last confirmed monitor values under the notice.
pub open spec fn feedback_finished_step(v: AppView, outcome: FeedbackOutcome) -> (AppView, Seq<Command>) {
    match selected_in(v) {
        None => (AppView { feedback_in_flight: false, ..v }, Seq::empty()),
        Some(device) => if device.location.spec_key() != outcome.location.spec_key() {
            (v, Seq::empty())
        } else {
            let idle = AppView { feedback_in_flight: false, ..v };
            match outcome.result {
                FeedbackResult::Read(snapshot) => {
                    let cleared = AppView { feedback_notice: None, ..idle };
                    let monitored = if outcome.read_monitor && snapshot.monitor is Some {
                        adopt_monitor(cleared, snapshot.monitor.unwrap())
                    } else {
                        cleared
                    };
                    (adopt_meters(monitored, snapshot.meters), Seq::empty())
                },
                FeedbackResult::Failed(error) => (
                    AppView { meters: blank_meters(v.meters), feedback_notice: Some(error@), ..idle },
                    Seq::empty(),
                ),
            }
        },
    }
}

/// The slot of the route control serving `destination`.
pub open spec fn route_slot(routes: Seq<OutputRouteView>, destination: RoutingDestination) -> Option<int>
    decreases routes.len(),
{
    if routes.len() == 0 {
        None
    } else if routes[0].destination == destination {
        Some(0)
    } else {
        match route_slot(routes.drop_first(), destination) {
            Some(i) => Some(i + 1),
            None => None,
        }
    }
}

/// Whether a route control shows a failed send.
pub open spec fn route_failed(c: crate::routing::RouteControlView) -> bool {
    c.in_flight is None && c.last_error is Some
}

/// A speaker level request: ignored without an attachment; otherwise it
/// starts a send unless one is in flight (then it waits as the queued level).
pub open spec fn speaker_request_step(v: AppView, level: u32) -> (AppView, Seq<Command>) {
    match selected_in(v) {
        None => (v, Seq::empty()),
        Some(device) => {
            let (speaker, send) = volume_request(v.speaker, level);
            (
                AppView { speaker, ..v },
                match send {
                    Some(l) => seq![Command::SendSpeakerLevel { device, level: l }],
                    None => Seq::empty(),
                },
            )
        },
    }
}

/// A speaker send completed: stale completions change nothing; otherwise
/// the queued level starts next, or is dropped when the attachment is gone.
pub open spec fn speaker_finish_step(v: AppView, outcome: SpeakerVolumeOutcome) -> (AppView, Seq<Command>) {
    if !holds_level(v.speaker.in_flight, outcome.level) {
        (v, Seq::empty())
    } else {
        let (speaker, next) = volume_finish(v.speaker, outcome.level, send_result_of(outcome.error));
        match next {
            Some(n) => match selected_in(v) {
                Some(device) => (
                    AppView { speaker, ..v },
                    seq![Command::SendSpeakerLevel { device, level: n }],
                ),
                None => (AppView { speaker: volume_drop_pending(speaker), ..v }, Seq::empty()),
            },
            None => (AppView { speaker, ..v }, Seq::empty()),
        }
    }
}

/// A headphone level request, handled like the speaker level.
pub open spec fn headphone_request_step(v: AppView, level: u32) -> (AppView, Seq<Command>) {
    match selected_in(v) {
        None => (v, Seq::empty()),
        Some(device) => {
            let (headphone, send) = volume_request(v.headphone, level);
            (
                AppView { headphone, ..v },
                match send {
                    Some(l) => seq![Command::SendHeadphoneLevel { device, level: l }],
                    None => Seq::empty(),
                },
            )
        },
    }
}

/// A headphone send completed, handled like a speaker completion.
pub open spec fn headphone_finish_step(v: AppView, outcome: HeadphoneVolumeOutcome) -> (AppView, Seq<Command>) {
    if !holds_level(v.headphone.in_flight, outcome.level) {
        (v, Seq::empty())
    } else {
        let (headphone, next) = volume_finish(v.headphone, outcome.level, send_result_of(outcome.error));
        match next {
            Some(n) => match selected_in(v) {
                Some(device) => (
                    AppView { headphone, ..v },
                    seq![Command::SendHeadphoneLevel { device, level: n }],
                ),
                None => (AppView { headphone: volume_drop_pending(headphone), ..v }, Seq::empty()),
            },
            None => (AppView { headphone, ..v }, Seq::empty()),
        }
    }
}

/// A route choice: ignored without an attachment or a control for the
/// destination; re-choosing the requested source is a no-op unless its
/// last send failed; otherwise it sends unless a send is in flight.
pub open spec fn route_request_step(v: AppView, route: Route) -> (AppView, Seq<Command>) {
    match selected_in(v) {
        None => (v, Seq::empty()),
        Some(device) => match route_slot(v.routes, route.destination) {
            None => (v, Seq::empty()),
            Some(i) => {
                let control = v.routes[i].control;
                if control.requested == Some(route.source) && !route_failed(control) {
                    (v, Seq::empty())
                } else {
                    let (updated, send) = route_request(control, route.source);
                    (
                        AppView {
                            routes: v.routes.update(
                                i,
                                OutputRouteView { destination: v.routes[i].destination, control: updated },
                            ),
                            ..v
                        },
                        if send is Some {
                            seq![Command::SendRoute { device, route }]
                        } else {
                            Seq::empty()
                        },
                    )
                }
            },
        },
    }
}

/// A route reset: requests the output's documented default source.
pub open spec fn route_reset_step(v: AppView, destination: RoutingDestination) -> (AppView, Seq<Command>) {
    match selected_in(v) {
        None => (v, Seq::empty()),
        Some(device) => match default_route(device.model, destination) {
            Ok(route) => route_request_step(v, route),
            Err(_) => (v, Seq::empty()),
        },
    }
}

/// A route send completed: only the in-flight send of that output counts.
pub open spec fn route_finish_step(v: AppView, outcome: RoutingOutcome) -> (AppView, Seq<Command>) {
    match route_slot(v.routes, outcome.route.destination) {
        None => (v, Seq::empty()),
        Some(i) => if v.routes[i].control.in_flight != Some(outcome.route.source) {
            (v, Seq::empty())
        } else {
            let finished = route_finish(v.routes[i].control, outcome.route.source, send_result_of(outcome.error)).0;
            (
                AppView {
                    routes: v.routes.update(
                        i,
                        OutputRouteView { destination: v.routes[i].destination, control: finished },
                    ),
                    ..v
                },
                Seq::empty(),
            )
        },
    }
}

/// An optical-format choice: only where the format request is evidenced.
pub open spec fn digital_mode_request_step(v: AppView, mode: DigitalOutputMode) -> (AppView, Seq<Command>) {
    match selected_in(v) {
        None => (v, Seq::empty()),
        Some(device) => if !(device.control_interface is Some && model_has_digital_output_mode(device.model)) {
            (v, Seq::empty())
        } else {
            let (control, send) = toggle_request(v.digital_output_mode, mode is Adat);
            (
                AppView { digital_output_mode: control, ..v },
                if send is Some {
                    seq![Command::SendDigitalOutputMode { device, mode }]
                } else {
                    Seq::empty()
                },
            )
        },
    }
}

/// An optical-format send completed.
pub open spec fn digital_mode_finish_step(v: AppView, outcome: DigitalOutputModeOutcome) -> (AppView, Seq<Command>) {
    let on = outcome.mode is Adat;
    if v.digital_output_mode.in_flight != Some(on) {
        (v, Seq::empty())
    } else {
        (
            AppView {
                digital_output_mode: toggle_finish(v.digital_output_mode, on, send_result_of(outcome.error)).0,
                ..v
            },
            Seq::empty(),
        )
    }
}

/// A monitor toggle press: sends unless that toggle has a send in flight.
pub open spec fn toggle_request_step(v: AppView, toggle: MonitorToggle, on: bool) -> (AppView, Seq<Command>) {
    match selected_in(v) {
        None => (v, Seq::empty()),
        Some(device) => {
            let i = toggle.spec_index();
            let (control, send) = toggle_request(v.toggles[i], on);
            (
                AppView { toggles: v.toggles.update(i, control), ..v },
                match send {
                    Some(value) => seq![Command::SendMonitorToggle { device, toggle, on: value }],
                    None => Seq::empty(),
                },
            )
        },
    }
}

/// A monitor toggle send completed.
pub open spec fn toggle_finish_step(v: AppView, outcome: MonitorToggleOutcome) -> (AppView, Seq<Command>) {
    let i = outcome.toggle.spec_index();
    if v.toggles[i].in_flight != Some(outcome.on) {
        (v, Seq::empty())
    } else {
        (
            AppView {
                toggles: v.toggles.update(i, toggle_finish(v.toggles[i], outcome.on, send_result_of(outcome.error)).0),
                ..v
            },
            Seq::empty(),
        )
    }
}

/// An input level change: ignored for strips that do not exist.
pub open spec fn channel_level_request_step(v: AppView, channel: u8, level: u32) -> (AppView, Seq<Command>) {
    match selected_in(v) {
        None => (v, Seq::empty()),
        Some(device) => if channel >= v.channels.len() {
            (v, Seq::empty())
        } else {
            let strip = v.channels[channel as int];
            let (updated, send) = volume_request(strip.level, level);
            (
                AppView {
                    channels: v.channels.update(channel as int, ChannelView { level: updated, polarity: strip.polarity }),
                    ..v
                },
                match send {
                    Some(l) => seq![Command::SendChannelLevel { device, channel, level: l }],
                    None => Seq::empty(),
                },
            )
        },
    }
}

/// An input level send completed: the queued level starts next, or is
/// dropped when the attachment is gone.
pub open spec fn channel_level_finish_step(v: AppView, outcome: ChannelLevelOutcome) -> (AppView, Seq<Command>) {
    let channel = outcome.channel;
    if channel >= v.channels.len() {
        (v, Seq::empty())
    } else {
        let strip = v.channels[channel as int];
        if !holds_level(strip.level.in_flight, outcome.level) {
            (v, Seq::empty())
        } else {
            let (finished, next) = volume_finish(strip.level, outcome.level, send_result_of(outcome.error));
            match next {
                Some(n) => match selected_in(v) {
                    Some(device) => (
                        AppView {
                            channels: v.channels.update(channel as int, ChannelView { level: finished, polarity: strip.polarity }),
                            ..v
                        },
                        seq![Command::SendChannelLevel { device, channel, level: n }],
                    ),
                    None => (
                        AppView {
                            channels: v.channels.update(
                                channel as int,
                                ChannelView { level: volume_drop_pending(finished), polarity: strip.polarity },
                            ),
                            ..v
                        },
                        Seq::empty(),
                    ),
                },
                None => (
                    AppView {
                        channels: v.channels.update(channel as int, ChannelView { level: finished, polarity: strip.polarity }),
                        ..v
                    },
                    Seq::empty(),
                ),
            }
        }
    }
}

/// An input polarity press: sends unless that strip has one in flight.
pub open spec fn channel_polarity_request_step(v: AppView, channel: u8, flipped: bool) -> (AppView, Seq<Command>) {
    match selected_in(v) {
        None => (v, Seq::empty()),
        Some(device) => if channel >= v.channels.len() {
            (v, Seq::empty())
        } else {
            let strip = v.channels[channel as int];
            let (updated, send) = toggle_request(strip.polarity, flipped);
            (
                AppView {
                    channels: v.channels.update(channel as int, ChannelView { level: strip.level, polarity: updated }),
                    ..v
                },
                match send {
                    Some(value) => seq![Command::SendChannelPolarity { device, channel, flipped: value }],
                    None => Seq::empty(),
                },
            )
        },
    }
}

/// An input polarity send completed.
pub open spec fn channel_polarity_finish_step(v: AppView, outcome: ChannelPolarityOutcome) -> (AppView, Seq<Command>) {
    let channel = outcome.channel;
    if channel >= v.channels.len() {
        (v, Seq::empty())
    } else {
        let strip = v.channels[channel as int];
        if strip.polarity.in_flight != Some(outcome.flipped) {
            (v, Seq::empty())
        } else {
            (
                AppView {
                    channels: v.channels.update(
                        channel as int,
                        ChannelView {
                            level: strip.level,
                            polarity: toggle_finish(strip.polarity, outcome.flipped, send_result_of(outcome.error)).0,
                        },
                    ),
                    ..v
                },
                Seq::empty(),
            )
        }
    }
}

/// The whole state machine: the next state and the work to start for one
/// message.
pub open spec fn update_step(v: AppView, message: Message) -> (AppView, Seq<Command>) {
    match message {
        Message::Refresh => request_scan_step(v),
        Message::DeviceSelected(location) => adopt_selection_step(AppView { selected: Some(location), ..v }),
        Message::DeviceWatch(event) => watch_event_step(v, event),
        Message::DiscoveryFinished(result) => discovery_finished_step(v, result),
        Message::SpeakerVolumeChanged(level) => speaker_request_step(v, level),
        Message::SpeakerVolumeFinished(outcome) => speaker_finish_step(v, outcome),
        Message::HeadphoneVolumeChanged(level) => headphone_request_step(v, level),
        Message::HeadphoneVolumeFinished(outcome) => headphone_finish_step(v, outcome),
        Message::RouteSelected(route) => route_request_step(v, route),
        Message::RouteReset(destination) => route_reset_step(v, destination),
        Message::RoutingFinished(outcome) => route_finish_step(v, outcome),
        Message::DigitalOutputModeSelected(mode) => digital_mode_request_step(v, mode),
        Message::DigitalOutputModeFinished(outcome) => digital_mode_finish_step(v, outcome),
        Message::MonitorToggleChanged { toggle, on } => toggle_request_step(v, toggle, on),
        Message::MonitorToggleFinished(outcome) => toggle_finish_step(v, outcome),
        Message::ChannelLevelChanged { channel, level } => channel_level_request_step(v, channel, level),
        Message::ChannelLevelFinished(outcome) => channel_level_finish_step(v, outcome),
        Message::ChannelPolarityChanged { channel, flipped } => channel_polarity_request_step(v, channel, flipped),
        Message::ChannelPolarityFinished(outcome) => channel_polarity_finish_step(v, outcome),
        Message::FeedbackTick => feedback_tick_step(v),
        Message::FeedbackFinished(outcome) => feedback_finished_step(v, outcome),
    }
}

/// The index of the first device of `devices` at bus position `wanted`.
fn find_located(devices: &Vec<DetectedDevice>, wanted: &DeviceLocation) -> (found: Option<usize>)
    ensures
        match found {
            Some(i) => i < devices@.len() && located(devices@, *wanted) == Some(devices@[i as int]),
            None => located(devices@, *wanted) is None,
        },
{
    let mut i: usize = 0;
    assert(devices@.skip(0) =~= devices@);
    while i < devices.len()
        invariant
            i <= devices@.len(),
            located(devices@, *wanted) == located(devices@.skip(i as int), *wanted),
        decreases devices@.len() - i,
    {
        assert(devices@.skip(i as int)[0] == devices@[i as int]);
        assert(devices@.skip(i as int).drop_first() =~= devices@.skip(i + 1));
        if devices[i].location.same_as(wanted) {
            return Some(i);
        }
        i += 1;
    }
    assert(devices@.skip(i as int) =~= Seq::<DetectedDevice>::empty());
    None
}

/// What an attachment reports back.
pub fn feedback_kind(device: &DetectedDevice) -> (kind: FeedbackKind)
    ensures
        kind == feedback_kind_of(*device),
{
    if device.control_interface.is_none() {
        return FeedbackKind::WriteOnly;
    }
    if meter_feedback_available(device) {
        FeedbackKind::MetersAndMonitor
    } else if speaker_feedback_available(device) || toggle_feedback_available(device)
        || digital_output_mode_available(device) {
        FeedbackKind::MonitorOnly
    } else {
        FeedbackKind::WriteOnly
    }
}

/// The header's one-line honesty summary for what an attachment reports.
pub open spec fn feedback_summary_text(device: DetectedDevice) -> Seq<char> {
    match feedback_kind_of(device) {
        FeedbackKind::MetersAndMonitor => "Monitor + meter readback"@,
        FeedbackKind::MonitorOnly => "Monitor readback"@,
        FeedbackKind::WriteOnly => "Write-only controls"@,
    }
}

/// One-line honesty summary for the header, so write-only controls are
/// never mistaken for live state.
pub fn feedback_summary_for(device: &DetectedDevice) -> (text: &'static str)
    ensures
        text@ == feedback_summary_text(*device),
{
    match feedback_kind(device) {
        FeedbackKind::MetersAndMonitor => "Monitor + meter readback",
        FeedbackKind::MonitorOnly => "Monitor readback",
        FeedbackKind::WriteOnly => "Write-only controls",
    }
}

/// The line telling whether a safe control interface may be claimed.
pub open spec fn readiness_text(device: DetectedDevice) -> Seq<char> {
    match device.control_interface {
        Some(control) => "Safe control interface "@ + crate::text::decimal_digits(control.number as nat)
            + " available ("@ + control.kind.spec_label() + ")"@,
        None => "No safe control interface found; Selah will not claim the audio interface."@,
    }
}

/// One line on whether a safe control interface may be claimed for sends.
pub fn control_readiness(device: &DetectedDevice) -> (text: String)
    ensures
        text@ == readiness_text(*device),
{
    match device.control_interface {
        Some(control) => {
            let mut text = "Safe control interface ".to_owned();
            crate::text::push_decimal(&mut text, control.number as u64);
            text.append(" available (");
            text.append(control.kind.label());
            text.append(")");
            text
        },
        None => "No safe control interface found; Selah will not claim the audio interface.".to_owned(),
    }
}

/// Whether this tick also refreshes monitor state: the monitor snapshot
/// rides every ~1 s on top of the meter cadence, on the same session.
pub fn monitor_due(tick: u64, cadence_ms: u64) -> (due: bool)
    ensures
        due == monitor_due_at(tick, cadence_ms),
{
    let cadence = if cadence_ms == 0 {
        1
    } else {
        cadence_ms
    };
    let every = MONITOR_CADENCE_MS / cadence;
    let every = if every == 0 {
        1
    } else {
        every
    };
    tick % every == 0
}

/// Index of a toggle's control in the application state, matching
/// [`MonitorToggle::all`] order.
pub fn toggle_index(toggle: MonitorToggle) -> (i: usize)
    ensures
        i == toggle.spec_index(),
        i < 5,
{
    toggle.index()
}

/// Builds a fresh strip per input of one attachment.
pub fn fresh_channels_for(device: &DetectedDevice) -> (channels: Vec<ChannelStrip>)
    ensures
        channel_views(channels@) == fresh_channels_of(Some(*device)),
{
    let count = mixer_channel_count(&device.model);
    let mut channels: Vec<ChannelStrip> = Vec::new();
    let mut i: u8 = 0;
    while i < count
        invariant
            i <= count,
            count == channel_count(device.model),
            channels@.len() == i,
            channel_views(channels@) == Seq::new(
                i as nat,
                |j: int| ChannelView { level: fresh_volume(), polarity: fresh_toggle() },
            ),
        decreases count - i,
    {
        let ghost before = channels@;
        let strip = ChannelStrip::new();
        channels.push(strip);
        assert(channels@ == before.push(strip));
        assert(channel_views(channels@)[i as int] == strip@);
        assert forall|j: int| 0 <= j <= i implies channel_views(channels@)[j] == (ChannelView { level: fresh_volume(), polarity: fresh_toggle() }) by {
            if j < i {
                assert(channels@[j] == before[j]);
                assert(channel_views(before)[j] == Seq::new(
                    i as nat,
                    |k: int| ChannelView { level: fresh_volume(), polarity: fresh_toggle() },
                )[j]);
            }
        }
        i += 1;
        assert(channel_views(channels@) =~= Seq::new(
            i as nat,
            |j: int| ChannelView { level: fresh_volume(), polarity: fresh_toggle() },
        ));
    }
    channels
}

/// Builds one unknown meter slot per mixer input of one attachment.
pub fn fresh_meters_for(device: &DetectedDevice) -> (meters: Vec<Option<u8>>)
    ensures
        meters@ == fresh_meters_of(Some(*device)),
{
    let count = mixer_channel_count(&device.model);
    let mut meters: Vec<Option<u8>> = Vec::new();
    let mut i: u8 = 0;
    while i < count
        invariant
            i <= count,
            count == channel_count(device.model),
            meters@ == Seq::new(i as nat, |j: int| None::<u8>),
        decreases count - i,
    {
        meters.push(None);
        i += 1;
        assert(meters@ =~= Seq::new(i as nat, |j: int| None::<u8>));
    }
    meters
}

/// Builds route state from one attachment's routing capabilities.
pub fn fresh_routes_for(device: &DetectedDevice) -> (routes: Vec<OutputRouteControl>)
    ensures
        route_views(routes@) == fresh_routes_of(Some(*device)),
{
    let routes = route_controls(&device.model);
    assert(route_views(routes@) =~= fresh_routes_of(Some(*device)));
    routes
}

/// Five fresh monitor toggle controls.
fn fresh_toggle_controls() -> (toggles: Vec<ToggleControl>)
    ensures
        toggle_views(toggles@) == fresh_toggles(),
{
    let mut toggles: Vec<ToggleControl> = Vec::new();
    let mut i: usize = 0;
    while i < 5
        invariant
            i <= 5,
            toggles@.len() == i,
            toggle_views(toggles@) == Seq::new(i as nat, |j: int| fresh_toggle()),
        decreases 5 - i,
    {
        let ghost before = toggles@;
        let toggle = ToggleControl::new();
        toggles.push(toggle);
        assert(toggles@ == before.push(toggle));
        assert(toggle_views(toggles@)[i as int] == toggle@);
        assert forall|j: int| 0 <= j <= i implies toggle_views(toggles@)[j] == fresh_toggle() by {
            if j < i {
                assert(toggles@[j] == before[j]);
                assert(toggle_views(before)[j] == Seq::new(i as nat, |k: int| fresh_toggle())[j]);
            }
        }
        i += 1;
        assert(toggle_views(toggles@) =~= Seq::new(i as nat, |j: int| fresh_toggle()));
    }
    toggles
}

/// Applying readings never changes how many toggle controls there are.
pub proof fn lemma_toggle_readings_keep_length(toggles: Seq<ToggleControlView>, readings: Seq<(MonitorToggle, bool)>)
    requires
        toggles.len() == 5,
    ensures
        apply_toggle_readings(toggles, readings).len() == 5,
    decreases readings.len(),
{
    if readings.len() > 0 {
        lemma_toggle_readings_keep_length(toggles, readings.drop_last());
        let (toggle, on) = readings.last();
        assert(0 <= toggle.spec_index() < 5);
    }
}

/// The slot of the first route control serving `destination` is the first
/// index whose destination matches.
proof fn lemma_route_slot(routes: Seq<OutputRouteView>, destination: RoutingDestination, i: int)
    requires
        0 <= i <= routes.len(),
        forall|j: int| 0 <= j < i ==> (#[trigger] routes[j]).destination != destination,
    ensures
        i < routes.len() && routes[i].destination == destination ==> route_slot(routes, destination) == Some(i),
        i == routes.len() ==> route_slot(routes, destination) is None,
    decreases i,
{
    if i > 0 {
        assert forall|j: int| 0 <= j < i - 1 implies (#[trigger] routes.drop_first()[j]).destination != destination by {
            assert(routes.drop_first()[j] == routes[j + 1]);
        }
        lemma_route_slot(routes.drop_first(), destination, i - 1);
    }
}

impl App {
    /// The state the application starts in.
    pub fn new() -> (app: App)
        ensures
            app@ == initial_view(),
    {
        let app = App {
            status: DeviceStatus::Scanning,
            selected: None,
            scan_in_flight: false,
            rescan_requested: false,
            watch_status: WatchStatus::Starting,
            speaker: VolumeControl::new(),
            headphone: VolumeControl::new(),
            routes: Vec::new(),
            digital_output_mode: ToggleControl::new(),
            toggles: fresh_toggle_controls(),
            channels: Vec::new(),
            meters: Vec::new(),
            feedback_in_flight: false,
            feedback_tick: 0,
            feedback_notice: None,
        };
        assert(route_views(app.routes@) =~= Seq::<OutputRouteView>::empty());
        assert(channel_views(app.channels@) =~= Seq::<ChannelView>::empty());
        assert(app.meters@ =~= Seq::<Option<u8>>::empty());
        app
    }

    /// The explicitly picked attachment while it is present, else the first
    /// supported one.
    pub fn selected_device(&self) -> (device: Option<DetectedDevice>)
        ensures
            device == selected_in(self@),
    {
        match &self.status {
            DeviceStatus::Ready(report) => {
                if let Some(wanted) = &self.selected {
                    if let Some(i) = find_located(&report.supported, wanted) {
                        return Some(report.supported[i].duplicate());
                    }
                }
                if report.supported.len() > 0 {
                    Some(report.supported[0].duplicate())
                } else {
                    None
                }
            },
            _ => None,
        }
    }

    /// How often the device may be polled, or `None` when nothing is
    /// readable, so no timer runs without a supported attachment.
    pub fn feedback_cadence_ms(&self) -> (cadence: Option<u64>)
        ensures
            cadence == cadence_in(self@),
    {
        match self.selected_device() {
            Some(device) => match feedback_kind(&device) {
                FeedbackKind::MetersAndMonitor => Some(METER_CADENCE_MS),
                FeedbackKind::MonitorOnly => Some(MONITOR_CADENCE_MS),
                FeedbackKind::WriteOnly => None,
            },
            None => None,
        }
    }

    /// Requests a scan, coalescing requests while one is running.
    pub fn request_scan(&mut self) -> (commands: Vec<Command>)
        ensures
            (final(self)@, commands@) == request_scan_step(old(self)@),
    {
        let mut commands: Vec<Command> = Vec::new();
        if self.scan_in_flight {
            self.rescan_requested = true;
            return commands;
        }
        self.scan_in_flight = true;
        self.status = DeviceStatus::Scanning;
        commands.push(Command::Scan);
        assert(commands@ =~= seq![Command::Scan]);
        commands
    }

    /// Marks the scan finished and starts the coalesced follow-up, if any.
    pub fn finish_scan(&mut self) -> (commands: Vec<Command>)
        ensures
            (final(self)@, commands@) == finish_scan_step(old(self)@),
    {
        self.scan_in_flight = false;
        let rescan = self.rescan_requested;
        self.rescan_requested = false;
        if rescan {
            self.request_scan()
        } else {
            Vec::new()
        }
    }

    /// Starts one immediate feedback poll of the selected attachment.
    pub fn refresh_task(&mut self, read_monitor: bool) -> (commands: Vec<Command>)
        ensures
            (final(self)@, commands@) == refresh_step(old(self)@, read_monitor),
    {
        let mut commands: Vec<Command> = Vec::new();
        let device = match self.selected_device() {
            Some(device) => device,
            None => return commands,
        };
        if self.feedback_cadence_ms().is_none() {
            return commands;
        }
        self.feedback_in_flight = true;
        commands.push(Command::ReadFeedback { device, read_monitor });
        assert(commands@ =~= seq![Command::ReadFeedback { device, read_monitor }]);
        commands
    }

    /// Drops per-device state for a new or rescanned selection, then
    /// finishes the scan and schedules one hardware refresh.
    pub fn adopt_selection(&mut self) -> (commands: Vec<Command>)
        ensures
            (final(self)@, commands@) == adopt_selection_step(old(self)@),
            well_formed(final(self)@),
    {
        let selected = self.selected_device();
        self.speaker = VolumeControl::new();
        self.headphone = VolumeControl::new();
        self.toggles = fresh_toggle_controls();
        self.routes = match &selected {
            Some(device) => fresh_routes_for(device),
            None => Vec::new(),
        };
        self.digital_output_mode = ToggleControl::new();
        self.channels = match &selected {
            Some(device) => fresh_channels_for(device),
            None => Vec::new(),
        };
        self.meters = match &selected {
            Some(device) => fresh_meters_for(device),
            None => Vec::new(),
        };
        self.feedback_notice = None;
        self.feedback_in_flight = false;
        self.feedback_tick = 0;
        proof {
            assert(route_views(self.routes@) =~= fresh_routes_of(selected));
            assert(channel_views(self.channels@) =~= fresh_channels_of(selected));
            assert(self.meters@ =~= fresh_meters_of(selected));
        }
        let mut commands = self.finish_scan();
        let mut refresh = self.refresh_task(true);
        commands.append(&mut refresh);
        commands
    }

    /// Forgets the attachment and every per-device control.
    fn clear_device(&mut self)
        ensures
            final(self)@ == clear_device(old(self)@),
            well_formed(final(self)@),
    {
        self.selected = None;
        self.speaker = VolumeControl::new();
        self.headphone = VolumeControl::new();
        self.toggles = fresh_toggle_controls();
        self.routes = Vec::new();
        self.digital_output_mode = ToggleControl::new();
        self.channels = Vec::new();
        self.meters = Vec::new();
        self.feedback_notice = None;
        self.feedback_in_flight = false;
        proof {
            assert(route_views(self.routes@) =~= Seq::<OutputRouteView>::empty());
            assert(channel_views(self.channels@) =~= Seq::<ChannelView>::empty());
        }
    }

    /// Handles a scan result.
    pub fn discovery_finished(&mut self, result: ScanResult) -> (commands: Vec<Command>)
        ensures
            (final(self)@, commands@) == discovery_finished_step(old(self)@, result),
            well_formed(final(self)@),
    {
        match result {
            ScanResult::Found(report) => {
                if report.supported.len() > 0 {
                    let keep = match &self.selected {
                        Some(wanted) => find_located(&report.supported, wanted).is_some(),
                        None => false,
                    };
                    if !keep {
                        self.selected = None;
                    }
                    self.status = DeviceStatus::Ready(report);
                    self.adopt_selection()
                } else if report.unsupported.len() > 0 {
                    self.clear_device();
                    self.status = DeviceStatus::Unsupported(report);
                    self.finish_scan()
                } else {
                    self.clear_device();
                    self.status = DeviceStatus::Empty;
                    self.finish_scan()
                }
            },
            ScanResult::Failed(error) => {
                self.clear_device();
                self.status = DeviceStatus::Failed(error);
                self.finish_scan()
            },
        }
    }

    /// Handles the operating-system USB monitor without polling: every event
    /// triggers a fresh scan; a failed monitor leaves the manual scan.
    pub fn device_watch_event(&mut self, event: DeviceWatchEvent) -> (commands: Vec<Command>)
        ensures
            (final(self)@, commands@) == watch_event_step(old(self)@, event),
    {
        match event {
            DeviceWatchEvent::Started => {
                self.watch_status = WatchStatus::Active;
                self.request_scan()
            },
            DeviceWatchEvent::DevicesChanged => self.request_scan(),
            DeviceWatchEvent::Failed(_) => {
                self.watch_status = WatchStatus::Failed;
                self.request_scan()
            },
        }
    }

    /// The index of the route control serving `destination`.
    pub fn route_index(&self, destination: RoutingDestination) -> (found: Option<usize>)
        ensures
            match found {
                Some(i) => route_slot(self@.routes, destination) == Some(i as int) && i < self.routes@.len(),
                None => route_slot(self@.routes, destination) is None,
            },
    {
        let mut i: usize = 0;
        while i < self.routes.len()
            invariant
                i <= self.routes@.len(),
                forall|j: int| 0 <= j < i ==> (#[trigger] route_views(self.routes@)[j]).destination != destination,
            decreases self.routes@.len() - i,
        {
            if self.routes[i].destination == destination {
                proof {
                    lemma_route_slot(route_views(self.routes@), destination, i as int);
                }
                return Some(i);
            }
            i += 1;
        }
        proof {
            lemma_route_slot(route_views(self.routes@), destination, i as int);
        }
        None
    }

    /// Starts one bounded feedback poll unless one already owns a session.
    ///
    /// Ticks arriving while a poll is in flight are dropped, never queued.
    pub fn request_feedback(&mut self) -> (commands: Vec<Command>)
        ensures
            (final(self)@, commands@) == feedback_tick_step(old(self)@),
    {
        let cadence = match self.feedback_cadence_ms() {
            Some(cadence) => cadence,
            None => return Vec::new(),
        };
        if self.feedback_in_flight {
            return Vec::new();
        }
        self.feedback_tick = if self.feedback_tick == u64::MAX {
            0
        } else {
            self.feedback_tick + 1
        };
        let due = monitor_due(self.feedback_tick, cadence);
        self.refresh_task(due)
    }

    /// Adopts read-back monitor state; controls with a send in flight keep
    /// their pending value.
    pub fn adopt_monitor_snapshot(&mut self, monitor: &MonitorSnapshot)
        requires
            well_formed(old(self)@),
        ensures
            final(self)@ == adopt_monitor(old(self)@, *monitor),
            well_formed(final(self)@),
    {
        if let Some(level) = monitor.speaker_level {
            let _ = self.speaker.apply_confirmed(level);
        }
        let ghost pre = self@;
        let mut i: usize = 0;
        assert(monitor.toggles@.take(0) =~= Seq::<(MonitorToggle, bool)>::empty());
        while i < monitor.toggles.len()
            invariant
                i <= monitor.toggles@.len(),
                well_formed(pre),
                self.toggles@.len() == 5,
                self@ == (AppView { toggles: apply_toggle_readings(pre.toggles, monitor.toggles@.take(i as int)), ..pre }),
            decreases monitor.toggles@.len() - i,
        {
            let (toggle, on) = monitor.toggles[i];
            let index = toggle_index(toggle);
            let ghost before = self.toggles@;
            let _ = self.toggles[index].apply_confirmed(on);
            proof {
                let readings = monitor.toggles@.take(i + 1);
                assert(readings.drop_last() =~= monitor.toggles@.take(i as int));
                assert(readings.last() == monitor.toggles@[i as int]);
                assert(toggle_views(self.toggles@) =~= toggle_views(before).update(index as int, self.toggles@[index as int]@));
            }
            i += 1;
        }
        assert(monitor.toggles@.take(i as int) =~= monitor.toggles@);
        if let Some(mode) = monitor.digital_output_mode {
            let _ = self.digital_output_mode.apply_confirmed(mode.as_toggle());
        }
    }

    /// Adopts a meter block: one of the current length replaces the levels,
    /// one of another length is ignored, a missing one blanks the meters.
    pub fn adopt_meter_levels(&mut self, meters: Option<Vec<u8>>)
        ensures
            final(self)@ == adopt_meters(old(self)@, meters),
    {
        match meters {
            Some(levels) => {
                if levels.len() != self.meters.len() {
                    return;
                }
                let mut adopted: Vec<Option<u8>> = Vec::new();
                let mut i: usize = 0;
                while i < levels.len()
                    invariant
                        i <= levels@.len(),
                        adopted@ == Seq::new(i as nat, |j: int| Some(levels@[j])),
                    decreases levels@.len() - i,
                {
                    adopted.push(Some(levels[i]));
                    i += 1;
                    assert(adopted@ =~= Seq::new(i as nat, |j: int| Some(levels@[j])));
                }
                self.meters = adopted;
            },
            None => self.blank_meters(),
        }
    }

    /// Every meter slot back to unknown.
    fn blank_meters(&mut self)
        ensures
            final(self)@ == (AppView { meters: blank_meters(old(self)@.meters), ..old(self)@ }),
    {
        let count = self.meters.len();
        let mut blank: Vec<Option<u8>> = Vec::new();
        let mut i: usize = 0;
        while i < count
            invariant
                i <= count,
                blank@ == Seq::new(i as nat, |j: int| None::<u8>),
            decreases count - i,
        {
            blank.push(None);
            i += 1;
            assert(blank@ =~= Seq::new(i as nat, |j: int| None::<u8>));
        }
        self.meters = blank;
    }

    /// Adopts a feedback poll result: hardware values win over local state.
    pub fn finish_feedback(&mut self, outcome: FeedbackOutcome) -> (commands: Vec<Command>)
        requires
            well_formed(old(self)@),
        ensures
            (final(self)@, commands@) == feedback_finished_step(old(self)@, outcome),
            well_formed(final(self)@),
    {
        match self.selected_device() {
            None => {
                self.feedback_in_flight = false;
                return Vec::new();
            },
            Some(device) => {
                if !device.location.same_as(&outcome.location) {
                    return Vec::new();
                }
            },
        }
        self.feedback_in_flight = false;
        match outcome.result {
            FeedbackResult::Read(snapshot) => {
                self.feedback_notice = None;
                if outcome.read_monitor {
                    if let Some(monitor) = &snapshot.monitor {
                        self.adopt_monitor_snapshot(monitor);
                    }
                }
                self.adopt_meter_levels(snapshot.meters);
            },
            FeedbackResult::Failed(error) => {
                self.blank_meters();
                self.feedback_notice = Some(error);
            },
        }
        Vec::new()
    }

    /// Starts a background speaker-volume send, queuing behind one in flight.
    pub fn request_speaker_volume(&mut self, level: u32) -> (commands: Vec<Command>)
        ensures
            (final(self)@, commands@) == speaker_request_step(old(self)@, level),
    {
        let device = match self.selected_device() {
            Some(device) => device,
            None => return Vec::new(),
        };
        match self.speaker.request(level) {
            Some(send) => {
                let commands = vec![Command::SendSpeakerLevel { device, level: send }];
                assert(commands@ =~= seq![Command::SendSpeakerLevel { device, level: send }]);
                commands
            },
            None => Vec::new(),
        }
    }

    /// Records a speaker send result and starts the queued level, if any.
    pub fn finish_speaker_volume(&mut self, outcome: SpeakerVolumeOutcome) -> (commands: Vec<Command>)
        ensures
            (final(self)@, commands@) == speaker_finish_step(old(self)@, outcome),
    {
        if !self.speaker.is_in_flight(outcome.level) {
            return Vec::new();
        }
        let result = match outcome.error {
            None => Ok(()),
            Some(error) => Err(error),
        };
        match self.speaker.finish(outcome.level, result) {
            Some(next) => match self.selected_device() {
                Some(device) => {
                    let commands = vec![Command::SendSpeakerLevel { device, level: next }];
                    assert(commands@ =~= seq![Command::SendSpeakerLevel { device, level: next }]);
                    commands
                },
                None => {
                    self.speaker.drop_pending();
                    Vec::new()
                },
            },
            None => Vec::new(),
        }
    }

    /// Starts a background headphone-volume send, queuing behind one in
    /// flight.
    pub fn request_headphone_volume(&mut self, level: u32) -> (commands: Vec<Command>)
        ensures
            (final(self)@, commands@) == headphone_request_step(old(self)@, level),
    {
        let device = match self.selected_device() {
            Some(device) => device,
            None => return Vec::new(),
        };
        match self.headphone.request(level) {
            Some(send) => {
                let commands = vec![Command::SendHeadphoneLevel { device, level: send }];
                assert(commands@ =~= seq![Command::SendHeadphoneLevel { device, level: send }]);
                commands
            },
            None => Vec::new(),
        }
    }

    /// Records a headphone send result and starts the queued level, if any.
    pub fn finish_headphone_volume(&mut self, outcome: HeadphoneVolumeOutcome) -> (commands: Vec<Command>)
        ensures
            (final(self)@, commands@) == headphone_finish_step(old(self)@, outcome),
    {
        if !self.headphone.is_in_flight(outcome.level) {
            return Vec::new();
        }
        let result = match outcome.error {
            None => Ok(()),
            Some(error) => Err(error),
        };
        match self.headphone.finish(outcome.level, result) {
            Some(next) => match self.selected_device() {
                Some(device) => {
                    let commands = vec![Command::SendHeadphoneLevel { device, level: next }];
                    assert(commands@ =~= seq![Command::SendHeadphoneLevel { device, level: next }]);
                    commands
                },
                None => {
                    self.headphone.drop_pending();
                    Vec::new()
                },
            },
            None => Vec::new(),
        }
    }

    /// Starts a route send; re-choosing the requested source is a no-op
    /// unless its last send failed, and requests while one is in flight for
    /// that output are dropped.
    pub fn request_routing(&mut self, route: Route) -> (commands: Vec<Command>)
        ensures
            (final(self)@, commands@) == route_request_step(old(self)@, route),
    {
        let device = match self.selected_device() {
            Some(device) => device,
            None => return Vec::new(),
        };
        let i = match self.route_index(route.destination) {
            Some(i) => i,
            None => return Vec::new(),
        };
        let repeated = match self.routes[i].control.requested() {
            Some(source) => source == route.source,
            None => false,
        };
        let failed = match self.routes[i].control.status() {
            RouteStatus::Failed { .. } => true,
            _ => false,
        };
        if repeated && !failed {
            return Vec::new();
        }
        let ghost before = self.routes@;
        let send = self.routes[i].control.request(route.source);
        proof {
            assert(route_views(self.routes@) =~= route_views(before).update(
                i as int,
                OutputRouteView { destination: before[i as int].destination, control: self.routes@[i as int].control@ },
            ));
        }
        match send {
            Some(_) => {
                let commands = vec![Command::SendRoute { device, route }];
                assert(commands@ =~= seq![Command::SendRoute { device, route }]);
                commands
            },
            None => Vec::new(),
        }
    }

    /// Requests the documented default source of an output pair.
    pub fn request_route_reset(&mut self, destination: RoutingDestination) -> (commands: Vec<Command>)
        ensures
            (final(self)@, commands@) == route_reset_step(old(self)@, destination),
    {
        let device = match self.selected_device() {
            Some(device) => device,
            None => return Vec::new(),
        };
        match reset_route(&device.model, destination) {
            Ok(route) => self.request_routing(route),
            Err(_) => Vec::new(),
        }
    }

    /// Records a route send result; stale completions are ignored.
    pub fn finish_routing(&mut self, outcome: RoutingOutcome) -> (commands: Vec<Command>)
        ensures
            (final(self)@, commands@) == route_finish_step(old(self)@, outcome),
    {
        let i = match self.route_index(outcome.route.destination) {
            Some(i) => i,
            None => return Vec::new(),
        };
        if !self.routes[i].control.is_in_flight(outcome.route.source) {
            return Vec::new();
        }
        let result = match outcome.error {
            None => Ok(()),
            Some(error) => Err(error),
        };
        let ghost before = self.routes@;
        let _ = self.routes[i].control.finish(outcome.route.source, result);
        proof {
            assert(route_views(self.routes@) =~= route_views(before).update(
                i as int,
                OutputRouteView { destination: before[i as int].destination, control: self.routes@[i as int].control@ },
            ));
        }
        Vec::new()
    }

    /// Starts an optical-format send where the request is evidenced.
    pub fn request_digital_output_mode(&mut self, mode: DigitalOutputMode) -> (commands: Vec<Command>)
        ensures
            (final(self)@, commands@) == digital_mode_request_step(old(self)@, mode),
    {
        let device = match self.selected_device() {
            Some(device) => device,
            None => return Vec::new(),
        };
        if !digital_output_mode_available(&device) {
            return Vec::new();
        }
        match self.digital_output_mode.request(mode.as_toggle()) {
            Some(_) => {
                let commands = vec![Command::SendDigitalOutputMode { device, mode }];
                assert(commands@ =~= seq![Command::SendDigitalOutputMode { device, mode }]);
                commands
            },
            None => Vec::new(),
        }
    }

    /// Records an optical-format send result; stale completions are ignored.
    pub fn finish_digital_output_mode(&mut self, outcome: DigitalOutputModeOutcome) -> (commands: Vec<Command>)
        ensures
            (final(self)@, commands@) == digital_mode_finish_step(old(self)@, outcome),
    {
        let on = outcome.mode.as_toggle();
        if !self.digital_output_mode.is_in_flight(on) {
            return Vec::new();
        }
        let result = match outcome.error {
            None => Ok(()),
            Some(error) => Err(error),
        };
        let _ = self.digital_output_mode.finish(on, result);
        Vec::new()
    }

    /// Starts a monitor-toggle send; ignored while that toggle has one in
    /// flight.
    pub fn request_monitor_toggle(&mut self, toggle: MonitorToggle, on: bool) -> (commands: Vec<Command>)
        requires
            well_formed(old(self)@),
        ensures
            (final(self)@, commands@) == toggle_request_step(old(self)@, toggle, on),
            well_formed(final(self)@),
    {
        let device = match self.selected_device() {
            Some(device) => device,
            None => return Vec::new(),
        };
        let index = toggle_index(toggle);
        let ghost before = self.toggles@;
        let send = self.toggles[index].request(on);
        proof {
            assert(toggle_views(self.toggles@) =~= toggle_views(before).update(index as int, self.toggles@[index as int]@));
        }
        match send {
            Some(value) => {
                let commands = vec![Command::SendMonitorToggle { device, toggle, on: value }];
                assert(commands@ =~= seq![Command::SendMonitorToggle { device, toggle, on: value }]);
                commands
            },
            None => Vec::new(),
        }
    }

    /// Records a monitor-toggle send result; stale completions are ignored.
    pub fn finish_monitor_toggle(&mut self, outcome: MonitorToggleOutcome) -> (commands: Vec<Command>)
        requires
            well_formed(old(self)@),
        ensures
            (final(self)@, commands@) == toggle_finish_step(old(self)@, outcome),
            well_formed(final(self)@),
    {
        let index = toggle_index(outcome.toggle);
        if !self.toggles[index].is_in_flight(outcome.on) {
            return Vec::new();
        }
        let result = match outcome.error {
            None => Ok(()),
            Some(error) => Err(error),
        };
        let ghost before = self.toggles@;
        let _ = self.toggles[index].finish(outcome.on, result);
        proof {
            assert(toggle_views(self.toggles@) =~= toggle_views(before).update(index as int, self.toggles@[index as int]@));
        }
        Vec::new()
    }

    /// Starts an input-level send, queuing behind one in flight.
    pub fn request_channel_level(&mut self, channel: u8, level: u32) -> (commands: Vec<Command>)
        ensures
            (final(self)@, commands@) == channel_level_request_step(old(self)@, channel, level),
    {
        let device = match self.selected_device() {
            Some(device) => device,
            None => return Vec::new(),
        };
        if channel as usize >= self.channels.len() {
            return Vec::new();
        }
        let index = channel as usize;
        let ghost before = self.channels@;
        let send = self.channels[index].level.request(level);
        proof {
            assert(channel_views(self.channels@) =~= channel_views(before).update(index as int, self.channels@[index as int]@));
        }
        match send {
            Some(value) => {
                let commands = vec![Command::SendChannelLevel { device, channel, level: value }];
                assert(commands@ =~= seq![Command::SendChannelLevel { device, channel, level: value }]);
                commands
            },
            None => Vec::new(),
        }
    }

    /// Records an input-level result and starts the queued level, if any.
    pub fn finish_channel_level(&mut self, outcome: ChannelLevelOutcome) -> (commands: Vec<Command>)
        ensures
            (final(self)@, commands@) == channel_level_finish_step(old(self)@, outcome),
    {
        let channel = outcome.channel;
        if channel as usize >= self.channels.len() {
            return Vec::new();
        }
        let index = channel as usize;
        if !self.channels[index].level.is_in_flight(outcome.level) {
            return Vec::new();
        }
        let result = match outcome.error {
            None => Ok(()),
            Some(error) => Err(error),
        };
        let ghost before = self.channels@;
        let next = self.channels[index].level.finish(outcome.level, result);
        proof {
            assert(channel_views(self.channels@) =~= channel_views(before).update(index as int, self.channels@[index as int]@));
        }
        match next {
            Some(level) => match self.selected_device() {
                Some(device) => {
                    let commands = vec![Command::SendChannelLevel { device, channel, level }];
                    assert(commands@ =~= seq![Command::SendChannelLevel { device, channel, level }]);
                    commands
                },
                None => {
                    let ghost finished = self.channels@;
                    self.channels[index].level.drop_pending();
                    proof {
                        assert(channel_views(self.channels@) =~= channel_views(before).update(index as int, self.channels@[index as int]@));
                    }
                    Vec::new()
                },
            },
            None => Vec::new(),
        }
    }

    /// Starts an input-polarity send; ignored while one is in flight.
    pub fn request_channel_polarity(&mut self, channel: u8, flipped: bool) -> (commands: Vec<Command>)
        ensures
            (final(self)@, commands@) == channel_polarity_request_step(old(self)@, channel, flipped),
    {
        let device = match self.selected_device() {
            Some(device) => device,
            None => return Vec::new(),
        };
        if channel as usize >= self.channels.len() {
            return Vec::new();
        }
        let index = channel as usize;
        let ghost before = self.channels@;
        let send = self.channels[index].polarity.request(flipped);
        proof {
            assert(channel_views(self.channels@) =~= channel_views(before).update(index as int, self.channels@[index as int]@));
        }
        match send {
            Some(value) => {
                let commands = vec![Command::SendChannelPolarity { device, channel, flipped: value }];
                assert(commands@ =~= seq![Command::SendChannelPolarity { device, channel, flipped: value }]);
                commands
            },
            None => Vec::new(),
        }
    }

    /// Records an input-polarity result; stale completions are ignored.
    pub fn finish_channel_polarity(&mut self, outcome: ChannelPolarityOutcome) -> (commands: Vec<Command>)
        ensures
            (final(self)@, commands@) == channel_polarity_finish_step(old(self)@, outcome),
    {
        let channel = outcome.channel;
        if channel as usize >= self.channels.len() {
            return Vec::new();
        }
        let index = channel as usize;
        if !self.channels[index].polarity.is_in_flight(outcome.flipped) {
            return Vec::new();
        }
        let result = match outcome.error {
            None => Ok(()),
            Some(error) => Err(error),
        };
        let ghost before = self.channels@;
        let _ = self.channels[index].polarity.finish(outcome.flipped, result);
        proof {
            assert(channel_views(self.channels@) =~= channel_views(before).update(index as int, self.channels@[index as int]@));
        }
        Vec::new()
    }

    /// Applies one message and returns the background work to start.
    pub fn update(&mut self, message: Message) -> (commands: Vec<Command>)
        requires
            well_formed(old(self)@),
        ensures
            (final(self)@, commands@) == update_step(old(self)@, message),
            well_formed(final(self)@),
    {
        match message {
            Message::Refresh => self.request_scan(),
            Message::DeviceSelected(location) => {
                self.selected = Some(location);
                self.adopt_selection()
            },
            Message::DeviceWatch(event) => self.device_watch_event(event),
            Message::DiscoveryFinished(result) => self.discovery_finished(result),
            Message::SpeakerVolumeChanged(level) => self.request_speaker_volume(level),
            Message::SpeakerVolumeFinished(outcome) => self.finish_speaker_volume(outcome),
            Message::HeadphoneVolumeChanged(level) => self.request_headphone_volume(level),
            Message::HeadphoneVolumeFinished(outcome) => self.finish_headphone_volume(outcome),
            Message::RouteSelected(route) => self.request_routing(route),
            Message::RouteReset(destination) => self.request_route_reset(destination),
            Message::RoutingFinished(outcome) => self.finish_routing(outcome),
            Message::DigitalOutputModeSelected(mode) => self.request_digital_output_mode(mode),
            Message::DigitalOutputModeFinished(outcome) => self.finish_digital_output_mode(outcome),
            Message::MonitorToggleChanged { toggle, on } => self.request_monitor_toggle(toggle, on),
            Message::MonitorToggleFinished(outcome) => self.finish_monitor_toggle(outcome),
            Message::ChannelLevelChanged { channel, level } => self.request_channel_level(channel, level),
            Message::ChannelLevelFinished(outcome) => self.finish_channel_level(outcome),
            Message::ChannelPolarityChanged { channel, flipped } => self.request_channel_polarity(channel, flipped),
            Message::ChannelPolarityFinished(outcome) => self.finish_channel_polarity(outcome),
            Message::FeedbackTick => self.request_feedback(),
            Message::FeedbackFinished(outcome) => self.finish_feedback(outcome),
        }
    }
}

} // verus!
