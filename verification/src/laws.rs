//! Properties that hold across the library's operations: what every step
//! of the application state machine keeps, how controls settle their sends,
//! and how discovery, routing, diagnostics, and the USB interface choice
//! relate.

use vstd::prelude::*;

use crate::controller::{
    AppView, ChannelLevelOutcome, Command, DigitalOutputModeOutcome, FeedbackOutcome,
    FeedbackResult, HeadphoneVolumeOutcome, Message, ScanResult, SpeakerVolumeOutcome,
    apply_toggle_readings, route_request_step,
    cadence_in, fresh_toggles, initial_view, route_failed, route_slot, selected_in, update_step,
    well_formed,
};
use crate::device::catalog::{AUDIENT_VENDOR_ID, DeviceModel, catalog, find_model};
use crate::device::control::{ControlOperation, operation_refusal};
use crate::device::diagnostics::{
    detected_line, detected_lines, diagnostics_block, diagnostics_header, unknown_line,
    unknown_lines,
};
use crate::device::discovery::{
    DetectedDevice, DeviceIdentity, DeviceLocation, DiscoveryReport, UnknownAudientDevice,
    supported_in, unknown_in,
};
use crate::device::protocol::MonitorToggle;
use crate::device::session::{
    USB_CLASS_APPLICATION_SPECIFIC, USB_CLASS_VENDOR_SPECIFIC, choose_control_interface,
    first_of_class,
};
use crate::mixer::ChannelView;
use crate::monitor::{
    ToggleControlView, VolumeControlView, clamp_level, fresh_volume, holds_level, is_finite_level,
    same_level, toggle_confirm, toggle_finish, volume_finish, volume_request,
};
use crate::routing::{
    DigitalOutputMode, InvalidRoute, OutputRouteView, Route, RouteControlView, RoutingDestination,
    RoutingOutput,
    RoutingScheme, RoutingSource, default_route, find_output, model_has_digital_output_mode,
    route_finish, route_validation,
};

verus! {

/// A poll tick never starts a second poll: while a poll owns the device
/// session, ticks are dropped without any change.
pub proof fn law_tick_is_dropped_while_polling(v: AppView)
    requires
        v.feedback_in_flight,
    ensures
        update_step(v, Message::FeedbackTick) == (v, Seq::<Command>::empty()),
{
}

/// A poll result from an attachment that is no longer the selected one
/// changes nothing.
pub proof fn law_stale_feedback_is_ignored(v: AppView, outcome: FeedbackOutcome)
    requires
        selected_in(v) matches Some(device) && device.location.spec_key() != outcome.location.spec_key(),
    ensures
        update_step(v, Message::FeedbackFinished(outcome)) == (v, Seq::<Command>::empty()),
{
}

/// Read-back toggle values never overwrite a toggle whose send is in flight.
pub proof fn lemma_readings_keep_pending_toggles(
    toggles: Seq<ToggleControlView>,
    readings: Seq<(MonitorToggle, bool)>,
    i: int,
)
    requires
        toggles.len() == 5,
        0 <= i < 5,
        toggles[i].in_flight is Some,
    ensures
        apply_toggle_readings(toggles, readings).len() == 5,
        apply_toggle_readings(toggles, readings)[i] == toggles[i],
    decreases readings.len(),
{
    if readings.len() > 0 {
        lemma_readings_keep_pending_toggles(toggles, readings.drop_last(), i);
        let (toggle, on) = readings.last();
        let earlier = apply_toggle_readings(toggles, readings.drop_last());
        assert(0 <= toggle.spec_index() < 5);
        if toggle.spec_index() == i {
            assert(toggle_confirm(earlier[i], on).0 == earlier[i]);
        }
    }
}

/// Hardware readback never overwrites a control with a send in flight: the
/// local operation wins until its send completes.
pub proof fn law_readback_keeps_pending_sends(v: AppView, outcome: FeedbackOutcome, i: int)
    requires
        well_formed(v),
        0 <= i < 5,
    ensures
        v.speaker.in_flight is Some ==> update_step(v, Message::FeedbackFinished(outcome)).0.speaker
            == v.speaker,
        v.toggles[i].in_flight is Some ==> update_step(v, Message::FeedbackFinished(outcome)).0.toggles[i]
            == v.toggles[i],
        v.digital_output_mode.in_flight is Some ==> update_step(v, Message::FeedbackFinished(outcome)).0.digital_output_mode
            == v.digital_output_mode,
{
    if v.toggles[i].in_flight is Some {
        match outcome.result {
            FeedbackResult::Read(snapshot) => {
                if snapshot.monitor is Some {
                    lemma_readings_keep_pending_toggles(v.toggles, snapshot.monitor.unwrap().toggles@, i);
                }
            },
            _ => {},
        }
    }
}

/// Readback of the current attachment is adopted as confirmed state: the
/// speaker slider moves to the level the device reports when no send is
/// pending.
pub proof fn law_readback_is_adopted_as_confirmed(v: AppView, outcome: FeedbackOutcome, level: u32)
    requires
        selected_in(v) matches Some(device) && device.location.spec_key() == outcome.location.spec_key(),
        outcome.read_monitor,
        outcome.result matches FeedbackResult::Read(snapshot) && snapshot.monitor matches Some(m)
            && m.speaker_level == Some(level),
        v.speaker.in_flight is None,
    ensures
        update_step(v, Message::FeedbackFinished(outcome)).0.speaker.confirmed == Some(level),
        update_step(v, Message::FeedbackFinished(outcome)).0.speaker.position == level,
        !update_step(v, Message::FeedbackFinished(outcome)).0.feedback_in_flight,
{
}

/// A failed poll of the current attachment blanks every meter (a frozen
/// meter presented as live would be a lie) but keeps the last confirmed
/// monitor values under the failure notice.
pub proof fn law_failed_poll_blanks_meters_only(v: AppView, outcome: FeedbackOutcome, error: String)
    requires
        selected_in(v) matches Some(device) && device.location.spec_key() == outcome.location.spec_key(),
        outcome.result == FeedbackResult::Failed(error),
    ensures
        ({
            let post = update_step(v, Message::FeedbackFinished(outcome)).0;
            &&& post.meters.len() == v.meters.len()
            &&& forall|k: int| 0 <= k < post.meters.len() ==> post.meters[k] is None
            &&& post.speaker == v.speaker
            &&& post.toggles == v.toggles
            &&& post.digital_output_mode == v.digital_output_mode
            &&& post.feedback_notice == Some(error@)
            &&& !post.feedback_in_flight
        }),
{
}

/// Losing the attachment (a scan that finds no supported device, or a
/// failed scan) drops every per-device value: nothing is kept to be shown
/// as confirmed before readback succeeds again.
pub proof fn law_disconnect_resets_to_unknown(v: AppView, result: ScanResult)
    requires
        match result {
            ScanResult::Found(report) => report.supported@.len() == 0,
            ScanResult::Failed(_) => true,
        },
    ensures
        ({
            let post = update_step(v, Message::DiscoveryFinished(result)).0;
            &&& post.selected is None
            &&& post.speaker == fresh_volume()
            &&& post.headphone == fresh_volume()
            &&& post.toggles == fresh_toggles()
            &&& post.routes.len() == 0
            &&& post.channels.len() == 0
            &&& post.meters.len() == 0
            &&& post.feedback_notice is None
            &&& !post.feedback_in_flight
            &&& selected_in(post) is None
        }),
{
}

/// Picking an attachment starts it from unknown: fresh controls and every
/// meter slot unknown, one per mixer input of that model.
pub proof fn law_selection_starts_unknown(v: AppView, location: DeviceLocation)
    ensures
        ({
            let post = update_step(v, Message::DeviceSelected(location)).0;
            &&& post.speaker == fresh_volume()
            &&& post.toggles == fresh_toggles()
            &&& post.feedback_notice is None
            &&& post.meters.len() == post.channels.len()
            &&& forall|k: int| 0 <= k < post.meters.len() ==> post.meters[k] is None
        }),
{
}

/// Scan requests made while a scan runs are coalesced into one follow-up:
/// no second scan starts.
pub proof fn law_scans_are_coalesced(v: AppView)
    requires
        v.scan_in_flight,
    ensures
        update_step(v, Message::Refresh) == (AppView { rescan_requested: true, ..v }, Seq::<Command>::empty()),
{
}

/// The attachment a control command writes to, if it is a control send.
pub open spec fn send_target(command: Command) -> Option<DetectedDevice> {
    match command {
        Command::SendSpeakerLevel { device, .. } => Some(device),
        Command::SendHeadphoneLevel { device, .. } => Some(device),
        Command::SendRoute { device, .. } => Some(device),
        Command::SendDigitalOutputMode { device, .. } => Some(device),
        Command::SendMonitorToggle { device, .. } => Some(device),
        Command::SendChannelLevel { device, .. } => Some(device),
        Command::SendChannelPolarity { device, .. } => Some(device),
        _ => None,
    }
}

/// Controls only ever write to the attachment selected when the message
/// arrived.
pub proof fn law_sends_target_the_selected_attachment(v: AppView, message: Message)
    ensures
        forall|k: int|
            0 <= k < update_step(v, message).1.len() && (#[trigger] send_target(update_step(v, message).1[k])) is Some
                ==> send_target(update_step(v, message).1[k]) == selected_in(v),
{
    match message {
        Message::Refresh => {},
        Message::DeviceSelected(_) => {},
        Message::DeviceWatch(_) => {},
        Message::DiscoveryFinished(_) => {},
        Message::SpeakerVolumeChanged(_) => {},
        Message::SpeakerVolumeFinished(_) => {},
        Message::HeadphoneVolumeChanged(_) => {},
        Message::HeadphoneVolumeFinished(_) => {},
        Message::RouteSelected(_) => {},
        Message::RouteReset(_) => {},
        Message::RoutingFinished(_) => {},
        Message::DigitalOutputModeSelected(_) => {},
        Message::DigitalOutputModeFinished(_) => {},
        Message::MonitorToggleChanged { .. } => {},
        Message::MonitorToggleFinished(_) => {},
        Message::ChannelLevelChanged { .. } => {},
        Message::ChannelLevelFinished(_) => {},
        Message::ChannelPolarityChanged { .. } => {},
        Message::ChannelPolarityFinished(_) => {},
        Message::FeedbackTick => {},
        Message::FeedbackFinished(_) => {},
    }
}

/// The attachment a command polls, if it is a poll.
pub open spec fn poll_target(command: Command) -> Option<DetectedDevice> {
    match command {
        Command::ReadFeedback { device, .. } => Some(device),
        _ => None,
    }
}

/// Every poll the state machine starts reads the attachment selected in the
/// resulting state, which has readable state, and marks the session as
/// owned by that poll.
pub proof fn law_polls_are_grounded(v: AppView, message: Message)
    ensures
        forall|k: int|
            0 <= k < update_step(v, message).1.len() && (#[trigger] poll_target(update_step(v, message).1[k])) is Some
                ==> {
                    &&& selected_in(update_step(v, message).0) == poll_target(update_step(v, message).1[k])
                    &&& cadence_in(update_step(v, message).0) is Some
                    &&& update_step(v, message).0.feedback_in_flight
                },
{
}

/// Restarting never invents a confirmed value: the application starts with
/// no attachment, no confirmed monitor value, and no meter.
pub proof fn law_start_confirms_nothing()
    ensures
        initial_view().selected is None,
        initial_view().speaker.confirmed is None,
        initial_view().headphone.confirmed is None,
        initial_view().digital_output_mode.confirmed is None,
        forall|i: int| 0 <= i < initial_view().toggles.len() ==> (#[trigger] initial_view().toggles[i]).confirmed is None,
        initial_view().toggles.len() == 5,
        initial_view().meters.len() == 0,
        initial_view().routes.len() == 0,
        initial_view().channels.len() == 0,
{
}

/// The reset action of an output pair is its documented default route, and
/// that route is always one the model accepts.
pub proof fn law_reset_is_an_accepted_route(device: DetectedDevice, destination: RoutingDestination)
    ensures
        default_route(device.model, destination) matches Ok(route) ==> {
            &&& route.destination == destination
            &&& route_validation(device.model, route) is Ok
            &&& operation_refusal(device, ControlOperation::OutputRoute(route)) is None
        },
{
    reveal_with_fuel(find_output, 4);
}

/// A route write needs the model's explicit routing map: without one every
/// route is refused before any USB I/O, whatever the product ID or output
/// count.
pub proof fn law_routing_requires_a_capability_map(device: DetectedDevice, route: Route)
    requires
        device.model.routing is None,
    ensures
        route_validation(device.model, route) == Err::<RoutingOutput, InvalidRoute>(InvalidRoute::RoutingUnavailable),
        operation_refusal(device, ControlOperation::OutputRoute(route)) is Some,
{
}

proof fn lemma_first_of_class(interfaces: Seq<(u8, u8)>, class: u8)
    ensures
        first_of_class(interfaces, class) matches Some(number) ==> exists|k: int|
            0 <= k < interfaces.len() && #[trigger] interfaces[k] == (number, class),
        (exists|k: int| 0 <= k < interfaces.len() && (#[trigger] interfaces[k]).1 == class)
            ==> first_of_class(interfaces, class) is Some,
    decreases interfaces.len(),
{
    if interfaces.len() > 0 {
        let rest = interfaces.drop_first();
        lemma_first_of_class(rest, class);
        if first_of_class(interfaces, class) is Some && interfaces[0].1 != class {
            let number = first_of_class(rest, class).unwrap();
            let k = choose|k: int| 0 <= k < rest.len() && #[trigger] rest[k] == (number, class);
            assert(interfaces[k + 1] == (number, class));
        }
        if exists|k: int| 0 <= k < interfaces.len() && (#[trigger] interfaces[k]).1 == class {
            let k = choose|k: int| 0 <= k < interfaces.len() && (#[trigger] interfaces[k]).1 == class;
            if k > 0 && interfaces[0].1 != class {
                assert(rest[k - 1].1 == class);
            }
        }
    }
}

/// The control interface chosen is never an audio interface: it is one of
/// the device's application-specific (0xfe) or vendor-specific (0xff)
/// interfaces, an application-specific one is preferred whenever present,
/// and a device with neither gets no control interface at all.
pub proof fn law_control_interface_is_never_audio(interfaces: Seq<(u8, u8)>)
    ensures
        choose_control_interface(interfaces) matches Some(control) ==> exists|k: int|
            0 <= k < interfaces.len() && (#[trigger] interfaces[k]).0 == control.number && (
            (control.kind is ApplicationSpecific && interfaces[k].1 == USB_CLASS_APPLICATION_SPECIFIC)
                || (control.kind is VendorSpecific && interfaces[k].1 == USB_CLASS_VENDOR_SPECIFIC)),
        (exists|k: int| 0 <= k < interfaces.len() && (#[trigger] interfaces[k]).1 == USB_CLASS_APPLICATION_SPECIFIC)
            ==> (choose_control_interface(interfaces) matches Some(control) && control.kind is ApplicationSpecific),
        choose_control_interface(interfaces) is None <==> forall|k: int|
            0 <= k < interfaces.len() ==> (#[trigger] interfaces[k]).1 != USB_CLASS_APPLICATION_SPECIFIC
                && interfaces[k].1 != USB_CLASS_VENDOR_SPECIFIC,
{
    lemma_first_of_class(interfaces, USB_CLASS_APPLICATION_SPECIFIC);
    lemma_first_of_class(interfaces, USB_CLASS_VENDOR_SPECIFIC);
}

/// The number of Audient identities among `ids`.
pub open spec fn audient_count(ids: Seq<DeviceIdentity>) -> nat
    decreases ids.len(),
{
    if ids.len() == 0 {
        0
    } else {
        audient_count(ids.drop_last()) + if ids.last().vendor_id == AUDIENT_VENDOR_ID {
            1nat
        } else {
            0nat
        }
    }
}

proof fn lemma_found_model_is_cataloged(models: Seq<DeviceModel>, product_id: u16)
    ensures
        find_model(models, product_id) matches Some(model) ==> models.contains(model)
            && model.product_id == product_id,
    decreases models.len(),
{
    if models.len() > 0 && models[0].product_id != product_id {
        lemma_found_model_is_cataloged(models.drop_first(), product_id);
        if find_model(models, product_id) is Some {
            let model = find_model(models, product_id).unwrap();
            let k = choose|k: int| 0 <= k < models.drop_first().len() && models.drop_first()[k] == model;
            assert(models[k + 1] == model);
        }
    }
}

/// Discovery sorts every Audient identity into exactly one of the two
/// lists and ignores every other vendor; each supported device carries a
/// catalog model with its own product ID.
pub proof fn law_discovery_partitions_audient_devices(ids: Seq<DeviceIdentity>)
    ensures
        supported_in(ids).len() + unknown_in(ids).len() == audient_count(ids),
        forall|i: int| 0 <= i < supported_in(ids).len() ==> catalog().contains(
            (#[trigger] supported_in(ids)[i]).model,
        ),
    decreases ids.len(),
{
    if ids.len() > 0 {
        law_discovery_partitions_audient_devices(ids.drop_last());
        lemma_found_model_is_cataloged(catalog(), ids.last().product_id);
        let earlier = supported_in(ids.drop_last());
        assert forall|i: int| 0 <= i < supported_in(ids).len() implies catalog().contains(
            (#[trigger] supported_in(ids)[i]).model,
        ) by {
            if i < earlier.len() {
                assert(supported_in(ids)[i] == earlier[i]);
            }
        }
    }
}

/// Whether two detected-device lists agree on everything the diagnostics
/// block shows: model, bus position, and control interface.
pub open spec fn same_shown_devices(a: Seq<DetectedDevice>, b: Seq<DetectedDevice>) -> bool {
    &&& a.len() == b.len()
    &&& forall|i: int| 0 <= i < a.len() ==> {
        &&& (#[trigger] a[i]).model == b[i].model
        &&& a[i].location == b[i].location
        &&& a[i].control_interface == b[i].control_interface
    }
}

/// Whether two unknown-device lists agree on their product IDs.
pub open spec fn same_unknown_ids(a: Seq<UnknownAudientDevice>, b: Seq<UnknownAudientDevice>) -> bool {
    a.len() == b.len() && forall|i: int| 0 <= i < a.len() ==> (#[trigger] a[i]).product_id == b[i].product_id
}

proof fn lemma_detected_lines_ignore_names(a: Seq<DetectedDevice>, b: Seq<DetectedDevice>)
    requires
        same_shown_devices(a, b),
    ensures
        detected_lines(a) == detected_lines(b),
    decreases a.len(),
{
    if a.len() > 0 {
        assert(same_shown_devices(a.drop_last(), b.drop_last()));
        lemma_detected_lines_ignore_names(a.drop_last(), b.drop_last());
        assert(a.last().model == b.last().model);
        assert(a.last().location == b.last().location);
        assert(detected_line(a.last()) == detected_line(b.last()));
    }
}

proof fn lemma_unknown_lines_ignore_names(a: Seq<UnknownAudientDevice>, b: Seq<UnknownAudientDevice>)
    requires
        same_unknown_ids(a, b),
    ensures
        unknown_lines(a) == unknown_lines(b),
    decreases a.len(),
{
    if a.len() > 0 {
        assert(same_unknown_ids(a.drop_last(), b.drop_last()));
        lemma_unknown_lines_ignore_names(a.drop_last(), b.drop_last());
        assert(a.last().product_id == b.last().product_id);
    }
}

/// The diagnostics block never carries the product strings the devices
/// report: two reports that differ only in those strings give the same
/// block.
pub proof fn law_diagnostics_omit_reported_names(a: DiscoveryReport, b: DiscoveryReport)
    requires
        same_shown_devices(a.supported@, b.supported@),
        same_unknown_ids(a.unsupported@, b.unsupported@),
    ensures
        diagnostics_block(a) == diagnostics_block(b),
{
    lemma_detected_lines_ignore_names(a.supported@, b.supported@);
    lemma_unknown_lines_ignore_names(a.unsupported@, b.unsupported@);
}

/// Whether no input strip shows a confirmed level or polarity.
pub open spec fn strips_unconfirmed(channels: Seq<ChannelView>) -> bool {
    forall|k: int| 0 <= k < channels.len() ==> {
        &&& (#[trigger] channels[k]).level.confirmed is None
        &&& channels[k].polarity.confirmed is None
    }
}

/// Headphone level, input levels, and input polarity are write-only: no
/// message ever marks them confirmed, so these controls can only show what
/// was last sent or that nothing is known.
pub proof fn law_write_only_controls_are_never_confirmed(v: AppView, message: Message)
    requires
        v.headphone.confirmed is None,
        strips_unconfirmed(v.channels),
    ensures
        update_step(v, message).0.headphone.confirmed is None,
        strips_unconfirmed(update_step(v, message).0.channels),
{
    let post = update_step(v, message).0;
    match message {
        Message::ChannelLevelChanged { channel, .. } => {
            assert forall|k: int| 0 <= k < post.channels.len() implies {
                &&& (#[trigger] post.channels[k]).level.confirmed is None
                &&& post.channels[k].polarity.confirmed is None
            } by {
                assert(k != channel ==> post.channels[k] == v.channels[k]);
            }
        },
        Message::ChannelLevelFinished(outcome) => {
            assert forall|k: int| 0 <= k < post.channels.len() implies {
                &&& (#[trigger] post.channels[k]).level.confirmed is None
                &&& post.channels[k].polarity.confirmed is None
            } by {
                assert(k != outcome.channel ==> post.channels[k] == v.channels[k]);
            }
        },
        Message::ChannelPolarityChanged { channel, .. } => {
            assert forall|k: int| 0 <= k < post.channels.len() implies {
                &&& (#[trigger] post.channels[k]).level.confirmed is None
                &&& post.channels[k].polarity.confirmed is None
            } by {
                assert(k != channel ==> post.channels[k] == v.channels[k]);
            }
        },
        Message::ChannelPolarityFinished(outcome) => {
            assert forall|k: int| 0 <= k < post.channels.len() implies {
                &&& (#[trigger] post.channels[k]).level.confirmed is None
                &&& post.channels[k].polarity.confirmed is None
            } by {
                assert(k != outcome.channel ==> post.channels[k] == v.channels[k]);
            }
        },
        _ => {},
    }
}

/// While a level is sending, requests only move the slider and replace the
/// waiting level: when the send completes, the newest request starts next
/// (unless it equals the level just completed) and nothing in between is
/// ever sent.
pub proof fn law_newest_level_is_sent_next(
    v: VolumeControlView,
    first: u32,
    second: u32,
    result: Result<(), Seq<char>>,
)
    requires
        v.in_flight matches Some(sending) && is_finite_level(sending),
        is_finite_level(first),
        is_finite_level(second),
    ensures
        ({
            let sending = v.in_flight.unwrap();
            let (after_first, first_send) = volume_request(v, first);
            let (after_second, second_send) = volume_request(after_first, second);
            let (done, next) = volume_finish(after_second, sending, result);
            &&& first_send is None
            &&& second_send is None
            &&& after_second.position == clamp_level(second)
            &&& next == if same_level(clamp_level(second), sending) {
                None::<u32>
            } else {
                Some(clamp_level(second))
            }
            &&& done.in_flight == next
            &&& done.queued is None
        }),
{
}

/// A completion that does not match the send in flight (it belongs to a
/// control that was reset since, or to another request) changes nothing.
pub proof fn law_stale_completions_change_nothing(
    volume: VolumeControlView,
    level: u32,
    toggle: ToggleControlView,
    on: bool,
    route: RouteControlView,
    source: RoutingSource,
    result: Result<(), Seq<char>>,
)
    ensures
        !holds_level(volume.in_flight, level) ==> volume_finish(volume, level, result) == (volume, None::<u32>),
        toggle.in_flight != Some(on) ==> toggle_finish(toggle, on, result) == (toggle, false),
        route.in_flight != Some(source) ==> route_finish(route, source, result) == (route, false),
{
}

/// Choosing the source an output already requested sends nothing and
/// changes nothing, unless that source's last send failed: then the same
/// choice is an explicit retry.
pub proof fn law_reselecting_a_route_is_a_no_op_unless_it_failed(v: AppView, route: Route, i: int)
    requires
        selected_in(v) is Some,
        route_slot(v.routes, route.destination) == Some(i),
        v.routes[i].control.requested == Some(route.source),
    ensures
        !route_failed(v.routes[i].control) ==> update_step(v, Message::RouteSelected(route)) == (v, Seq::<Command>::empty()),
        route_failed(v.routes[i].control) ==> update_step(v, Message::RouteSelected(route)).1 == seq![
            Command::SendRoute { device: selected_in(v).unwrap(), route },
        ],
{
}

/// Whether a send command agrees with the state it leaves behind: the value
/// it writes is the one the control it belongs to now has in flight.
pub open spec fn send_matches_state(post: AppView, command: Command) -> bool {
    match command {
        Command::SendSpeakerLevel { level, .. } => post.speaker.in_flight == Some(level),
        Command::SendHeadphoneLevel { level, .. } => post.headphone.in_flight == Some(level),
        Command::SendChannelLevel { channel, level, .. } => {
            &&& (channel as int) < post.channels.len()
            &&& post.channels[channel as int].level.in_flight == Some(level)
        },
        Command::SendChannelPolarity { channel, flipped, .. } => {
            &&& (channel as int) < post.channels.len()
            &&& post.channels[channel as int].polarity.in_flight == Some(flipped)
        },
        Command::SendMonitorToggle { toggle, on, .. } => post.toggles[toggle.spec_index()].in_flight
            == Some(on),
        Command::SendDigitalOutputMode { mode, .. } => post.digital_output_mode.in_flight == Some(
            mode is Adat,
        ),
        Command::SendRoute { route, .. } => exists|i: int|
            0 <= i < post.routes.len() && (#[trigger] post.routes[i]).destination == route.destination
                && post.routes[i].control.in_flight == Some(route.source),
        _ => true,
    }
}

proof fn lemma_route_slot_found(routes: Seq<OutputRouteView>, destination: RoutingDestination)
    ensures
        route_slot(routes, destination) matches Some(i) ==> 0 <= i < routes.len()
            && routes[i].destination == destination,
    decreases routes.len(),
{
    if routes.len() > 0 && routes[0].destination != destination {
        lemma_route_slot_found(routes.drop_first(), destination);
        if route_slot(routes, destination) is Some {
            let i = route_slot(routes, destination).unwrap();
            assert(routes[i] == routes.drop_first()[i - 1]);
        }
    }
}

proof fn lemma_route_request_matches(v: AppView, route: Route)
    ensures
        forall|k: int| 0 <= k < route_request_step(v, route).1.len() ==> send_matches_state(
            route_request_step(v, route).0,
            #[trigger] route_request_step(v, route).1[k],
        ),
{
    lemma_route_slot_found(v.routes, route.destination);
    let (post, commands) = route_request_step(v, route);
    if commands.len() > 0 {
        let i = route_slot(v.routes, route.destination).unwrap();
        assert(post.routes[i].destination == route.destination);
        assert(post.routes[i].control.in_flight == Some(route.source));
        assert(send_matches_state(post, commands[0]));
    }
}

/// Every value a step sends is the value the matching control has in flight
/// afterwards: a queued headphone level goes out as a headphone send, a
/// completed fader send starts the strip's queued level, and each toggle,
/// route, or optical format sent is the one recorded as sending. A send that
/// wrote anything else would leave its completion looking stale and the
/// device out of step with the panel.
pub proof fn law_sends_carry_the_value_in_flight(v: AppView, message: Message)
    requires
        well_formed(v),
    ensures
        forall|k: int| 0 <= k < update_step(v, message).1.len() ==> send_matches_state(
            update_step(v, message).0,
            #[trigger] update_step(v, message).1[k],
        ),
{
    let (post, commands) = update_step(v, message);
    match message {
        Message::RouteSelected(route) => {
            lemma_route_request_matches(v, route);
        },
        Message::RouteReset(destination) => {
            match selected_in(v) {
                Some(device) => match default_route(device.model, destination) {
                    Ok(route) => lemma_route_request_matches(v, route),
                    Err(_) => {},
                },
                None => {},
            }
        },
        Message::ChannelLevelChanged { channel, .. } => {
            if commands.len() > 0 {
                assert(post.channels[channel as int] == post.channels[channel as int]);
                assert(send_matches_state(post, commands[0]));
            }
        },
        Message::ChannelLevelFinished(outcome) => {
            if commands.len() > 0 {
                assert(send_matches_state(post, commands[0]));
            }
        },
        Message::ChannelPolarityChanged { channel, .. } => {
            if commands.len() > 0 {
                assert(send_matches_state(post, commands[0]));
            }
        },
        Message::MonitorToggleChanged { toggle, .. } => {
            if commands.len() > 0 {
                assert(send_matches_state(post, commands[0]));
            }
        },
        _ => {},
    }
}

/// A headphone completion only ever starts headphone sends, and when a
/// different level was requested while sending, it starts exactly that
/// level on the selected attachment.
pub proof fn law_headphone_completion_sends_the_queued_level(v: AppView, outcome: HeadphoneVolumeOutcome)
    ensures
        forall|k: int| 0 <= k < update_step(v, Message::HeadphoneVolumeFinished(outcome)).1.len()
            ==> (#[trigger] update_step(v, Message::HeadphoneVolumeFinished(outcome)).1[k]) is SendHeadphoneLevel,
        ({
            &&& selected_in(v) is Some
            &&& v.headphone.in_flight matches Some(sending) && same_level(sending, outcome.level)
            &&& v.headphone.queued matches Some(queued) && !same_level(queued, outcome.level)
        }) ==> update_step(v, Message::HeadphoneVolumeFinished(outcome)).1 == seq![
            Command::SendHeadphoneLevel { device: selected_in(v).unwrap(), level: v.headphone.queued.unwrap() },
        ],
{
}

/// The same for the speaker: its completion only starts speaker sends, and
/// starts the level requested while sending.
pub proof fn law_speaker_completion_sends_the_queued_level(v: AppView, outcome: SpeakerVolumeOutcome)
    ensures
        forall|k: int| 0 <= k < update_step(v, Message::SpeakerVolumeFinished(outcome)).1.len()
            ==> (#[trigger] update_step(v, Message::SpeakerVolumeFinished(outcome)).1[k]) is SendSpeakerLevel,
        ({
            &&& selected_in(v) is Some
            &&& v.speaker.in_flight matches Some(sending) && same_level(sending, outcome.level)
            &&& v.speaker.queued matches Some(queued) && !same_level(queued, outcome.level)
        }) ==> update_step(v, Message::SpeakerVolumeFinished(outcome)).1 == seq![
            Command::SendSpeakerLevel { device: selected_in(v).unwrap(), level: v.speaker.queued.unwrap() },
        ],
{
}

/// A fader completion starts the newest level requested for that strip
/// while it was sending, on the same strip of the selected attachment.
pub proof fn law_fader_completion_sends_the_queued_level(v: AppView, outcome: ChannelLevelOutcome)
    requires
        (outcome.channel as int) < v.channels.len(),
        selected_in(v) is Some,
        v.channels[outcome.channel as int].level.in_flight matches Some(sending) && same_level(
            sending,
            outcome.level,
        ),
        v.channels[outcome.channel as int].level.queued matches Some(queued) && !same_level(
            queued,
            outcome.level,
        ),
    ensures
        update_step(v, Message::ChannelLevelFinished(outcome)).1 == seq![
            Command::SendChannelLevel {
                device: selected_in(v).unwrap(),
                channel: outcome.channel,
                level: v.channels[outcome.channel as int].level.queued.unwrap(),
            },
        ],
        update_step(v, Message::ChannelLevelFinished(outcome)).0.channels[outcome.channel as int].level.in_flight
            == v.channels[outcome.channel as int].level.queued,
{
}

/// The optical format is held as "ADAT is on": a read-back format is
/// adopted as confirmed ADAT-on exactly when the device reports ADAT, and a
/// send of a format records the same value, so readback and a completed
/// send of one format agree.
pub proof fn law_optical_format_reads_as_adat_on(
    v: AppView,
    outcome: FeedbackOutcome,
    mode: DigitalOutputMode,
)
    ensures
        ({
            &&& selected_in(v) matches Some(device) && device.location.spec_key() == outcome.location.spec_key()
            &&& outcome.read_monitor
            &&& outcome.result matches FeedbackResult::Read(snapshot) && snapshot.monitor matches Some(m)
                && m.digital_output_mode == Some(mode)
            &&& v.digital_output_mode.in_flight is None
        }) ==> {
            &&& update_step(v, Message::FeedbackFinished(outcome)).0.digital_output_mode.confirmed == Some(mode is Adat)
            &&& update_step(v, Message::FeedbackFinished(outcome)).0.digital_output_mode.position == (mode is Adat)
        },
        ({
            &&& selected_in(v) matches Some(device) && device.control_interface is Some
                && model_has_digital_output_mode(device.model)
            &&& v.digital_output_mode.in_flight is None
        }) ==> {
            let (sending, commands) = update_step(v, Message::DigitalOutputModeSelected(mode));
            let done = update_step(
                sending,
                Message::DigitalOutputModeFinished(DigitalOutputModeOutcome { mode, error: None }),
            ).0;
            &&& commands == seq![Command::SendDigitalOutputMode { device: selected_in(v).unwrap(), mode }]
            &&& sending.digital_output_mode.in_flight == Some(mode is Adat)
            &&& done.digital_output_mode.last_sent == Some(mode is Adat)
            &&& done.digital_output_mode.in_flight is None
        },
{
}

/// The reset action sends each output's documented default: on the iD14
/// table Main Mix, DAW Mix, and Cue A for the main speakers, line outputs
/// 3/4, and headphones; on the iD24 formula Main Mix, Alt Speaker, and Cue A.
pub proof fn law_reset_sends_the_documented_default(model: DeviceModel)
    ensures
        model.routing is Some ==> {
            &&& default_route(model, RoutingDestination::MainSpeakers) == Ok::<Route, InvalidRoute>(
                Route { destination: RoutingDestination::MainSpeakers, source: RoutingSource::MainMix },
            )
            &&& default_route(model, RoutingDestination::Headphones) == Ok::<Route, InvalidRoute>(
                Route { destination: RoutingDestination::Headphones, source: RoutingSource::CueA },
            )
        },
        model.routing == Some(RoutingScheme::Id14Table) ==> default_route(model, RoutingDestination::Outputs3And4)
            == Ok::<Route, InvalidRoute>(
            Route { destination: RoutingDestination::Outputs3And4, source: RoutingSource::DawMix },
        ),
        model.routing == Some(RoutingScheme::Id24Formula) ==> default_route(model, RoutingDestination::Outputs3And4)
            == Ok::<Route, InvalidRoute>(
            Route { destination: RoutingDestination::Outputs3And4, source: RoutingSource::AltSpeaker },
        ),
{
    reveal_with_fuel(find_output, 4);
}

/// The "nothing detected" line of the diagnostics block.
pub open spec fn nothing_detected_line() -> Seq<char> {
    "- no Audient interfaces detected\n"@
}

/// Whether `text` ends with `tail`.
pub open spec fn ends_with(text: Seq<char>, tail: Seq<char>) -> bool {
    tail.len() <= text.len() && text.subrange(text.len() - tail.len(), text.len() as int) == tail
}

/// The diagnostics block says nothing was detected only when the scan found
/// no Audient device at all: then it is the header and that line alone.
/// Otherwise it is the header followed by one line per detected device and
/// one per unknown device, ending with the last device's line.
pub proof fn law_diagnostics_report_nothing_only_for_an_empty_scan(report: DiscoveryReport)
    ensures
        report.supported@.len() == 0 && report.unsupported@.len() == 0 ==> diagnostics_block(report)
            == diagnostics_header() + nothing_detected_line(),
        report.supported@.len() > 0 || report.unsupported@.len() > 0 ==> diagnostics_block(report)
            == diagnostics_header() + detected_lines(report.supported@) + unknown_lines(report.unsupported@),
        report.unsupported@.len() > 0 ==> ends_with(
            diagnostics_block(report),
            unknown_line(report.unsupported@.last()),
        ),
        report.unsupported@.len() == 0 && report.supported@.len() > 0 ==> ends_with(
            diagnostics_block(report),
            detected_line(report.supported@.last()),
        ),
{
    let block = diagnostics_block(report);
    if report.unsupported@.len() > 0 {
        let before = diagnostics_header() + detected_lines(report.supported@) + unknown_lines(
            report.unsupported@.drop_last(),
        );
        assert(block =~= before + unknown_line(report.unsupported@.last()));
        assert(block.subrange(block.len() - unknown_line(report.unsupported@.last()).len(), block.len() as int)
            =~= unknown_line(report.unsupported@.last()));
    } else if report.supported@.len() > 0 {
        assert(unknown_lines(report.unsupported@) =~= Seq::<char>::empty());
        let before = diagnostics_header() + detected_lines(report.supported@.drop_last());
        assert(block =~= before + detected_line(report.supported@.last()));
        assert(block.subrange(block.len() - detected_line(report.supported@.last()).len(), block.len() as int)
            =~= detected_line(report.supported@.last()));
    } else {
        assert(detected_lines(report.supported@) =~= Seq::<char>::empty());
        assert(unknown_lines(report.unsupported@) =~= Seq::<char>::empty());
        assert(block =~= diagnostics_header() + nothing_detected_line());
    }
}

} // verus!
