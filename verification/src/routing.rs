//! Capability-driven output routing and honest write-only operation state.
//!
//! Audient routing assigns one named mix source to each physical stereo
//! output pair. The device has no route-off value: resetting a route means
//! sending that output pair's documented default source.

use vstd::prelude::*;

use crate::device::{DetectedDevice, DeviceModel};
use crate::monitor::error_view;
use crate::text::{decimal_digits, push_decimal};

verus! {

/// A source that a physical output pair can play.
#[derive(Clone, Copy, Debug, PartialEq, Eq, Structural)]
pub enum RoutingSource {
    MainMix,
    AltSpeaker,
    CueA,
    CueB,
    DawMix,
}

impl RoutingSource {
    /// The dropdown label of this source.
    pub open spec fn spec_label(self) -> Seq<char> {
        match self {
            RoutingSource::MainMix => "Main Mix"@,
            RoutingSource::AltSpeaker => "Alt Speaker"@,
            RoutingSource::CueA => "Cue A"@,
            RoutingSource::CueB => "Cue B"@,
            RoutingSource::DawMix => "DAW Mix"@,
        }
    }

    /// Dropdown label of this source.
    pub fn label(self) -> (text: &'static str)
        ensures
            text@ == self.spec_label(),
    {
        match self {
            RoutingSource::MainMix => "Main Mix",
            RoutingSource::AltSpeaker => "Alt Speaker",
            RoutingSource::CueA => "Cue A",
            RoutingSource::CueB => "Cue B",
            RoutingSource::DawMix => "DAW Mix",
        }
    }
}

/// One channel in an eight-channel ADAT stream, numbered as users see it.
#[derive(Clone, Copy, Debug, PartialEq, Eq, Structural)]
pub struct AdatChannel(u8);

impl AdatChannel {
    #[verifier::type_invariant]
    spec fn in_range(self) -> bool {
        1 <= self.0 <= 8
    }

    /// The user-facing channel number.
    pub closed spec fn spec_number(self) -> u8 {
        self.0
    }

    /// Creates an ADAT channel in the user-facing range `1..=8`.
    pub fn new(channel: u8) -> (adat: Option<Self>)
        ensures
            adat is Some <==> 1 <= channel <= 8,
            adat matches Some(a) ==> a.spec_number() == channel,
    {
        if channel >= 1 && channel <= 8 {
            Some(AdatChannel(channel))
        } else {
            None
        }
    }

    /// The user-facing channel number, always in `1..=8`.
    pub fn number(self) -> (n: u8)
        ensures
            n == self.spec_number(),
            1 <= n <= 8,
    {
        proof {
            use_type_invariant(&self);
        }
        self.0
    }
}

/// A model's digital output relationship, independent of USB route indexes.
#[derive(Clone, Copy, Debug, PartialEq, Eq, Structural)]
pub enum DigitalOutput {
    /// The first stereo pair carried by an ADAT optical output.
    AdatPair { left: AdatChannel, right: AdatChannel },
}

/// Optical output framing supported by the evidenced iD24 request.
#[derive(Clone, Copy, Debug, PartialEq, Eq, Structural)]
pub enum DigitalOutputMode {
    Adat,
    Spdif,
}

impl DigitalOutputMode {
    /// The label of this mode.
    pub open spec fn spec_label(self) -> Seq<char> {
        match self {
            DigitalOutputMode::Adat => "ADAT"@,
            DigitalOutputMode::Spdif => "S/PDIF"@,
        }
    }

    /// Label of this mode.
    pub fn label(self) -> (text: &'static str)
        ensures
            text@ == self.spec_label(),
    {
        match self {
            DigitalOutputMode::Adat => "ADAT",
            DigitalOutputMode::Spdif => "S/PDIF",
        }
    }

    /// The mode as a two-state control value: ADAT is `true`.
    pub fn as_toggle(self) -> (on: bool)
        ensures
            on == (self is Adat),
    {
        matches!(self, DigitalOutputMode::Adat)
    }
}

/// A physical stereo output pair that receives a routing source.
#[derive(Clone, Copy, Debug, PartialEq, Eq, Structural)]
pub enum RoutingDestination {
    MainSpeakers,
    Outputs3And4,
    Headphones,
    Digital(DigitalOutput),
}

impl RoutingDestination {
    /// The label of this destination.
    pub open spec fn spec_label(self) -> Seq<char> {
        match self {
            RoutingDestination::MainSpeakers => "Main speakers · Outputs 1/2"@,
            RoutingDestination::Outputs3And4 => "Line outputs · Outputs 3/4"@,
            RoutingDestination::Headphones => "Headphones"@,
            RoutingDestination::Digital(DigitalOutput::AdatPair { left, right }) => "ADAT outputs "@
                + decimal_digits(left.spec_number() as nat) + "/"@ + decimal_digits(
                right.spec_number() as nat,
            ),
        }
    }

    /// Label of this destination.
    pub fn label(self) -> (text: String)
        ensures
            text@ == self.spec_label(),
    {
        match self {
            RoutingDestination::MainSpeakers => "Main speakers · Outputs 1/2".to_owned(),
            RoutingDestination::Outputs3And4 => "Line outputs · Outputs 3/4".to_owned(),
            RoutingDestination::Headphones => "Headphones".to_owned(),
            RoutingDestination::Digital(DigitalOutput::AdatPair { left, right }) => {
                let mut text = "ADAT outputs ".to_owned();
                push_decimal(&mut text, left.number() as u64);
                text.append("/");
                push_decimal(&mut text, right.number() as u64);
                text
            },
        }
    }
}

/// Known wire-code family for a model.
#[derive(Clone, Copy, Debug, PartialEq, Eq, Structural)]
pub enum RoutingScheme {
    /// The six-output table, verified externally on an iD14 MKII.
    Id14Table,
    /// The iD24 formula decoded from the official application.
    Id24Formula,
}

/// One routable output pair and its safe reset source.
#[derive(Clone, Copy, Debug, PartialEq, Eq)]
pub struct RoutingOutput {
    pub destination: RoutingDestination,
    /// Actual routing-unit output channels: protocol identity, not UI rows.
    pub channels: [u8; 2],
    pub default_source: RoutingSource,
}

/// The sources a scheme can route.
pub open spec fn scheme_sources(scheme: RoutingScheme) -> Seq<RoutingSource> {
    match scheme {
        RoutingScheme::Id14Table => seq![
            RoutingSource::MainMix,
            RoutingSource::CueA,
            RoutingSource::CueB,
            RoutingSource::DawMix,
        ],
        RoutingScheme::Id24Formula => seq![
            RoutingSource::MainMix,
            RoutingSource::AltSpeaker,
            RoutingSource::CueA,
            RoutingSource::CueB,
            RoutingSource::DawMix,
        ],
    }
}

/// The routable output pairs of a scheme, with their reset sources.
pub open spec fn scheme_outputs(scheme: RoutingScheme) -> Seq<RoutingOutput> {
    seq![
        RoutingOutput {
            destination: RoutingDestination::MainSpeakers,
            channels: [0, 1],
            default_source: RoutingSource::MainMix,
        },
        RoutingOutput {
            destination: RoutingDestination::Outputs3And4,
            channels: [2, 3],
            default_source: match scheme {
                RoutingScheme::Id14Table => RoutingSource::DawMix,
                RoutingScheme::Id24Formula => RoutingSource::AltSpeaker,
            },
        },
        RoutingOutput {
            destination: RoutingDestination::Headphones,
            channels: [4, 5],
            default_source: RoutingSource::CueA,
        },
    ]
}

/// Whether a scheme's optical-output mode request is evidenced.
pub open spec fn scheme_has_digital_output_mode(scheme: RoutingScheme) -> bool {
    scheme is Id24Formula
}

/// Whether `model` has an evidenced optical-output mode request.
pub open spec fn model_has_digital_output_mode(model: DeviceModel) -> bool {
    match model.routing {
        Some(scheme) => scheme_has_digital_output_mode(scheme),
        None => false,
    }
}

/// The first output of `outputs` that serves `destination`.
pub open spec fn find_output(outputs: Seq<RoutingOutput>, destination: RoutingDestination) -> Option<
    RoutingOutput,
>
    decreases outputs.len(),
{
    if outputs.len() == 0 {
        None
    } else if outputs[0].destination == destination {
        Some(outputs[0])
    } else {
        find_output(outputs.drop_first(), destination)
    }
}

/// Static, per-model routing facts.
#[derive(Clone, Debug, PartialEq, Eq)]
pub struct RoutingCapabilities {
    pub scheme: RoutingScheme,
    pub sources: Vec<RoutingSource>,
    pub outputs: Vec<RoutingOutput>,
    /// Whether the optical output's ADAT/S/PDIF mode request is evidenced.
    pub digital_output_mode: bool,
}

impl RoutingCapabilities {
    /// These capabilities are exactly the tables of `scheme`.
    pub open spec fn describes(&self, scheme: RoutingScheme) -> bool {
        &&& self.scheme == scheme
        &&& self.sources@ == scheme_sources(scheme)
        &&& self.outputs@ == scheme_outputs(scheme)
        &&& self.digital_output_mode == scheme_has_digital_output_mode(scheme)
    }

    /// Builds the capability tables of a routing scheme.
    pub fn for_scheme(scheme: RoutingScheme) -> (capabilities: Self)
        ensures
            capabilities.describes(scheme),
    {
        let mut sources = Vec::new();
        sources.push(RoutingSource::MainMix);
        if matches!(scheme, RoutingScheme::Id24Formula) {
            sources.push(RoutingSource::AltSpeaker);
        }
        sources.push(RoutingSource::CueA);
        sources.push(RoutingSource::CueB);
        sources.push(RoutingSource::DawMix);
        let line_default = match scheme {
            RoutingScheme::Id14Table => RoutingSource::DawMix,
            RoutingScheme::Id24Formula => RoutingSource::AltSpeaker,
        };
        let mut outputs = Vec::new();
        outputs.push(
            RoutingOutput {
                destination: RoutingDestination::MainSpeakers,
                channels: [0, 1],
                default_source: RoutingSource::MainMix,
            },
        );
        outputs.push(
            RoutingOutput {
                destination: RoutingDestination::Outputs3And4,
                channels: [2, 3],
                default_source: line_default,
            },
        );
        outputs.push(
            RoutingOutput {
                destination: RoutingDestination::Headphones,
                channels: [4, 5],
                default_source: RoutingSource::CueA,
            },
        );
        let digital_output_mode = matches!(scheme, RoutingScheme::Id24Formula);
        let capabilities = RoutingCapabilities { scheme, sources, outputs, digital_output_mode };
        assert(capabilities.sources@ =~= scheme_sources(scheme));
        assert(capabilities.outputs@ =~= scheme_outputs(scheme));
        capabilities
    }

    /// Whether `source` is one of these capabilities' sources.
    pub fn has_source(&self, source: RoutingSource) -> (found: bool)
        ensures
            found == self.sources@.contains(source),
    {
        let mut i: usize = 0;
        while i < self.sources.len()
            invariant
                i <= self.sources@.len(),
                forall|j: int| 0 <= j < i ==> self.sources@[j] != source,
            decreases self.sources@.len() - i,
        {
            if self.sources[i] == source {
                return true;
            }
            i += 1;
        }
        false
    }

    /// The output pair serving `destination`, if these capabilities have one.
    pub fn output_for(&self, destination: RoutingDestination) -> (output: Option<RoutingOutput>)
        ensures
            output == find_output(self.outputs@, destination),
    {
        let mut i: usize = 0;
        assert(self.outputs@.skip(0) =~= self.outputs@);
        while i < self.outputs.len()
            invariant
                i <= self.outputs@.len(),
                find_output(self.outputs@, destination) == find_output(
                    self.outputs@.skip(i as int),
                    destination,
                ),
            decreases self.outputs@.len() - i,
        {
            assert(self.outputs@.skip(i as int)[0] == self.outputs@[i as int]);
            assert(self.outputs@.skip(i as int).drop_first() =~= self.outputs@.skip(i + 1));
            if self.outputs[i].destination == destination {
                return Some(self.outputs[i]);
            }
            i += 1;
        }
        assert(self.outputs@.skip(i as int) =~= Seq::<RoutingOutput>::empty());
        None
    }
}

impl DeviceModel {
    /// The routing tables of this model, when it has an evidenced scheme.
    pub fn routing_capabilities(&self) -> (capabilities: Option<RoutingCapabilities>)
        ensures
            capabilities is Some <==> self.routing is Some,
            capabilities matches Some(c) ==> c.describes(self.routing.unwrap()),
    {
        match self.routing {
            Some(scheme) => Some(RoutingCapabilities::for_scheme(scheme)),
            None => None,
        }
    }
}

/// A source/destination choice.
#[derive(Clone, Copy, Debug, PartialEq, Eq, Structural)]
pub struct Route {
    pub destination: RoutingDestination,
    pub source: RoutingSource,
}

/// Why a route cannot be encoded for a model.
#[derive(Clone, Copy, Debug, PartialEq, Eq, Structural)]
pub enum InvalidRoute {
    RoutingUnavailable,
    UnsupportedSource(RoutingSource),
    UnsupportedDestination(RoutingDestination),
}

impl InvalidRoute {
    /// The user-facing message for this error.
    pub open spec fn spec_message(self) -> Seq<char> {
        match self {
            InvalidRoute::RoutingUnavailable => "routing is unavailable for this model"@,
            InvalidRoute::UnsupportedSource(source) => source.spec_label()
                + " is unavailable for this model"@,
            InvalidRoute::UnsupportedDestination(destination) => destination.spec_label()
                + " is not routable on this model"@,
        }
    }

    /// User-facing message for this error.
    pub fn message(self) -> (text: String)
        ensures
            text@ == self.spec_message(),
    {
        match self {
            InvalidRoute::RoutingUnavailable => "routing is unavailable for this model".to_owned(),
            InvalidRoute::UnsupportedSource(source) => {
                let mut text = source.label().to_owned();
                text.append(" is unavailable for this model");
                text
            },
            InvalidRoute::UnsupportedDestination(destination) => {
                let mut text = destination.label();
                text.append(" is not routable on this model");
                text
            },
        }
    }
}

/// What validating `route` for `model` yields: the model-owned output
/// mapping, or the first reason the route cannot be sent.
pub open spec fn route_validation(model: DeviceModel, route: Route) -> Result<
    RoutingOutput,
    InvalidRoute,
> {
    match model.routing {
        None => Err(InvalidRoute::RoutingUnavailable),
        Some(scheme) => if !scheme_sources(scheme).contains(route.source) {
            Err(InvalidRoute::UnsupportedSource(route.source))
        } else {
            match find_output(scheme_outputs(scheme), route.destination) {
                Some(output) => Ok(output),
                None => Err(InvalidRoute::UnsupportedDestination(route.destination)),
            }
        },
    }
}

/// Validates a route and returns its model-owned output mapping.
pub fn validate_route(model: &DeviceModel, route: Route) -> (result: Result<
    (RoutingCapabilities, RoutingOutput),
    InvalidRoute,
>)
    ensures
        match result {
            Ok((capabilities, output)) => {
                &&& route_validation(*model, route) == Ok::<RoutingOutput, InvalidRoute>(output)
                &&& capabilities.describes(model.routing.unwrap())
            },
            Err(error) => route_validation(*model, route) == Err::<RoutingOutput, InvalidRoute>(
                error,
            ),
        },
{
    let capabilities = match model.routing_capabilities() {
        Some(capabilities) => capabilities,
        None => return Err(InvalidRoute::RoutingUnavailable),
    };
    if !capabilities.has_source(route.source) {
        return Err(InvalidRoute::UnsupportedSource(route.source));
    }
    match capabilities.output_for(route.destination) {
        Some(output) => Ok((capabilities, output)),
        None => Err(InvalidRoute::UnsupportedDestination(route.destination)),
    }
}

/// The documented default route of `destination` on `model`.
pub open spec fn default_route(model: DeviceModel, destination: RoutingDestination) -> Result<
    Route,
    InvalidRoute,
> {
    match model.routing {
        None => Err(InvalidRoute::RoutingUnavailable),
        Some(scheme) => match find_output(scheme_outputs(scheme), destination) {
            Some(output) => Ok(Route { destination, source: output.default_source }),
            None => Err(InvalidRoute::UnsupportedDestination(destination)),
        },
    }
}

/// Returns the documented default route for an output pair.
pub fn reset_route(model: &DeviceModel, destination: RoutingDestination) -> (result: Result<
    Route,
    InvalidRoute,
>)
    ensures
        result == default_route(*model, destination),
{
    let capabilities = match model.routing_capabilities() {
        Some(capabilities) => capabilities,
        None => return Err(InvalidRoute::RoutingUnavailable),
    };
    match capabilities.output_for(destination) {
        Some(output) => Ok(Route { destination, source: output.default_source }),
        None => Err(InvalidRoute::UnsupportedDestination(destination)),
    }
}

/// The mixer row of a user-facing ADAT input: ADAT inputs follow the
/// model's onboard microphone inputs, so ADAT `n` sits at row
/// `mic_inputs + n - 1`, and only the first `min(digital_inputs, 8)` exist.
pub open spec fn adat_mixer_row(model: DeviceModel, channel: AdatChannel) -> Result<u8, InvalidRoute> {
    let limit = if model.digital_inputs < 8 { model.digital_inputs } else { 8u8 };
    if channel.spec_number() > limit {
        Err(InvalidRoute::RoutingUnavailable)
    } else {
        Ok((model.mic_inputs + channel.spec_number() - 1) as u8)
    }
}

/// Maps a user-facing ADAT input to its mixer row after the model's onboard
/// microphone inputs, without assuming output-route channels are contiguous.
pub fn adat_input_mixer_index(model: &DeviceModel, channel: AdatChannel) -> (result: Result<
    u8,
    InvalidRoute,
>)
    requires
        channel.spec_number() <= model.digital_inputs && channel.spec_number() <= 8
            ==> model.mic_inputs + channel.spec_number() - 1 <= u8::MAX,
    ensures
        result == adat_mixer_row(*model, channel),
{
    let limit = if model.digital_inputs < 8 {
        model.digital_inputs
    } else {
        8
    };
    let number = channel.number();
    if number > limit {
        return Err(InvalidRoute::RoutingUnavailable);
    }
    Ok(model.mic_inputs + (number - 1))
}

/// The state of one output pair's route control, as a mathematical value.
pub struct RouteControlView {
    pub requested: Option<RoutingSource>,
    pub in_flight: Option<RoutingSource>,
    pub last_sent: Option<RoutingSource>,
    pub last_error: Option<Seq<char>>,
}

/// Honest operation state for one output pair.
#[derive(Clone, Debug, Default)]
pub struct RouteControl {
    requested: Option<RoutingSource>,
    in_flight: Option<RoutingSource>,
    last_sent: Option<RoutingSource>,
    last_error: Option<String>,
}

impl View for RouteControl {
    type V = RouteControlView;

    closed spec fn view(&self) -> RouteControlView {
        RouteControlView {
            requested: self.requested,
            in_flight: self.in_flight,
            last_sent: self.last_sent,
            last_error: match self.last_error {
                Some(e) => Some(e@),
                None => None,
            },
        }
    }
}

/// The honest, nameable state of one route control. There is no confirmed
/// state: routes cannot be read back from the device.
#[derive(Clone, Debug, PartialEq, Eq)]
pub enum RouteStatus {
    Unknown,
    Sending { source: RoutingSource },
    Sent { source: RoutingSource },
    Failed { error: String, last_sent: Option<RoutingSource> },
}

/// `status` names the state `v`: a send in flight first, then a failure,
/// then the last acknowledged source, else unknown.
pub open spec fn route_status_matches(v: RouteControlView, status: RouteStatus) -> bool {
    match status {
        RouteStatus::Sending { source } => v.in_flight == Some(source),
        RouteStatus::Failed { error, last_sent } => {
            &&& v.in_flight is None
            &&& v.last_error == Some(error@)
            &&& last_sent == v.last_sent
        },
        RouteStatus::Sent { source } => {
            &&& v.in_flight is None
            &&& v.last_error is None
            &&& v.last_sent == Some(source)
        },
        RouteStatus::Unknown => {
            &&& v.in_flight is None
            &&& v.last_error is None
            &&& v.last_sent is None
        },
    }
}

/// The status line shown for route state `v`.
pub open spec fn route_status_text(v: RouteControlView) -> Seq<char> {
    match v.in_flight {
        Some(source) => "Sending "@ + source.spec_label() + "…"@,
        None => match v.last_error {
            Some(error) => "Route send failed: "@ + error + " Choose a source to retry."@,
            None => match v.last_sent {
                Some(source) => "Last sent "@ + source.spec_label()
                    + " — accepted, not read back from the device."@,
                None => "Hardware route unknown — choose a source to send it."@,
            },
        },
    }
}

/// Requesting `source`: dropped while another send for this output is in
/// flight; otherwise it becomes the requested source and starts sending.
pub open spec fn route_request(v: RouteControlView, source: RoutingSource) -> (RouteControlView, Option<RoutingSource>) {
    if v.in_flight is Some {
        (v, None)
    } else {
        (
            RouteControlView {
                requested: Some(source),
                in_flight: Some(source),
                last_sent: v.last_sent,
                last_error: None,
            },
            Some(source),
        )
    }
}

/// Completing a send of `source`: stale completions change nothing; a
/// success becomes the last sent source, a failure the error.
pub open spec fn route_finish(v: RouteControlView, source: RoutingSource, result: Result<(), Seq<char>>) -> (
    RouteControlView,
    bool,
) {
    if v.in_flight != Some(source) {
        (v, false)
    } else {
        (
            RouteControlView {
                requested: v.requested,
                in_flight: None,
                last_sent: match result {
                    Ok(()) => Some(source),
                    Err(_) => v.last_sent,
                },
                last_error: match result {
                    Ok(()) => None,
                    Err(error) => Some(error),
                },
            },
            true,
        )
    }
}

/// A route control with nothing requested, sent, or failed.
pub open spec fn fresh_route() -> RouteControlView {
    RouteControlView { requested: None, in_flight: None, last_sent: None, last_error: None }
}

impl RouteControl {
    /// A control with nothing requested, sent, or failed.
    pub fn new() -> (control: Self)
        ensures
            control@ == (RouteControlView {
                requested: None,
                in_flight: None,
                last_sent: None,
                last_error: None,
            }),
    {
        RouteControl { requested: None, in_flight: None, last_sent: None, last_error: None }
    }

    /// The last requested source; never presented as device state.
    pub fn requested(&self) -> (source: Option<RoutingSource>)
        ensures
            source == self@.requested,
    {
        self.requested
    }

    /// Names the current honest state of this control.
    pub fn status(&self) -> (status: RouteStatus)
        ensures
            route_status_matches(self@, status),
    {
        match (self.in_flight, &self.last_error, self.last_sent) {
            (Some(source), _, _) => RouteStatus::Sending { source },
            (None, Some(error), last_sent) => RouteStatus::Failed { error: error.clone(), last_sent },
            (None, None, Some(source)) => RouteStatus::Sent { source },
            (None, None, None) => RouteStatus::Unknown,
        }
    }

    /// Describes the current state without implying confirmed device state.
    pub fn status_text(&self) -> (text: String)
        ensures
            text@ == route_status_text(self@),
    {
        match (self.in_flight, &self.last_error, self.last_sent) {
            (Some(source), _, _) => {
                let mut text = "Sending ".to_owned();
                text.append(source.label());
                text.append("…");
                text
            },
            (None, Some(error), _) => {
                let mut text = "Route send failed: ".to_owned();
                text.append(error.as_str());
                text.append(" Choose a source to retry.");
                text
            },
            (None, None, Some(source)) => {
                let mut text = "Last sent ".to_owned();
                text.append(source.label());
                text.append(" — accepted, not read back from the device.");
                text
            },
            (None, None, None) => "Hardware route unknown — choose a source to send it.".to_owned(),
        }
    }

    /// Records a requested source. Returns it to send now, or `None` while
    /// another send for this output is in flight (the request is dropped).
    pub fn request(&mut self, source: RoutingSource) -> (send: Option<RoutingSource>)
        ensures
            (final(self)@, send) == route_request(old(self)@, source),
    {
        if self.in_flight.is_some() {
            return None;
        }
        self.requested = Some(source);
        self.in_flight = Some(source);
        self.last_error = None;
        Some(source)
    }

    /// Whether a completion for `source` belongs to the current send.
    pub fn is_in_flight(&self, source: RoutingSource) -> (current: bool)
        ensures
            current == (self@.in_flight == Some(source)),
    {
        match self.in_flight {
            Some(sending) => sending == source,
            None => false,
        }
    }

    /// Records a background send result. Returns whether it was adopted:
    /// completions for anything but the in-flight source leave the state
    /// untouched.
    pub fn finish(&mut self, source: RoutingSource, result: Result<(), String>) -> (adopted: bool)
        ensures
            (final(self)@, adopted) == route_finish(old(self)@, source, error_view(result)),
    {
        if !self.is_in_flight(source) {
            return false;
        }
        self.in_flight = None;
        match result {
            Ok(()) => {
                self.last_sent = Some(source);
                self.last_error = None;
            },
            Err(error) => self.last_error = Some(error),
        }
        true
    }
}

/// The route control of one routable output pair.
#[derive(Clone, Debug)]
pub struct OutputRouteControl {
    pub destination: RoutingDestination,
    pub control: RouteControl,
}

/// One output pair's route control, as a mathematical value.
pub struct OutputRouteView {
    pub destination: RoutingDestination,
    pub control: RouteControlView,
}

impl View for OutputRouteControl {
    type V = OutputRouteView;

    open spec fn view(&self) -> OutputRouteView {
        OutputRouteView { destination: self.destination, control: self.control@ }
    }
}

/// One fresh control per routable output pair of `model`, in table order.
pub fn route_controls(model: &DeviceModel) -> (controls: Vec<OutputRouteControl>)
    ensures
        model.routing is None ==> controls@.len() == 0,
        model.routing matches Some(scheme) ==> {
            &&& controls@.len() == scheme_outputs(scheme).len()
            &&& forall|i: int|
                0 <= i < controls@.len() ==> {
                    &&& (#[trigger] controls@[i]).destination == scheme_outputs(scheme)[i].destination
                    &&& controls@[i].control@ == (RouteControlView {
                        requested: None,
                        in_flight: None,
                        last_sent: None,
                        last_error: None,
                    })
                }
        },
{
    let mut controls: Vec<OutputRouteControl> = Vec::new();
    if let Some(capabilities) = model.routing_capabilities() {
        let mut i: usize = 0;
        while i < capabilities.outputs.len()
            invariant
                capabilities.describes(model.routing.unwrap()),
                i <= capabilities.outputs@.len(),
                controls@.len() == i,
                forall|j: int|
                    0 <= j < i ==> {
                        &&& (#[trigger] controls@[j]).destination == capabilities.outputs@[j].destination
                        &&& controls@[j].control@ == (RouteControlView {
                            requested: None,
                            in_flight: None,
                            last_sent: None,
                            last_error: None,
                        })
                    },
            decreases capabilities.outputs@.len() - i,
        {
            controls.push(
                OutputRouteControl {
                    destination: capabilities.outputs[i].destination,
                    control: RouteControl::new(),
                },
            );
            i += 1;
        }
    }
    controls
}

/// Whether output routing can be offered for this attachment.
pub fn routing_available(device: &DetectedDevice) -> (available: bool)
    ensures
        available == (device.control_interface is Some && device.model.routing is Some),
{
    device.control_interface.is_some() && device.model.routing.is_some()
}

/// Whether the optical-output mode control can be offered.
pub fn digital_output_mode_available(device: &DetectedDevice) -> (available: bool)
    ensures
        available == (device.control_interface is Some && model_has_digital_output_mode(
            device.model,
        )),
{
    device.control_interface.is_some() && match device.model.routing {
        Some(scheme) => matches!(scheme, RoutingScheme::Id24Formula),
        None => false,
    }
}

} // verus!
