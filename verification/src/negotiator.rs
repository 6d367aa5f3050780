//! The session negotiator: the offer/answer handshake as a sequence of steps
//! that either completes or fails at once.
//!
//! Each step is an operation of the transport or the signaling exchange that
//! the embedding program performs. The negotiator is told how the step ended
//! and answers with the next one. No step is asked for before the one before
//! it has succeeded, and nothing is retried.

use crate::codec::{
    descriptor_views, lemma_registration_preserves_order, register_all_outcome, registry_wf,
    CodecDescriptor, CodecDescriptorView, CodecRegistry,
};
use crate::signaling::{
    answer_description, answer_description_outcome, whep_answer, whep_request, SdpKind,
    SessionDescription, SessionDescriptionView, SignalingRequest, SignalingRequestView,
    SignalingResponse, SignalingResponseView,
};
use crate::strings::{clone_strings, string_views};
use vstd::prelude::*;

verus! {

/// How far the handshake has come. Every phase but the first and the last
/// waits for the step of its name to end.
#[derive(Clone, Copy, Debug, PartialEq, Eq, Structural)]
pub enum NegotiationPhase {
    /// Nothing has been asked for.
    Idle,
    /// The transport is being instantiated.
    CreatingTransport,
    /// The receive-only transceiver is being added.
    AddingTransceiver,
    /// The explicit codec preference order is being set.
    SettingPreferences,
    /// The local offer is being generated.
    CreatingOffer,
    /// The offer is being applied as the local description.
    SettingLocalDescription,
    /// Local candidate gathering is under way.
    Gathering,
    /// The offer has been posted; the answer is awaited.
    Signaling,
    /// The answer is being applied as the remote description.
    SettingRemoteDescription,
    /// The remote description is set: the session is established.
    Established,
}

impl NegotiationPhase {
    /// Position of the phase in the handshake.
    pub open spec fn rank(self) -> int {
        match self {
            NegotiationPhase::Idle => 0,
            NegotiationPhase::CreatingTransport => 1,
            NegotiationPhase::AddingTransceiver => 2,
            NegotiationPhase::SettingPreferences => 3,
            NegotiationPhase::CreatingOffer => 4,
            NegotiationPhase::SettingLocalDescription => 5,
            NegotiationPhase::Gathering => 6,
            NegotiationPhase::Signaling => 7,
            NegotiationPhase::SettingRemoteDescription => 8,
            NegotiationPhase::Established => 9,
        }
    }

    /// The local description has been set.
    pub open spec fn local_description_set(self) -> bool {
        self.rank() >= NegotiationPhase::Gathering.rank()
    }

    /// Candidate gathering has completed.
    pub open spec fn gathering_complete(self) -> bool {
        self.rank() >= NegotiationPhase::Signaling.rank()
    }

    /// The remote description has been set.
    pub open spec fn remote_description_set(self) -> bool {
        self == NegotiationPhase::Established
    }
}

/// The one error that ends a handshake.
#[derive(Clone, Copy, Debug, PartialEq, Eq, Structural)]
pub enum NegotiationError {
    /// The network configuration names no candidate-gathering server.
    NoIceServer,
    /// The step that the given phase waited for has failed.
    StepFailed(NegotiationPhase),
    /// The answer text made no session description of kind "answer".
    MalformedAnswer,
    /// In the given phase an event arrived that the phase does not wait for.
    OutOfOrder(NegotiationPhase),
}

/// The two classes of errors that abort startup.
#[derive(Clone, Copy, Debug, PartialEq, Eq, Structural)]
pub enum ErrorClass {
    /// Raised before any network I/O: the configuration, the transport or the
    /// codec setup is at fault.
    Setup,
    /// Raised by the offer/answer exchange.
    Negotiation,
}

impl NegotiationError {
    /// The class of the error: setup up to the setting of codec preferences,
    /// negotiation from the generation of the offer on.
    pub open spec fn class_of(self) -> ErrorClass {
        match self {
            NegotiationError::NoIceServer => ErrorClass::Setup,
            NegotiationError::MalformedAnswer => ErrorClass::Negotiation,
            NegotiationError::StepFailed(p) | NegotiationError::OutOfOrder(p) => if p.rank()
                < NegotiationPhase::CreatingOffer.rank() {
                ErrorClass::Setup
            } else {
                ErrorClass::Negotiation
            },
        }
    }

    /// The class of the error.
    pub fn class(self) -> (c: ErrorClass)
        ensures
            c == self.class_of(),
    {
        match self {
            NegotiationError::NoIceServer => ErrorClass::Setup,
            NegotiationError::MalformedAnswer => ErrorClass::Negotiation,
            NegotiationError::StepFailed(p) | NegotiationError::OutOfOrder(p) => match p {
                NegotiationPhase::Idle
                | NegotiationPhase::CreatingTransport
                | NegotiationPhase::AddingTransceiver
                | NegotiationPhase::SettingPreferences => ErrorClass::Setup,
                _ => ErrorClass::Negotiation,
            },
        }
    }
}

/// How a step ended.
#[derive(Debug, PartialEq, Eq)]
pub enum NegotiationEvent {
    /// The handshake is to begin.
    Start,
    /// The transport was instantiated.
    TransportReady,
    /// The transceiver was added.
    TransceiverAdded,
    /// The codec preference order was set.
    PreferencesSet,
    /// The local offer was generated; its text.
    OfferCreated(String),
    /// The offer was applied as the local description.
    LocalDescriptionSet,
    /// Candidate gathering has completed; the text of the finalized local
    /// description.
    GatheringComplete(String),
    /// The signaling endpoint has answered.
    SignalingResponse(SignalingResponse),
    /// The answer was applied as the remote description.
    RemoteDescriptionSet,
    /// The step under way has failed.
    StepFailed,
}

/// Mathematical value of a [`NegotiationEvent`].
pub enum NegotiationEventView {
    Start,
    TransportReady,
    TransceiverAdded,
    PreferencesSet,
    OfferCreated(Seq<char>),
    LocalDescriptionSet,
    GatheringComplete(Seq<char>),
    SignalingResponse(SignalingResponseView),
    RemoteDescriptionSet,
    StepFailed,
}

impl View for NegotiationEvent {
    type V = NegotiationEventView;

    open spec fn view(&self) -> NegotiationEventView {
        match self {
            NegotiationEvent::Start => NegotiationEventView::Start,
            NegotiationEvent::TransportReady => NegotiationEventView::TransportReady,
            NegotiationEvent::TransceiverAdded => NegotiationEventView::TransceiverAdded,
            NegotiationEvent::PreferencesSet => NegotiationEventView::PreferencesSet,
            NegotiationEvent::OfferCreated(sdp) => NegotiationEventView::OfferCreated(sdp@),
            NegotiationEvent::LocalDescriptionSet => NegotiationEventView::LocalDescriptionSet,
            NegotiationEvent::GatheringComplete(sdp) => NegotiationEventView::GatheringComplete(
                sdp@,
            ),
            NegotiationEvent::SignalingResponse(r) => NegotiationEventView::SignalingResponse(r@),
            NegotiationEvent::RemoteDescriptionSet => NegotiationEventView::RemoteDescriptionSet,
            NegotiationEvent::StepFailed => NegotiationEventView::StepFailed,
        }
    }
}

/// The step to perform next.
#[derive(Debug, PartialEq, Eq)]
pub enum NegotiationAction {
    /// Instantiate the transport with the given candidate-gathering servers.
    /// Register exactly `codecs` with it, in their order; where the list is
    /// empty, keep the engine's default codec set.
    CreateTransport { ice_servers: Vec<String>, codecs: Vec<CodecDescriptor> },
    /// Add one receive-only transceiver for video.
    AddReceiveTransceiver,
    /// Set the codec preference order of the transceiver.
    SetCodecPreferences(Vec<CodecDescriptor>),
    /// Generate the local offer.
    CreateOffer,
    /// Apply the description as the local one.
    SetLocalDescription(SessionDescription),
    /// Wait until local candidate gathering has completed.
    AwaitGatheringComplete,
    /// Perform the signaling request.
    PostOffer(SignalingRequest),
    /// Apply the description as the remote one.
    SetRemoteDescription(SessionDescription),
    /// The handshake has completed.
    Established,
    /// The handshake has failed; startup is aborted.
    Abort(NegotiationError),
    /// The handshake is over; the event is ignored.
    Nothing,
}

/// Mathematical value of a [`NegotiationAction`].
pub enum NegotiationActionView {
    CreateTransport { ice_servers: Seq<Seq<char>>, codecs: Seq<CodecDescriptorView> },
    AddReceiveTransceiver,
    SetCodecPreferences(Seq<CodecDescriptorView>),
    CreateOffer,
    SetLocalDescription(SessionDescriptionView),
    AwaitGatheringComplete,
    PostOffer(SignalingRequestView),
    SetRemoteDescription(SessionDescriptionView),
    Established,
    Abort(NegotiationError),
    Nothing,
}

impl View for NegotiationAction {
    type V = NegotiationActionView;

    open spec fn view(&self) -> NegotiationActionView {
        match self {
            NegotiationAction::CreateTransport { ice_servers, codecs } => {
                NegotiationActionView::CreateTransport {
                    ice_servers: string_views(ice_servers@),
                    codecs: descriptor_views(codecs@),
                }
            },
            NegotiationAction::AddReceiveTransceiver => {
                NegotiationActionView::AddReceiveTransceiver
            },
            NegotiationAction::SetCodecPreferences(codecs) => {
                NegotiationActionView::SetCodecPreferences(descriptor_views(codecs@))
            },
            NegotiationAction::CreateOffer => NegotiationActionView::CreateOffer,
            NegotiationAction::SetLocalDescription(d) => NegotiationActionView::SetLocalDescription(
                d@,
            ),
            NegotiationAction::AwaitGatheringComplete => {
                NegotiationActionView::AwaitGatheringComplete
            },
            NegotiationAction::PostOffer(r) => NegotiationActionView::PostOffer(r@),
            NegotiationAction::SetRemoteDescription(d) => {
                NegotiationActionView::SetRemoteDescription(d@)
            },
            NegotiationAction::Established => NegotiationActionView::Established,
            NegotiationAction::Abort(e) => NegotiationActionView::Abort(*e),
            NegotiationAction::Nothing => NegotiationActionView::Nothing,
        }
    }
}

/// Mathematical value of a [`Negotiator`].
pub struct NegotiatorView {
    /// The signaling URL.
    pub url: Seq<char>,
    /// The candidate-gathering servers.
    pub ice_servers: Seq<Seq<char>>,
    /// The registered codecs, in preference order.
    pub codecs: Seq<CodecDescriptorView>,
    /// How far the handshake has come.
    pub phase: NegotiationPhase,
    /// The error that ended the handshake, if one did.
    pub error: Option<NegotiationError>,
    /// The local offer, once generated.
    pub local_offer: Option<Seq<char>>,
    /// The remote answer, once received and accepted.
    pub remote_answer: Option<Seq<char>>,
}

impl NegotiatorView {
    /// What holds of every negotiator: the configuration is valid, and the
    /// two descriptions are present from the phase on that first has them.
    pub open spec fn wf(self) -> bool {
        &&& self.ice_servers.len() > 0
        &&& registry_wf(self.codecs)
        &&& self.local_offer is Some <==> self.phase.rank()
            >= NegotiationPhase::SettingLocalDescription.rank()
        &&& self.remote_answer is Some <==> self.phase.rank()
            >= NegotiationPhase::SettingRemoteDescription.rank()
    }

    /// The handshake is over, for better or worse.
    pub open spec fn is_terminal(self) -> bool {
        self.error is Some || self.phase == NegotiationPhase::Established
    }

    /// The handshake has completed.
    pub open spec fn is_established(self) -> bool {
        self.error is None && self.phase == NegotiationPhase::Established
    }
}

/// A negotiator that has been asked for nothing yet.
pub open spec fn negotiation_initial(
    url: Seq<char>,
    ice_servers: Seq<Seq<char>>,
    codecs: Seq<CodecDescriptorView>,
) -> NegotiatorView {
    NegotiatorView {
        url,
        ice_servers,
        codecs,
        phase: NegotiationPhase::Idle,
        error: None,
        local_offer: None,
        remote_answer: None,
    }
}

/// The handshake fails with `e`: the phase stays, the error is recorded.
pub open spec fn negotiation_failure(m: NegotiatorView, e: NegotiationError) -> (
    NegotiatorView,
    NegotiationActionView,
) {
    (NegotiatorView { error: Some(e), ..m }, NegotiationActionView::Abort(e))
}

/// The handshake moves on to `phase` and asks for `action`.
pub open spec fn negotiation_advance(
    m: NegotiatorView,
    phase: NegotiationPhase,
    action: NegotiationActionView,
) -> (NegotiatorView, NegotiationActionView) {
    (NegotiatorView { phase, ..m }, action)
}

/// The negotiator after one event, and the step it asks for.
///
/// A handshake that is over ignores every event. Otherwise a failed step ends
/// it, an event that the phase does not wait for ends it, and the awaited
/// event moves it to the next phase.
pub open spec fn negotiation_step(m: NegotiatorView, e: NegotiationEventView) -> (
    NegotiatorView,
    NegotiationActionView,
) {
    if m.is_terminal() {
        (m, NegotiationActionView::Nothing)
    } else if e is StepFailed && m.phase != NegotiationPhase::Idle {
        negotiation_failure(m, NegotiationError::StepFailed(m.phase))
    } else {
        match (m.phase, e) {
            (NegotiationPhase::Idle, NegotiationEventView::Start) => negotiation_advance(
                m,
                NegotiationPhase::CreatingTransport,
                NegotiationActionView::CreateTransport {
                    ice_servers: m.ice_servers,
                    codecs: m.codecs,
                },
            ),
            (
                NegotiationPhase::CreatingTransport,
                NegotiationEventView::TransportReady,
            ) => negotiation_advance(
                m,
                NegotiationPhase::AddingTransceiver,
                NegotiationActionView::AddReceiveTransceiver,
            ),
            (NegotiationPhase::AddingTransceiver, NegotiationEventView::TransceiverAdded) => {
                if m.codecs.len() > 0 {
                    negotiation_advance(
                        m,
                        NegotiationPhase::SettingPreferences,
                        NegotiationActionView::SetCodecPreferences(m.codecs),
                    )
                } else {
                    negotiation_advance(
                        m,
                        NegotiationPhase::CreatingOffer,
                        NegotiationActionView::CreateOffer,
                    )
                }
            },
            (
                NegotiationPhase::SettingPreferences,
                NegotiationEventView::PreferencesSet,
            ) => negotiation_advance(
                m,
                NegotiationPhase::CreatingOffer,
                NegotiationActionView::CreateOffer,
            ),
            (NegotiationPhase::CreatingOffer, NegotiationEventView::OfferCreated(sdp)) => (
                NegotiatorView {
                    phase: NegotiationPhase::SettingLocalDescription,
                    local_offer: Some(sdp),
                    ..m
                },
                NegotiationActionView::SetLocalDescription(
                    SessionDescriptionView { kind: SdpKind::Offer, sdp },
                ),
            ),
            (
                NegotiationPhase::SettingLocalDescription,
                NegotiationEventView::LocalDescriptionSet,
            ) => negotiation_advance(
                m,
                NegotiationPhase::Gathering,
                NegotiationActionView::AwaitGatheringComplete,
            ),
            (
                NegotiationPhase::Gathering,
                NegotiationEventView::GatheringComplete(sdp),
            ) => negotiation_advance(
                m,
                NegotiationPhase::Signaling,
                NegotiationActionView::PostOffer(SignalingRequestView { url: m.url, body: sdp }),
            ),
            (
                NegotiationPhase::Signaling,
                NegotiationEventView::SignalingResponse(response),
            ) => match answer_description_outcome(response.body) {
                Ok(description) => (
                    NegotiatorView {
                        phase: NegotiationPhase::SettingRemoteDescription,
                        remote_answer: Some(response.body),
                        ..m
                    },
                    NegotiationActionView::SetRemoteDescription(description),
                ),
                Err(_) => negotiation_failure(m, NegotiationError::MalformedAnswer),
            },
            (
                NegotiationPhase::SettingRemoteDescription,
                NegotiationEventView::RemoteDescriptionSet,
            ) => negotiation_advance(
                m,
                NegotiationPhase::Established,
                NegotiationActionView::Established,
            ),
            _ => negotiation_failure(m, NegotiationError::OutOfOrder(m.phase)),
        }
    }
}

/// The negotiator after a sequence of events.
pub open spec fn negotiation_after(
    m: NegotiatorView,
    events: Seq<NegotiationEventView>,
) -> NegotiatorView
    decreases events.len(),
{
    if events.len() == 0 {
        m
    } else {
        negotiation_step(negotiation_after(m, events.drop_last()), events.last()).0
    }
}

/// After the first `n` events the handshake has, for the first time, come as
/// far as rank `r`.
pub open spec fn first_reached(
    m: NegotiatorView,
    events: Seq<NegotiationEventView>,
    n: int,
    r: int,
) -> bool {
    &&& 1 <= n <= events.len()
    &&& negotiation_after(m, events.take(n)).phase.rank() >= r
    &&& negotiation_after(m, events.take(n - 1)).phase.rank() < r
}

/// One event keeps a negotiator well-formed and its configuration as it is,
/// moves the handshake forward by at most one phase (two where no preference
/// order has to be set), never back, and leaves a description that is set as
/// it is.
pub proof fn lemma_step_is_orderly(m: NegotiatorView, e: NegotiationEventView)
    requires
        m.wf(),
    ensures
        ({
            let after = negotiation_step(m, e).0;
            &&& after.wf()
            &&& after.url == m.url
            &&& after.ice_servers == m.ice_servers
            &&& after.codecs == m.codecs
            &&& m.phase.rank() <= after.phase.rank() <= m.phase.rank() + 2
            &&& after.phase.rank() == m.phase.rank() + 2 ==> m.phase
                == NegotiationPhase::AddingTransceiver
            &&& m.error is Some ==> after == m
            &&& after.phase != m.phase ==> after.error is None
            &&& m.local_offer is Some ==> after.local_offer == m.local_offer
            &&& m.remote_answer is Some ==> after.remote_answer == m.remote_answer
        }),
{
}

/// Over any sequence of events a well-formed negotiator stays well-formed.
pub proof fn lemma_run_preserves_wf(m: NegotiatorView, events: Seq<NegotiationEventView>)
    requires
        m.wf(),
    ensures
        negotiation_after(m, events).wf(),
    decreases events.len(),
{
    if events.len() > 0 {
        lemma_run_preserves_wf(m, events.drop_last());
        lemma_step_is_orderly(negotiation_after(m, events.drop_last()), events.last());
    }
}

/// The handshake never moves back: after more events it has come at least as
/// far as after fewer.
pub proof fn lemma_progress_is_monotone(
    m: NegotiatorView,
    events: Seq<NegotiationEventView>,
    a: int,
    b: int,
)
    requires
        m.wf(),
        0 <= a <= b <= events.len(),
    ensures
        negotiation_after(m, events.take(a)).phase.rank() <= negotiation_after(
            m,
            events.take(b),
        ).phase.rank(),
    decreases b - a,
{
    if a < b {
        lemma_progress_is_monotone(m, events, a, b - 1);
        lemma_run_preserves_wf(m, events.take(b - 1));
        assert(events.take(b).drop_last() =~= events.take(b - 1));
        lemma_step_is_orderly(negotiation_after(m, events.take(b - 1)), events.take(b).last());
    }
}

/// A handshake that has come as far as rank `r`, from before it, came there
/// at one event; `r` here is the rank of generating the offer or a later one,
/// which no handshake skips. Right after that event the rank is `r` exactly.
pub proof fn lemma_rank_is_first_reached(
    m: NegotiatorView,
    events: Seq<NegotiationEventView>,
    r: int,
) -> (n: int)
    requires
        m.wf(),
        NegotiationPhase::CreatingOffer.rank() <= r,
        m.phase.rank() < r <= negotiation_after(m, events).phase.rank(),
    ensures
        first_reached(m, events, n, r),
        negotiation_after(m, events.take(n)).phase.rank() == r,
    decreases events.len(),
{
    let before = events.drop_last();
    let len = events.len() as int;
    assert(events.take(len) =~= events);
    lemma_run_preserves_wf(m, before);
    lemma_step_is_orderly(negotiation_after(m, before), events.last());
    if negotiation_after(m, before).phase.rank() < r {
        len
    } else {
        let n = lemma_rank_is_first_reached(m, before, r);
        assert(before.take(n) =~= events.take(n));
        assert(before.take(n - 1) =~= events.take(n - 1));
        n
    }
}

/// The local description was first set by event `i`, gathering was first
/// complete by event `j`, the remote description was first set by event `k`,
/// and the three came in this order.
pub open spec fn milestones_in_order(
    m: NegotiatorView,
    events: Seq<NegotiationEventView>,
    i: int,
    j: int,
    k: int,
) -> bool {
    &&& i < j < k
    &&& first_reached(m, events, i, NegotiationPhase::Gathering.rank())
    &&& first_reached(m, events, j, NegotiationPhase::Signaling.rank())
    &&& first_reached(m, events, k, NegotiationPhase::Established.rank())
}

/// A handshake that has completed set the local description, then saw
/// gathering complete, then set the remote description: at three different
/// events, in this order.
pub proof fn lemma_successful_negotiation_is_sequential(
    m: NegotiatorView,
    events: Seq<NegotiationEventView>,
)
    requires
        m.wf(),
        m.phase == NegotiationPhase::Idle,
        negotiation_after(m, events).phase.remote_description_set(),
    ensures
        exists|i: int, j: int, k: int| milestones_in_order(m, events, i, j, k),
{
    let i = lemma_rank_is_first_reached(m, events, NegotiationPhase::Gathering.rank());
    let j = lemma_rank_is_first_reached(m, events, NegotiationPhase::Signaling.rank());
    let k = lemma_rank_is_first_reached(m, events, NegotiationPhase::Established.rank());
    if j <= i {
        lemma_progress_is_monotone(m, events, j, i);
    }
    if k <= j {
        lemma_progress_is_monotone(m, events, k, j);
    }
    assert(milestones_in_order(m, events, i, j, k));
}

/// The codecs handed to the transport, and the preference order set on the
/// transceiver, are the registered descriptors in the order of their
/// registration.
pub proof fn lemma_offered_order_is_registration_order(
    url: Seq<char>,
    ice_servers: Seq<Seq<char>>,
    ds: Seq<CodecDescriptorView>,
)
    requires
        ds.len() > 0,
        register_all_outcome(Seq::empty(), ds) is Ok,
    ensures
        ({
            let registered = register_all_outcome(Seq::empty(), ds)->Ok_0;
            let idle = negotiation_initial(url, ice_servers, registered);
            let (creating, first) = negotiation_step(idle, NegotiationEventView::Start);
            let (adding, _) = negotiation_step(creating, NegotiationEventView::TransportReady);
            let (_, third) = negotiation_step(adding, NegotiationEventView::TransceiverAdded);
            &&& first == NegotiationActionView::CreateTransport { ice_servers, codecs: ds }
            &&& third == NegotiationActionView::SetCodecPreferences(ds)
        }),
{
    lemma_registration_preserves_order(Seq::empty(), ds);
}

/// The negotiator of one session.
#[derive(Debug)]
pub struct Negotiator {
    url: String,
    ice_servers: Vec<String>,
    registry: CodecRegistry,
    phase: NegotiationPhase,
    error: Option<NegotiationError>,
    local_offer: Option<String>,
    remote_answer: Option<String>,
}

/// The value of a text that may be absent.
pub open spec fn optional_text(text: Option<String>) -> Option<Seq<char>> {
    match text {
        Some(t) => Some(t@),
        None => None,
    }
}

impl View for Negotiator {
    type V = NegotiatorView;

    closed spec fn view(&self) -> NegotiatorView {
        NegotiatorView {
            url: self.url@,
            ice_servers: string_views(self.ice_servers@),
            codecs: self.registry@,
            phase: self.phase,
            error: self.error,
            local_offer: optional_text(self.local_offer),
            remote_answer: optional_text(self.remote_answer),
        }
    }
}

impl Negotiator {
    /// The invariant of the type.
    pub open spec fn wf(&self) -> bool {
        self@.wf()
    }

    /// A negotiator for the signaling endpoint at `url`, with the given
    /// candidate-gathering servers and registered codecs.
    ///
    /// Fails with [`NegotiationError::NoIceServer`] exactly if no server is
    /// given.
    pub fn new(url: &str, ice_servers: Vec<String>, registry: CodecRegistry) -> (r: Result<
        Negotiator,
        NegotiationError,
    >)
        ensures
            r is Ok <==> ice_servers@.len() > 0,
            r matches Ok(n) ==> n@ == negotiation_initial(
                url@,
                string_views(ice_servers@),
                registry@,
            ) && (registry.wf() ==> n.wf()),
            r matches Err(e) ==> e == NegotiationError::NoIceServer,
    {
        if ice_servers.len() == 0 {
            return Err(NegotiationError::NoIceServer);
        }
        Ok(
            Negotiator {
                url: url.to_owned(),
                ice_servers,
                registry,
                phase: NegotiationPhase::Idle,
                error: None,
                local_offer: None,
                remote_answer: None,
            },
        )
    }

    /// How far the handshake has come.
    pub fn phase(&self) -> (p: NegotiationPhase)
        ensures
            p == self@.phase,
    {
        self.phase
    }

    /// The error that ended the handshake, if one did.
    pub fn error(&self) -> (e: Option<NegotiationError>)
        ensures
            e == self@.error,
    {
        self.error
    }

    /// Whether the handshake has completed.
    pub fn is_established(&self) -> (b: bool)
        ensures
            b == self@.is_established(),
    {
        let established = match self.phase {
            NegotiationPhase::Established => true,
            _ => false,
        };
        established && self.error.is_none()
    }

    /// The registered codecs.
    pub fn registry(&self) -> (r: &CodecRegistry)
        ensures
            r@ == self@.codecs,
    {
        &self.registry
    }

    /// The local offer, once generated.
    pub fn local_offer(&self) -> (o: &Option<String>)
        ensures
            optional_text(*o) == self@.local_offer,
    {
        &self.local_offer
    }

    /// The remote answer, once received and accepted.
    pub fn remote_answer(&self) -> (a: &Option<String>)
        ensures
            optional_text(*a) == self@.remote_answer,
    {
        &self.remote_answer
    }

    fn fail(&mut self, e: NegotiationError) -> (action: NegotiationAction)
        ensures
            (final(self)@, action@) == negotiation_failure(old(self)@, e),
    {
        self.error = Some(e);
        NegotiationAction::Abort(e)
    }

    /// Takes the end of a step and says which step is next.
    pub fn step(&mut self, event: NegotiationEvent) -> (action: NegotiationAction)
        ensures
            old(self).wf() ==> final(self).wf(),
            (final(self)@, action@) == negotiation_step(old(self)@, event@),
    {
        proof {
            if self.wf() {
                lemma_step_is_orderly(self@, event@);
            }
        }
        if self.error.is_some() {
            return NegotiationAction::Nothing;
        }
        let phase = self.phase;
        match phase {
            NegotiationPhase::Established => NegotiationAction::Nothing,
            NegotiationPhase::Idle => match event {
                NegotiationEvent::Start => {
                    self.phase = NegotiationPhase::CreatingTransport;
                    NegotiationAction::CreateTransport {
                        ice_servers: clone_strings(&self.ice_servers),
                        codecs: self.registry.preferences(),
                    }
                },
                _ => self.fail(NegotiationError::OutOfOrder(phase)),
            },
            NegotiationPhase::CreatingTransport => match event {
                NegotiationEvent::TransportReady => {
                    self.phase = NegotiationPhase::AddingTransceiver;
                    NegotiationAction::AddReceiveTransceiver
                },
                NegotiationEvent::StepFailed => self.fail(NegotiationError::StepFailed(phase)),
                _ => self.fail(NegotiationError::OutOfOrder(phase)),
            },
            NegotiationPhase::AddingTransceiver => match event {
                NegotiationEvent::TransceiverAdded => {
                    if self.registry.len() > 0 {
                        self.phase = NegotiationPhase::SettingPreferences;
                        NegotiationAction::SetCodecPreferences(self.registry.preferences())
                    } else {
                        self.phase = NegotiationPhase::CreatingOffer;
                        NegotiationAction::CreateOffer
                    }
                },
                NegotiationEvent::StepFailed => self.fail(NegotiationError::StepFailed(phase)),
                _ => self.fail(NegotiationError::OutOfOrder(phase)),
            },
            NegotiationPhase::SettingPreferences => match event {
                NegotiationEvent::PreferencesSet => {
                    self.phase = NegotiationPhase::CreatingOffer;
                    NegotiationAction::CreateOffer
                },
                NegotiationEvent::StepFailed => self.fail(NegotiationError::StepFailed(phase)),
                _ => self.fail(NegotiationError::OutOfOrder(phase)),
            },
            NegotiationPhase::CreatingOffer => match event {
                NegotiationEvent::OfferCreated(sdp) => {
                    self.phase = NegotiationPhase::SettingLocalDescription;
                    self.local_offer = Some(sdp.clone());
                    NegotiationAction::SetLocalDescription(
                        SessionDescription { kind: SdpKind::Offer, sdp },
                    )
                },
                NegotiationEvent::StepFailed => self.fail(NegotiationError::StepFailed(phase)),
                _ => self.fail(NegotiationError::OutOfOrder(phase)),
            },
            NegotiationPhase::SettingLocalDescription => match event {
                NegotiationEvent::LocalDescriptionSet => {
                    self.phase = NegotiationPhase::Gathering;
                    NegotiationAction::AwaitGatheringComplete
                },
                NegotiationEvent::StepFailed => self.fail(NegotiationError::StepFailed(phase)),
                _ => self.fail(NegotiationError::OutOfOrder(phase)),
            },
            NegotiationPhase::Gathering => match event {
                NegotiationEvent::GatheringComplete(sdp) => {
                    self.phase = NegotiationPhase::Signaling;
                    NegotiationAction::PostOffer(whep_request(self.url.as_str(), sdp))
                },
                NegotiationEvent::StepFailed => self.fail(NegotiationError::StepFailed(phase)),
                _ => self.fail(NegotiationError::OutOfOrder(phase)),
            },
            NegotiationPhase::Signaling => match event {
                NegotiationEvent::SignalingResponse(response) => {
                    let answer_sdp = whep_answer(response);
                    match answer_description(answer_sdp.as_str()) {
                        Ok(description) => {
                            self.phase = NegotiationPhase::SettingRemoteDescription;
                            self.remote_answer = Some(answer_sdp);
                            NegotiationAction::SetRemoteDescription(description)
                        },
                        Err(_) => self.fail(NegotiationError::MalformedAnswer),
                    }
                },
                NegotiationEvent::StepFailed => self.fail(NegotiationError::StepFailed(phase)),
                _ => self.fail(NegotiationError::OutOfOrder(phase)),
            },
            NegotiationPhase::SettingRemoteDescription => match event {
                NegotiationEvent::RemoteDescriptionSet => {
                    self.phase = NegotiationPhase::Established;
                    NegotiationAction::Established
                },
                NegotiationEvent::StepFailed => self.fail(NegotiationError::StepFailed(phase)),
                _ => self.fail(NegotiationError::OutOfOrder(phase)),
            },
        }
    }
}

} // verus!
