//! The session: one handshake, one connection, and the tracks that arrive on
//! it.
//!
//! A session is an owned value. It holds the negotiator and the lifecycle
//! controller, and decides for each arriving track whether a relay task is
//! bound to it.

use crate::codec::{
    declares, lemma_kind_has_own_name, lemma_recognized_is_matching, mime_matches, CodecKind,
    CodecRegistry,
};
use crate::lifecycle::{
    lifecycle_initial, lifecycle_step, LifecycleActions, LifecycleController, LifecycleEvent,
    LifecycleView,
};
use crate::negotiator::{
    negotiation_after, negotiation_initial, negotiation_step, NegotiationAction, NegotiationError,
    NegotiationEvent, NegotiationEventView, Negotiator, NegotiatorView,
};
use crate::pipeline::{pipeline_outcome, plan_for, PipelineError, PipelinePlanView};
use crate::relay::{
    create_processing, RelayState, RelayTask, RelayTaskView, TrackInfo, TrackInfoView,
};
use crate::strings::string_views;
use vstd::prelude::*;

verus! {

/// Why a track got no relay task and no error.
#[derive(Clone, Copy, Debug, PartialEq, Eq, Structural)]
pub enum DropReason {
    /// The session has been closed.
    Closed,
    /// The remote description has not been set.
    NotEstablished,
    /// The track's MIME type is not in the declared codec set.
    UndeclaredMime,
}

/// What is done with an arriving track.
#[derive(Debug, PartialEq, Eq)]
pub enum TrackDecision {
    /// Build the sink and run the relay task.
    Spawn(RelayTask),
    /// Leave the track alone.
    Dropped(DropReason),
    /// The track belongs to the declared set, but no sink can be built for
    /// it. This is an error to report, not a track to drop.
    Failed(PipelineError),
}

/// Mathematical value of a [`TrackDecision`].
pub enum TrackDecisionView {
    Spawn(RelayTaskView),
    Dropped(DropReason),
    Failed(PipelineError),
}

impl View for TrackDecision {
    type V = TrackDecisionView;

    open spec fn view(&self) -> TrackDecisionView {
        match self {
            TrackDecision::Spawn(task) => TrackDecisionView::Spawn(task@),
            TrackDecision::Dropped(reason) => TrackDecisionView::Dropped(*reason),
            TrackDecision::Failed(e) => TrackDecisionView::Failed(*e),
        }
    }
}

/// Mathematical value of a [`Session`].
pub struct SessionView {
    pub negotiation: NegotiatorView,
    pub lifecycle: LifecycleView,
}

/// The task that is bound to a track of format `kind`: it carries the
/// track's payload type and clock rate under the format's canonical MIME
/// name, feeds the pipeline planned for these, and is running.
pub open spec fn task_for(kind: CodecKind, track: TrackInfoView) -> RelayTaskView {
    RelayTaskView {
        track: TrackInfoView {
            payload_type: track.payload_type,
            clock_rate: track.clock_rate,
            mime_type: kind.mime_name(),
        },
        sink: plan_for(kind, track.payload_type, track.clock_rate),
        state: RelayState::Running,
    }
}

/// The decision for a track that arrives on session `s`.
///
/// A closed session and one whose remote description is not set take no
/// track. An established one drops a track outside the declared codec set.
/// Of every other track it looks the MIME type up among the formats, without
/// regard to the case of its letters: a track of one of the formats gets its
/// task, and a track of none is reported with the factory's error.
pub open spec fn track_decision(s: SessionView, track: TrackInfoView) -> TrackDecisionView {
    if s.lifecycle.closed {
        TrackDecisionView::Dropped(DropReason::Closed)
    } else if !s.negotiation.is_established() {
        TrackDecisionView::Dropped(DropReason::NotEstablished)
    } else if !declares(s.negotiation.codecs, track.mime_type) {
        TrackDecisionView::Dropped(DropReason::UndeclaredMime)
    } else {
        match CodecKind::recognized(track.mime_type) {
            Some(kind) => TrackDecisionView::Spawn(task_for(kind, track)),
            None => TrackDecisionView::Failed(PipelineError::UnsupportedMime),
        }
    }
}

/// A relay task is bound to a track only on an open session whose remote
/// description is set, only for a MIME type of the declared codec set, and
/// only with the sink that the factory plans for the track's payload type
/// and clock rate under the canonical name of the track's format.
pub proof fn lemma_spawn_needs_established_session(s: SessionView, track: TrackInfoView)
    requires
        track_decision(s, track) is Spawn,
    ensures
        s.negotiation.phase.remote_description_set(),
        s.negotiation.error is None,
        !s.lifecycle.closed,
        declares(s.negotiation.codecs, track.mime_type),
        CodecKind::recognized(track.mime_type) is Some,
        track_decision(s, track)->Spawn_0.track.payload_type == track.payload_type,
        track_decision(s, track)->Spawn_0.track.clock_rate == track.clock_rate,
        mime_matches(track_decision(s, track)->Spawn_0.track.mime_type, track.mime_type),
        track_decision(s, track)->Spawn_0.state == RelayState::Running,
        pipeline_outcome(
            track.payload_type,
            track.clock_rate,
            track_decision(s, track)->Spawn_0.track.mime_type,
        ) == Ok::<PipelinePlanView, PipelineError>(track_decision(s, track)->Spawn_0.sink),
{
    let kind = CodecKind::recognized(track.mime_type)->Some_0;
    lemma_kind_has_own_name(kind);
    lemma_recognized_is_matching(track.mime_type);
}

/// A track of the declared set whose MIME type names none of the formats,
/// in whatever case, is never dropped in silence and never given a sink: the
/// decision is the error that the factory has for such a type.
pub proof fn lemma_unrecognized_mime_fails_loudly(s: SessionView, track: TrackInfoView)
    requires
        !s.lifecycle.closed,
        s.negotiation.is_established(),
        declares(s.negotiation.codecs, track.mime_type),
        CodecKind::recognized(track.mime_type) is None,
    ensures
        track_decision(s, track) == TrackDecisionView::Failed(PipelineError::UnsupportedMime),
{
}

/// While a handshake has not set the remote description, no track that
/// arrives is given a relay task.
pub proof fn lemma_no_spawn_before_remote_description(
    m: NegotiatorView,
    events: Seq<NegotiationEventView>,
    lifecycle: LifecycleView,
    track: TrackInfoView,
)
    requires
        !negotiation_after(m, events).phase.remote_description_set(),
    ensures
        !(track_decision(
            SessionView { negotiation: negotiation_after(m, events), lifecycle },
            track,
        ) is Spawn),
{
}

/// One session.
#[derive(Debug)]
pub struct Session {
    negotiator: Negotiator,
    lifecycle: LifecycleController,
}

impl View for Session {
    type V = SessionView;

    closed spec fn view(&self) -> SessionView {
        SessionView { negotiation: self.negotiator@, lifecycle: self.lifecycle@ }
    }
}

impl Session {
    /// The invariant of the type.
    pub open spec fn wf(&self) -> bool {
        self@.negotiation.wf()
    }

    /// A session for the signaling endpoint at `url`: nothing negotiated, no
    /// event seen.
    ///
    /// Fails with [`NegotiationError::NoIceServer`] exactly if no server is
    /// given.
    pub fn new(url: &str, ice_servers: Vec<String>, registry: CodecRegistry) -> (r: Result<
        Session,
        NegotiationError,
    >)
        ensures
            r is Ok <==> ice_servers@.len() > 0,
            r matches Ok(s) ==> s@ == (SessionView {
                negotiation: negotiation_initial(url@, string_views(ice_servers@), registry@),
                lifecycle: lifecycle_initial(),
            }) && (registry.wf() ==> s.wf()),
            r matches Err(e) ==> e == NegotiationError::NoIceServer,
    {
        match Negotiator::new(url, ice_servers, registry) {
            Ok(negotiator) => Ok(Session { negotiator, lifecycle: LifecycleController::new() }),
            Err(e) => Err(e),
        }
    }

    /// The negotiator.
    pub fn negotiator(&self) -> (n: &Negotiator)
        ensures
            n@ == self@.negotiation,
    {
        &self.negotiator
    }

    /// The lifecycle controller.
    pub fn lifecycle(&self) -> (c: &LifecycleController)
        ensures
            c@ == self@.lifecycle,
    {
        &self.lifecycle
    }

    /// Takes the end of a handshake step and says which step is next.
    pub fn negotiate(&mut self, event: NegotiationEvent) -> (action: NegotiationAction)
        ensures
            old(self).wf() ==> final(self).wf(),
            (final(self)@.negotiation, action@) == negotiation_step(
                old(self)@.negotiation,
                event@,
            ),
            final(self)@.lifecycle == old(self)@.lifecycle,
    {
        self.negotiator.step(event)
    }

    /// Takes a connection-state change, an interrupt or a received
    /// completion, and says what to do.
    pub fn observe(&mut self, event: LifecycleEvent) -> (actions: LifecycleActions)
        ensures
            old(self).wf() ==> final(self).wf(),
            (final(self)@.lifecycle, actions) == lifecycle_step(old(self)@.lifecycle, event),
            final(self)@.negotiation == old(self)@.negotiation,
    {
        self.lifecycle.step(event)
    }

    /// Decides what is done with a track that has arrived.
    pub fn on_track(&self, track: &TrackInfo) -> (decision: TrackDecision)
        ensures
            decision@ == track_decision(self@, track@),
    {
        if self.lifecycle.is_closed() {
            return TrackDecision::Dropped(DropReason::Closed);
        }
        if !self.negotiator.is_established() {
            return TrackDecision::Dropped(DropReason::NotEstablished);
        }
        if !self.negotiator.registry().declares_mime(track.mime_type.as_str()) {
            return TrackDecision::Dropped(DropReason::UndeclaredMime);
        }
        match CodecKind::from_mime(track.mime_type.as_str()) {
            Some(kind) => {
                proof {
                    lemma_kind_has_own_name(kind);
                }
                TrackDecision::Spawn(
                    create_processing(track.payload_type, track.clock_rate, kind.mime_type()),
                )
            },
            None => TrackDecision::Failed(PipelineError::UnsupportedMime),
        }
    }
}

} // verus!
