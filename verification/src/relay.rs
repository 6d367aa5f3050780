//! The track relay loop: one task per accepted track reads packets and
//! forwards them to its sink until the read fails or cancellation is seen.
//!
//! The loop itself runs in the embedding program. After each wait it reports
//! what happened as a [`RelayEvent`]; [`RelayTask::step`] answers with the
//! [`RelayAction`] to perform and keeps the task's state.

use crate::codec::{CodecKind, MIME_TYPE_H264, MIME_TYPE_H265, MIME_TYPE_VP8, MIME_TYPE_VP9};
use crate::pipeline::{
    create_pipeline, pipeline_outcome, plan_for, PipelineError, PipelinePlan, PipelinePlanView,
};
use crate::rtp::{marshal_outcome, RtpPacket, RtpPacketView};
use vstd::prelude::*;

verus! {

/// Metadata of a track, fixed when the remote peer starts sending.
#[derive(Debug, PartialEq, Eq)]
pub struct TrackInfo {
    pub payload_type: u8,
    pub clock_rate: u32,
    pub mime_type: String,
}

/// Mathematical value of [`TrackInfo`].
pub struct TrackInfoView {
    pub payload_type: u8,
    pub clock_rate: u32,
    pub mime_type: Seq<char>,
}

impl View for TrackInfo {
    type V = TrackInfoView;

    open spec fn view(&self) -> TrackInfoView {
        TrackInfoView {
            payload_type: self.payload_type,
            clock_rate: self.clock_rate,
            mime_type: self.mime_type@,
        }
    }
}

/// State of a relay loop. `Terminated` is final.
#[derive(Clone, Copy, Debug, PartialEq, Eq, Structural)]
pub enum RelayState {
    Running,
    Terminated,
}

/// What a relay loop observed in one iteration.
#[derive(Debug, PartialEq, Eq)]
pub enum RelayEvent {
    /// The next packet of the track was read.
    Packet(RtpPacket),
    /// The read failed: the track can no longer be received.
    ReadFailed,
    /// Cancellation was requested before a packet arrived.
    Cancelled,
    /// The sink did not accept the buffer pushed last.
    SinkRejected,
}

/// Mathematical value of a [`RelayEvent`].
pub enum RelayEventView {
    Packet(RtpPacketView),
    ReadFailed,
    Cancelled,
    SinkRejected,
}

impl View for RelayEvent {
    type V = RelayEventView;

    open spec fn view(&self) -> RelayEventView {
        match self {
            RelayEvent::Packet(p) => RelayEventView::Packet(p@),
            RelayEvent::ReadFailed => RelayEventView::ReadFailed,
            RelayEvent::Cancelled => RelayEventView::Cancelled,
            RelayEvent::SinkRejected => RelayEventView::SinkRejected,
        }
    }
}

/// What the loop does next.
#[derive(Debug, PartialEq, Eq)]
pub enum RelayAction {
    /// Hand `bytes` to the sink with `timestamp` as its time hint, then go on
    /// reading.
    Push { bytes: Vec<u8>, timestamp: u32 },
    /// Go on reading.
    Continue,
    /// Leave the loop; the task has ended without an error.
    Exit,
}

/// Mathematical value of a [`RelayAction`].
pub enum RelayActionView {
    Push { bytes: Seq<u8>, timestamp: u32 },
    Continue,
    Exit,
}

impl View for RelayAction {
    type V = RelayActionView;

    open spec fn view(&self) -> RelayActionView {
        match self {
            RelayAction::Push { bytes, timestamp } => RelayActionView::Push {
                bytes: bytes@,
                timestamp: *timestamp,
            },
            RelayAction::Continue => RelayActionView::Continue,
            RelayAction::Exit => RelayActionView::Exit,
        }
    }
}

/// What a running loop does with a packet: push its wire bytes, or, where it
/// has none, skip it.
pub open spec fn packet_action(p: RtpPacketView) -> RelayActionView {
    match marshal_outcome(p) {
        Ok(bytes) => RelayActionView::Push { bytes, timestamp: p.header.timestamp },
        Err(_) => RelayActionView::Continue,
    }
}

/// One iteration of the relay loop: the state after `event`, and the action.
pub open spec fn relay_step(state: RelayState, event: RelayEventView) -> (
    RelayState,
    RelayActionView,
) {
    match state {
        RelayState::Terminated => (RelayState::Terminated, RelayActionView::Exit),
        RelayState::Running => match event {
            RelayEventView::Packet(p) => (RelayState::Running, packet_action(p)),
            RelayEventView::ReadFailed => (RelayState::Terminated, RelayActionView::Exit),
            RelayEventView::Cancelled => (RelayState::Terminated, RelayActionView::Exit),
            RelayEventView::SinkRejected => (RelayState::Running, RelayActionView::Continue),
        },
    }
}

/// The state after a sequence of iterations.
pub open spec fn relay_state_after(state: RelayState, events: Seq<RelayEventView>) -> RelayState
    decreases events.len(),
{
    if events.len() == 0 {
        state
    } else {
        relay_step(relay_state_after(state, events.drop_last()), events.last()).0
    }
}

/// The actions of a sequence of iterations, one per event.
pub open spec fn relay_actions(state: RelayState, events: Seq<RelayEventView>) -> Seq<
    RelayActionView,
>
    decreases events.len(),
{
    if events.len() == 0 {
        Seq::empty()
    } else {
        relay_actions(state, events.drop_last()).push(
            relay_step(relay_state_after(state, events.drop_last()), events.last()).1,
        )
    }
}

/// Number of buffers handed to the sink among `actions`.
pub open spec fn pushes(actions: Seq<RelayActionView>) -> nat
    decreases actions.len(),
{
    if actions.len() == 0 {
        0
    } else {
        pushes(actions.drop_last()) + if actions.last() is Push {
            1nat
        } else {
            0nat
        }
    }
}

/// The events of reading `packets` one after the other.
pub open spec fn packet_events(packets: Seq<RtpPacketView>) -> Seq<RelayEventView> {
    packets.map_values(|p: RtpPacketView| RelayEventView::Packet(p))
}

/// A task that sees cancellation ends in that very iteration, whatever its
/// state, and no packet has to arrive for it.
pub proof fn lemma_cancellation_terminates(state: RelayState)
    ensures
        relay_step(state, RelayEventView::Cancelled) == (
            RelayState::Terminated,
            RelayActionView::Exit,
        ),
{
}

/// A failed read ends a running task without an error: the action is the
/// plain exit.
pub proof fn lemma_read_failure_is_graceful(state: RelayState)
    ensures
        relay_step(state, RelayEventView::ReadFailed) == (
            RelayState::Terminated,
            RelayActionView::Exit,
        ),
{
}

/// Neither a packet nor a rejected push ends a running task.
pub proof fn lemma_delivery_keeps_running(event: RelayEventView)
    requires
        event is Packet || event is SinkRejected,
    ensures
        relay_step(RelayState::Running, event).0 == RelayState::Running,
{
}

/// A terminated task stays terminated and hands nothing more to the sink.
pub proof fn lemma_terminated_is_final(events: Seq<RelayEventView>)
    ensures
        relay_state_after(RelayState::Terminated, events) == RelayState::Terminated,
        pushes(relay_actions(RelayState::Terminated, events)) == 0,
    decreases events.len(),
{
    if events.len() > 0 {
        lemma_terminated_is_final(events.drop_last());
        assert(relay_actions(RelayState::Terminated, events).drop_last() =~= relay_actions(
            RelayState::Terminated,
            events.drop_last(),
        ));
    }
}

/// Once a task has terminated it has terminated after every longer run: a
/// task ends at most once.
pub proof fn lemma_termination_is_permanent(
    state: RelayState,
    events: Seq<RelayEventView>,
    more: Seq<RelayEventView>,
)
    requires
        relay_state_after(state, events) == RelayState::Terminated,
    ensures
        relay_state_after(state, events + more) == RelayState::Terminated,
    decreases more.len(),
{
    if more.len() > 0 {
        lemma_termination_is_permanent(state, events, more.drop_last());
        assert((events + more).drop_last() =~= events + more.drop_last());
    }
}

/// Reading packets keeps a running task running, and the sink is handed one
/// buffer for each packet that has wire bytes.
pub proof fn lemma_packets_are_pushed(packets: Seq<RtpPacketView>)
    requires
        forall|i: int| 0 <= i < packets.len() ==> marshal_outcome(#[trigger] packets[i]) is Ok,
    ensures
        relay_state_after(RelayState::Running, packet_events(packets)) == RelayState::Running,
        relay_actions(RelayState::Running, packet_events(packets)).len() == packets.len(),
        pushes(relay_actions(RelayState::Running, packet_events(packets))) == packets.len(),
    decreases packets.len(),
{
    let events = packet_events(packets);
    if packets.len() > 0 {
        lemma_packets_are_pushed(packets.drop_last());
        assert(events.drop_last() =~= packet_events(packets.drop_last()));
        assert(relay_actions(RelayState::Running, events).drop_last() =~= relay_actions(
            RelayState::Running,
            events.drop_last(),
        ));
    }
}

/// A read that fails after a number of packets were delivered ends the task
/// without an error, and the sink has been handed exactly that number of
/// buffers.
pub proof fn lemma_stream_end_after_packets(packets: Seq<RtpPacketView>)
    requires
        forall|i: int| 0 <= i < packets.len() ==> marshal_outcome(#[trigger] packets[i]) is Ok,
    ensures
        relay_state_after(
            RelayState::Running,
            packet_events(packets).push(RelayEventView::ReadFailed),
        ) == RelayState::Terminated,
        relay_actions(
            RelayState::Running,
            packet_events(packets).push(RelayEventView::ReadFailed),
        ).last() == RelayActionView::Exit,
        pushes(
            relay_actions(
                RelayState::Running,
                packet_events(packets).push(RelayEventView::ReadFailed),
            ),
        ) == packets.len(),
{
    let events = packet_events(packets).push(RelayEventView::ReadFailed);
    lemma_packets_are_pushed(packets);
    assert(events.drop_last() =~= packet_events(packets));
    assert(relay_actions(RelayState::Running, events).drop_last() =~= relay_actions(
        RelayState::Running,
        events.drop_last(),
    ));
}

/// One relay task: a track, the sink planned for it, and the loop's state.
#[derive(Debug, PartialEq, Eq)]
pub struct RelayTask {
    track: TrackInfo,
    sink: PipelinePlan,
    state: RelayState,
}

/// Mathematical value of a [`RelayTask`].
pub struct RelayTaskView {
    pub track: TrackInfoView,
    pub sink: PipelinePlanView,
    pub state: RelayState,
}

impl View for RelayTask {
    type V = RelayTaskView;

    closed spec fn view(&self) -> RelayTaskView {
        RelayTaskView { track: self.track@, sink: self.sink@, state: self.state }
    }
}

impl RelayTask {
    /// A running task bound to `track` and `sink`.
    pub fn new(track: TrackInfo, sink: PipelinePlan) -> (task: RelayTask)
        ensures
            task@ == (RelayTaskView { track: track@, sink: sink@, state: RelayState::Running }),
    {
        RelayTask { track, sink, state: RelayState::Running }
    }

    /// The track that the task reads.
    pub fn track(&self) -> (t: &TrackInfo)
        ensures
            t@ == self@.track,
    {
        &self.track
    }

    /// The pipeline that the task feeds.
    pub fn sink(&self) -> (s: &PipelinePlan)
        ensures
            s@ == self@.sink,
    {
        &self.sink
    }

    /// The loop's state.
    pub fn state(&self) -> (s: RelayState)
        ensures
            s == self@.state,
    {
        self.state
    }

    /// Whether the loop has ended.
    pub fn is_terminated(&self) -> (b: bool)
        ensures
            b == (self@.state == RelayState::Terminated),
    {
        match self.state {
            RelayState::Running => false,
            RelayState::Terminated => true,
        }
    }

    /// Takes one event of the loop and says what to do.
    ///
    /// State and action are those of [`relay_step`]; track and sink stay as
    /// they are. A running task pushes every packet that has no header
    /// extension.
    pub fn step(&mut self, event: RelayEvent) -> (action: RelayAction)
        ensures
            (final(self)@.state, action@) == relay_step(old(self)@.state, event@),
            final(self)@.track == old(self)@.track,
            final(self)@.sink == old(self)@.sink,
            old(self)@.state == RelayState::Running ==> (event@ matches RelayEventView::Packet(p)
                ==> !p.header.extension ==> action@ is Push),
    {
        match self.state {
            RelayState::Terminated => RelayAction::Exit,
            RelayState::Running => match event {
                RelayEvent::Packet(packet) => match packet.marshal() {
                    Ok(bytes) => RelayAction::Push { bytes, timestamp: packet.header.timestamp },
                    Err(_) => RelayAction::Continue,
                },
                RelayEvent::ReadFailed | RelayEvent::Cancelled => {
                    self.state = RelayState::Terminated;
                    RelayAction::Exit
                },
                RelayEvent::SinkRejected => RelayAction::Continue,
            },
        }
    }
}

/// Plans the sink for a track and binds a running relay task to both.
///
/// `codec` is one of the four MIME names for which a pipeline exists. A
/// caller that holds any other text has no task to ask for: it reports the
/// track instead.
pub fn create_processing(payload_type: u8, clock_rate: u32, codec: &str) -> (task: RelayTask)
    requires
        codec@ == MIME_TYPE_H264@ || codec@ == MIME_TYPE_H265@ || codec@ == MIME_TYPE_VP8@ || codec@
            == MIME_TYPE_VP9@,
    ensures
        pipeline_outcome(payload_type, clock_rate, codec@) == Ok::<PipelinePlanView, PipelineError>(
            task@.sink,
        ),
        task@ == (RelayTaskView {
            track: TrackInfoView { payload_type, clock_rate, mime_type: codec@ },
            sink: plan_for(CodecKind::named(codec@)->Some_0, payload_type, clock_rate),
            state: RelayState::Running,
        }),
{
    let plan = create_pipeline(payload_type, clock_rate, codec).unwrap();
    let track = TrackInfo { payload_type, clock_rate, mime_type: codec.to_owned() };
    RelayTask::new(track, plan)
}

} // verus!
