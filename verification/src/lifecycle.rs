//! The lifecycle controller: it watches the connection's state and the
//! operator's interrupt, and drives the one shutdown path of the session.
//!
//! Two signals leave the controller. The termination signal is a single-fire
//! flag broadcast to every relay task. The completion channel has a single
//! slot; a value in it tells the top-level wait that shutdown should begin.
//! Sending into a full slot counts as already signaled.

use vstd::prelude::*;

verus! {

/// State of the underlying connection, as the transport reports it.
#[derive(Clone, Copy, Debug, PartialEq, Eq, Structural)]
pub enum ConnectionState {
    Unspecified,
    New,
    Checking,
    Connected,
    Completed,
    Disconnected,
    Failed,
    Closed,
}

/// What the controller is told.
#[derive(Clone, Copy, Debug, PartialEq, Eq, Structural)]
pub enum LifecycleEvent {
    /// The connection changed to the given state.
    ConnectionStateChanged(ConnectionState),
    /// The operator interrupted the program.
    Interrupt,
    /// The top-level wait took a value from the completion channel.
    CompletionReceived,
}

/// What the controller asks for in answer to one event.
#[derive(Clone, Copy, Debug, PartialEq, Eq, Structural)]
pub struct LifecycleActions {
    /// Broadcast the termination signal to all relay tasks.
    pub broadcast_termination: bool,
    /// Put a value into the completion channel.
    pub enqueue_completion: bool,
    /// Close the session.
    pub close_session: bool,
}

/// Mathematical value of a [`LifecycleController`].
pub struct LifecycleView {
    /// The state reported last.
    pub connection: ConnectionState,
    /// The termination signal has fired.
    pub termination_signaled: bool,
    /// The completion channel holds a value.
    pub completion_pending: bool,
    /// The session has been closed.
    pub closed: bool,
}

/// The answer that asks for nothing.
pub open spec fn no_actions() -> LifecycleActions {
    LifecycleActions {
        broadcast_termination: false,
        enqueue_completion: false,
        close_session: false,
    }
}

/// The controller before any event.
pub open spec fn lifecycle_initial() -> LifecycleView {
    LifecycleView {
        connection: ConnectionState::New,
        termination_signaled: false,
        completion_pending: false,
        closed: false,
    }
}

/// The controller after one event, and what it asks for.
///
/// A closed session asks for nothing any more. Before that, a connection that
/// has failed fires the termination signal, if it has not fired, and fills the
/// completion slot, if it is empty; an interrupt only fills the slot; a value
/// received from the slot closes the session.
pub open spec fn lifecycle_step(s: LifecycleView, e: LifecycleEvent) -> (
    LifecycleView,
    LifecycleActions,
) {
    match e {
        LifecycleEvent::ConnectionStateChanged(state) => {
            if s.closed || state != ConnectionState::Failed {
                (LifecycleView { connection: state, ..s }, no_actions())
            } else {
                (
                    LifecycleView {
                        connection: state,
                        termination_signaled: true,
                        completion_pending: true,
                        closed: false,
                    },
                    LifecycleActions {
                        broadcast_termination: !s.termination_signaled,
                        enqueue_completion: !s.completion_pending,
                        close_session: false,
                    },
                )
            }
        },
        LifecycleEvent::Interrupt => {
            if s.closed {
                (s, no_actions())
            } else {
                (
                    LifecycleView { completion_pending: true, ..s },
                    LifecycleActions {
                        broadcast_termination: false,
                        enqueue_completion: !s.completion_pending,
                        close_session: false,
                    },
                )
            }
        },
        LifecycleEvent::CompletionReceived => {
            if s.closed {
                (LifecycleView { completion_pending: false, ..s }, no_actions())
            } else {
                (
                    LifecycleView { completion_pending: false, closed: true, ..s },
                    LifecycleActions {
                        broadcast_termination: false,
                        enqueue_completion: false,
                        close_session: true,
                    },
                )
            }
        },
    }
}

/// The controller after a sequence of events.
pub open spec fn lifecycle_after(s: LifecycleView, events: Seq<LifecycleEvent>) -> LifecycleView
    decreases events.len(),
{
    if events.len() == 0 {
        s
    } else {
        lifecycle_step(lifecycle_after(s, events.drop_last()), events.last()).0
    }
}

/// Number of times the session is closed over a sequence of events.
pub open spec fn closes(s: LifecycleView, events: Seq<LifecycleEvent>) -> nat
    decreases events.len(),
{
    if events.len() == 0 {
        0
    } else {
        closes(s, events.drop_last()) + if lifecycle_step(
            lifecycle_after(s, events.drop_last()),
            events.last(),
        ).1.close_session {
            1nat
        } else {
            0nat
        }
    }
}

/// Number of times the termination signal is broadcast over a sequence of
/// events.
pub open spec fn broadcasts(s: LifecycleView, events: Seq<LifecycleEvent>) -> nat
    decreases events.len(),
{
    if events.len() == 0 {
        0
    } else {
        broadcasts(s, events.drop_last()) + if lifecycle_step(
            lifecycle_after(s, events.drop_last()),
            events.last(),
        ).1.broadcast_termination {
            1nat
        } else {
            0nat
        }
    }
}

/// Whether some event of the sequence is a value received from the
/// completion channel.
pub open spec fn completion_received(events: Seq<LifecycleEvent>) -> bool {
    exists|i: int| 0 <= i < events.len() && events[i] == LifecycleEvent::CompletionReceived
}

/// Whatever events arrive and in whatever order, the session is closed at
/// most once. It is closed once exactly if it was open and a value was
/// received from the completion channel.
pub proof fn lemma_close_at_most_once(s: LifecycleView, events: Seq<LifecycleEvent>)
    ensures
        closes(s, events) <= 1,
        s.closed ==> closes(s, events) == 0,
        !s.closed ==> (closes(s, events) == 1 <==> completion_received(events)),
        lifecycle_after(s, events).closed <==> s.closed || completion_received(events),
    decreases events.len(),
{
    if events.len() > 0 {
        let before = events.drop_last();
        lemma_close_at_most_once(s, before);
        if completion_received(events) {
            let i = choose|i: int|
                0 <= i < events.len() && events[i] == LifecycleEvent::CompletionReceived;
            if i < before.len() {
                assert(before[i] == LifecycleEvent::CompletionReceived);
            }
        }
    }
}

/// A second run of the shutdown path does nothing: once the session is
/// closed, no event asks for anything, and it stays closed.
pub proof fn lemma_shutdown_is_idempotent(s: LifecycleView, e: LifecycleEvent)
    requires
        s.closed,
    ensures
        lifecycle_step(s, e).1 == no_actions(),
        lifecycle_step(s, e).0.closed,
{
}

/// The termination signal fires at most once, and once it has fired it stays
/// fired.
pub proof fn lemma_broadcast_at_most_once(s: LifecycleView, events: Seq<LifecycleEvent>)
    ensures
        broadcasts(s, events) <= 1,
        s.termination_signaled ==> broadcasts(s, events) == 0,
        s.termination_signaled ==> lifecycle_after(s, events).termination_signaled,
        broadcasts(s, events) == 1 ==> lifecycle_after(s, events).termination_signaled,
    decreases events.len(),
{
    if events.len() > 0 {
        lemma_broadcast_at_most_once(s, events.drop_last());
    }
}

/// A failed connection, seen while the session is open, leaves the
/// termination signal fired and the completion slot full. It asks for the
/// broadcast unless the signal had fired, for the enqueue unless the slot was
/// full, and never for the close.
pub proof fn lemma_failure_triggers_shutdown(s: LifecycleView)
    requires
        !s.closed,
    ensures
        ({
            let (after, actions) = lifecycle_step(
                s,
                LifecycleEvent::ConnectionStateChanged(ConnectionState::Failed),
            );
            &&& after.termination_signaled
            &&& after.completion_pending
            &&& !after.closed
            &&& actions.broadcast_termination == !s.termination_signaled
            &&& actions.enqueue_completion == !s.completion_pending
            &&& !actions.close_session
        }),
{
}

/// An interrupt fills the completion slot and never fires the termination
/// signal: relay tasks keep running until the session is closed.
pub proof fn lemma_interrupt_does_not_cancel(s: LifecycleView)
    ensures
        !lifecycle_step(s, LifecycleEvent::Interrupt).1.broadcast_termination,
        lifecycle_step(s, LifecycleEvent::Interrupt).0.termination_signaled
            == s.termination_signaled,
        !s.closed ==> lifecycle_step(s, LifecycleEvent::Interrupt).0.completion_pending,
{
}

/// A value is put into the completion channel only while the session is open
/// and the slot is empty, and the slot is full afterwards: the channel never
/// holds more than its one value.
pub proof fn lemma_enqueue_needs_empty_slot(s: LifecycleView, e: LifecycleEvent)
    requires
        lifecycle_step(s, e).1.enqueue_completion,
    ensures
        !s.closed,
        !s.completion_pending,
        lifecycle_step(s, e).0.completion_pending,
{
}

/// The lifecycle controller of one session.
#[derive(Debug)]
pub struct LifecycleController {
    connection: ConnectionState,
    termination_signaled: bool,
    completion_pending: bool,
    closed: bool,
}

impl View for LifecycleController {
    type V = LifecycleView;

    closed spec fn view(&self) -> LifecycleView {
        LifecycleView {
            connection: self.connection,
            termination_signaled: self.termination_signaled,
            completion_pending: self.completion_pending,
            closed: self.closed,
        }
    }
}

impl LifecycleController {
    /// The controller of a session that has seen no event.
    pub fn new() -> (c: LifecycleController)
        ensures
            c@ == lifecycle_initial(),
    {
        LifecycleController {
            connection: ConnectionState::New,
            termination_signaled: false,
            completion_pending: false,
            closed: false,
        }
    }

    /// Takes one event and says what to do.
    pub fn step(&mut self, event: LifecycleEvent) -> (actions: LifecycleActions)
        ensures
            (final(self)@, actions) == lifecycle_step(old(self)@, event),
    {
        let nothing = LifecycleActions {
            broadcast_termination: false,
            enqueue_completion: false,
            close_session: false,
        };
        match event {
            LifecycleEvent::ConnectionStateChanged(state) => {
                self.connection = state;
                let failed = match state {
                    ConnectionState::Failed => true,
                    _ => false,
                };
                if self.closed || !failed {
                    nothing
                } else {
                    let actions = LifecycleActions {
                        broadcast_termination: !self.termination_signaled,
                        enqueue_completion: !self.completion_pending,
                        close_session: false,
                    };
                    self.termination_signaled = true;
                    self.completion_pending = true;
                    actions
                }
            },
            LifecycleEvent::Interrupt => {
                if self.closed {
                    nothing
                } else {
                    let actions = LifecycleActions {
                        broadcast_termination: false,
                        enqueue_completion: !self.completion_pending,
                        close_session: false,
                    };
                    self.completion_pending = true;
                    actions
                }
            },
            LifecycleEvent::CompletionReceived => {
                self.completion_pending = false;
                if self.closed {
                    nothing
                } else {
                    self.closed = true;
                    LifecycleActions {
                        broadcast_termination: false,
                        enqueue_completion: false,
                        close_session: true,
                    }
                }
            },
        }
    }

    /// The connection state reported last.
    pub fn connection_state(&self) -> (s: ConnectionState)
        ensures
            s == self@.connection,
    {
        self.connection
    }

    /// Whether the termination signal has fired.
    pub fn termination_signaled(&self) -> (b: bool)
        ensures
            b == self@.termination_signaled,
    {
        self.termination_signaled
    }

    /// Whether the completion channel holds a value.
    pub fn completion_pending(&self) -> (b: bool)
        ensures
            b == self@.completion_pending,
    {
        self.completion_pending
    }

    /// Whether the session has been closed.
    pub fn is_closed(&self) -> (b: bool)
        ensures
            b == self@.closed,
    {
        self.closed
    }
}

} // verus!
