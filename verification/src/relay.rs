//! One invocation, step by step.
//!
//! An invocation alternates work on the outside (the session store, the
//! backend, the chat) with decisions. The decisions are made here: the
//! caller performs the action it is given, reports what came of it as an
//! event, and is given the next action.

use crate::markup::{Answer, AnswerView, MarkupMode};
use crate::message::{Request, RequestView, Response, ResponseView};
use crate::session::{parse_style, style_named, Style, UnknownStyle, SESSION_TTL_SECONDS};
use vstd::prelude::*;

verus! {

/// What the invocation waits for.
#[derive(Clone, Copy, Debug, PartialEq, Eq, Structural)]
pub enum Phase {
    /// For the store's answer to the lookup.
    AwaitLookup,
    /// For the session to be resumed or created.
    AwaitSession,
    /// For the heartbeat to be running.
    AwaitHeartbeat,
    /// For the backend's answer.
    AwaitAnswer,
    /// For the chat to accept the response.
    AwaitDelivery,
    /// For the heartbeat to be told to stop; the response was delivered as
    /// the message `delivered`.
    AwaitSilence { delivered: i64 },
    /// For the store to take the session.
    AwaitPersist,
    /// For nothing: the invocation has succeeded.
    Done,
    /// For nothing: the invocation has failed.
    Aborted,
}

/// What came of the last action.
#[derive(Debug, PartialEq, Eq)]
pub enum Event {
    /// The store holds a session under the key.
    LookupHit { session: String },
    /// The store holds nothing under the key.
    LookupNotFound,
    /// The store could not be asked.
    LookupFailed,
    /// The session has been resumed or created.
    SessionReady,
    /// The heartbeat is running.
    HeartbeatStarted,
    /// The backend has answered.
    Answered { answer: Answer },
    /// The chat has accepted the response as the message `message_id`.
    Delivered { message_id: i64 },
    /// The heartbeat has been told to stop.
    HeartbeatStopped,
    /// The store has taken the session.
    Persisted,
    /// The last action has failed.
    Failed,
}

/// An event as plain values.
pub enum EventView {
    LookupHit { session: Seq<char> },
    LookupNotFound,
    LookupFailed,
    SessionReady,
    HeartbeatStarted,
    Answered { answer: AnswerView },
    Delivered { message_id: i64 },
    HeartbeatStopped,
    Persisted,
    Failed,
}

impl View for Event {
    type V = EventView;

    open spec fn view(&self) -> EventView {
        match self {
            Event::LookupHit { session } => EventView::LookupHit { session: session@ },
            Event::LookupNotFound => EventView::LookupNotFound,
            Event::LookupFailed => EventView::LookupFailed,
            Event::SessionReady => EventView::SessionReady,
            Event::HeartbeatStarted => EventView::HeartbeatStarted,
            Event::Answered { answer } => EventView::Answered { answer: answer@ },
            Event::Delivered { message_id } => EventView::Delivered { message_id: *message_id },
            Event::HeartbeatStopped => EventView::HeartbeatStopped,
            Event::Persisted => EventView::Persisted,
            Event::Failed => EventView::Failed,
        }
    }
}

/// What to do next.
#[derive(Debug, PartialEq, Eq)]
pub enum Action {
    /// Ask the store for the session under `key`.
    Lookup { key: String },
    /// Resume the session from its stored form.
    Resume { session: String },
    /// Have the backend create a session of the given style.
    Create { style: Style },
    /// Start the heartbeat for the chat.
    StartHeartbeat { chat_id: i64 },
    /// Put the question to the backend.
    Ask { question: String },
    /// Send the response to the chat.
    Deliver { response: Response },
    /// Tell the heartbeat to stop.
    StopHeartbeat,
    /// Store the session under `key`, to expire after `ttl_seconds`.
    Persist { key: String, ttl_seconds: u64 },
    /// Leave with success.
    Finish,
    /// Leave with failure.
    Abort,
}

/// An action as plain values.
pub enum ActionView {
    Lookup { key: Seq<char> },
    Resume { session: Seq<char> },
    Create { style: Style },
    StartHeartbeat { chat_id: i64 },
    Ask { question: Seq<char> },
    Deliver { response: ResponseView },
    StopHeartbeat,
    Persist { key: Seq<char>, ttl_seconds: u64 },
    Finish,
    Abort,
}

impl View for Action {
    type V = ActionView;

    open spec fn view(&self) -> ActionView {
        match self {
            Action::Lookup { key } => ActionView::Lookup { key: key@ },
            Action::Resume { session } => ActionView::Resume { session: session@ },
            Action::Create { style } => ActionView::Create { style: *style },
            Action::StartHeartbeat { chat_id } => ActionView::StartHeartbeat { chat_id: *chat_id },
            Action::Ask { question } => ActionView::Ask { question: question@ },
            Action::Deliver { response } => ActionView::Deliver { response: response@ },
            Action::StopHeartbeat => ActionView::StopHeartbeat,
            Action::Persist { key, ttl_seconds } => ActionView::Persist {
                key: key@,
                ttl_seconds: *ttl_seconds,
            },
            Action::Finish => ActionView::Finish,
            Action::Abort => ActionView::Abort,
        }
    }
}

/// An invocation under way.
#[derive(Debug, PartialEq, Eq)]
pub struct Relay {
    pub phase: Phase,
    pub request: Request,
    pub style: Style,
    pub mode: MarkupMode,
}

/// An invocation under way, as plain values.
pub struct RelayView {
    pub phase: Phase,
    pub request: RequestView,
    pub style: Style,
    pub mode: MarkupMode,
}

impl View for Relay {
    type V = RelayView;

    open spec fn view(&self) -> RelayView {
        RelayView {
            phase: self.phase,
            request: self.request@,
            style: self.style,
            mode: self.mode,
        }
    }
}

impl RelayView {
    /// Whether the style that the invocation goes by is the one that its
    /// request names.
    pub open spec fn well_formed(self) -> bool {
        style_named(self.request.style) == Some(self.style)
    }

    /// The invocation as it begins: waiting for the store if the request is
    /// a reply, for a fresh session if it is not.
    pub open spec fn begin(request: RequestView, style: Style, mode: MarkupMode) -> RelayView {
        RelayView {
            phase: if request.reply_to_message_id is Some {
                Phase::AwaitLookup
            } else {
                Phase::AwaitSession
            },
            request,
            style,
            mode,
        }
    }

    /// The first action: a reply looks its conversation's session up, any
    /// other request has a session created without asking the store.
    pub open spec fn first_action(self) -> ActionView {
        match self.request.lookup_key() {
            Some(key) => ActionView::Lookup { key },
            None => ActionView::Create { style: self.style },
        }
    }

    /// The action that answers `event`. An event that is not the one
    /// awaited, a failure among them, aborts the invocation.
    pub open spec fn next_action(self, event: EventView) -> ActionView {
        match (self.phase, event) {
            (Phase::AwaitLookup, EventView::LookupHit { session }) => ActionView::Resume {
                session,
            },
            (Phase::AwaitLookup, EventView::LookupNotFound) => ActionView::Create {
                style: self.style,
            },
            (Phase::AwaitLookup, EventView::LookupFailed) => ActionView::Create {
                style: self.style,
            },
            (Phase::AwaitSession, EventView::SessionReady) => ActionView::StartHeartbeat {
                chat_id: self.request.chat_id,
            },
            (Phase::AwaitHeartbeat, EventView::HeartbeatStarted) => ActionView::Ask {
                question: self.request.question,
            },
            (Phase::AwaitAnswer, EventView::Answered { answer }) => ActionView::Deliver {
                response: ResponseView::carrying(
                    self.request.chat_id,
                    self.request.message_id,
                    answer.text,
                    answer.citations,
                    self.mode,
                ),
            },
            (Phase::AwaitDelivery, EventView::Delivered { message_id }) => ActionView::StopHeartbeat,
            (Phase::AwaitSilence { delivered }, EventView::HeartbeatStopped) => ActionView::Persist {
                key: self.request.persist_key(delivered),
                ttl_seconds: SESSION_TTL_SECONDS,
            },
            (Phase::AwaitPersist, EventView::Persisted) => ActionView::Finish,
            _ => ActionView::Abort,
        }
    }

    /// What the invocation waits for once it has answered `event`.
    pub open spec fn next_phase(self, event: EventView) -> Phase {
        match (self.phase, event) {
            (Phase::AwaitLookup, EventView::LookupHit { session }) => Phase::AwaitSession,
            (Phase::AwaitLookup, EventView::LookupNotFound) => Phase::AwaitSession,
            (Phase::AwaitLookup, EventView::LookupFailed) => Phase::AwaitSession,
            (Phase::AwaitSession, EventView::SessionReady) => Phase::AwaitHeartbeat,
            (Phase::AwaitHeartbeat, EventView::HeartbeatStarted) => Phase::AwaitAnswer,
            (Phase::AwaitAnswer, EventView::Answered { answer }) => Phase::AwaitDelivery,
            (Phase::AwaitDelivery, EventView::Delivered { message_id }) => Phase::AwaitSilence {
                delivered: message_id,
            },
            (Phase::AwaitSilence { delivered }, EventView::HeartbeatStopped) => Phase::AwaitPersist,
            (Phase::AwaitPersist, EventView::Persisted) => Phase::Done,
            _ => Phase::Aborted,
        }
    }

    /// The invocation once it has answered `event`.
    pub open spec fn after(self, event: EventView) -> RelayView {
        RelayView {
            phase: self.next_phase(event),
            request: self.request,
            style: self.style,
            mode: self.mode,
        }
    }

    /// The actions that answer `events`, one for each, in order.
    pub open spec fn run(self, events: Seq<EventView>) -> Seq<ActionView>
        decreases events.len(),
    {
        if events.len() == 0 {
            Seq::empty()
        } else {
            seq![self.next_action(events[0])] + self.after(events[0]).run(events.skip(1))
        }
    }

    /// All the actions of an invocation that has just begun and is then
    /// given `events`: the first action, then one for each event.
    pub open spec fn trace(self, events: Seq<EventView>) -> Seq<ActionView> {
        seq![self.first_action()] + self.run(events)
    }
}

impl Relay {
    /// Begins an invocation for `request`. The request's style is read
    /// before anything else is done: a request whose style names no style
    /// is refused, and nothing is to be done for it.
    pub fn start(request: Request, mode: MarkupMode) -> (begun: Result<(Relay, Action), UnknownStyle>)
        ensures
            match begun {
                Ok((relay, action)) => {
                    &&& relay@.well_formed()
                    &&& relay@ == RelayView::begin(request@, relay.style, mode)
                    &&& action@ == relay@.first_action()
                },
                Err(_) => style_named(request@.style) is None,
            },
    {
        let style = match parse_style(request.style.as_str()) {
            Ok(style) => style,
            Err(refusal) => {
                return Err(refusal);
            },
        };
        match request.lookup_key() {
            Some(key) => Ok(
                (Relay { phase: Phase::AwaitLookup, request, style, mode }, Action::Lookup { key }),
            ),
            None => Ok(
                (Relay { phase: Phase::AwaitSession, request, style, mode }, Action::Create { style }),
            ),
        }
    }

    /// Takes note of what came of the last action and says what to do next.
    pub fn step(self, event: Event) -> (next: (Relay, Action))
        ensures
            next.0@ == self@.after(event@),
            next.1@ == self@.next_action(event@),
            self@.well_formed() ==> next.0@.well_formed(),
    {
        let Relay { phase, request, style, mode } = self;
        let (phase, action) = match (phase, event) {
            (Phase::AwaitLookup, Event::LookupHit { session }) => (
                Phase::AwaitSession,
                Action::Resume { session },
            ),
            (Phase::AwaitLookup, Event::LookupNotFound) => (
                Phase::AwaitSession,
                Action::Create { style },
            ),
            (Phase::AwaitLookup, Event::LookupFailed) => (
                Phase::AwaitSession,
                Action::Create { style },
            ),
            (Phase::AwaitSession, Event::SessionReady) => (
                Phase::AwaitHeartbeat,
                Action::StartHeartbeat { chat_id: request.chat_id },
            ),
            (Phase::AwaitHeartbeat, Event::HeartbeatStarted) => (
                Phase::AwaitAnswer,
                Action::Ask { question: request.question.clone() },
            ),
            (Phase::AwaitAnswer, Event::Answered { answer }) => (
                Phase::AwaitDelivery,
                Action::Deliver {
                    response: Response::in_mode(request.chat_id, request.message_id, answer, mode),
                },
            ),
            (Phase::AwaitDelivery, Event::Delivered { message_id }) => (
                Phase::AwaitSilence { delivered: message_id },
                Action::StopHeartbeat,
            ),
            (Phase::AwaitSilence { delivered }, Event::HeartbeatStopped) => (
                Phase::AwaitPersist,
                Action::Persist {
                    key: request.persist_key(delivered),
                    ttl_seconds: SESSION_TTL_SECONDS,
                },
            ),
            (Phase::AwaitPersist, Event::Persisted) => (Phase::Done, Action::Finish),
            _ => (Phase::Aborted, Action::Abort),
        };
        (Relay { phase, request, style, mode }, action)
    }
}

/// The place of a phase in the course of an invocation.
pub open spec fn rank(phase: Phase) -> nat {
    match phase {
        Phase::AwaitLookup => 0,
        Phase::AwaitSession => 1,
        Phase::AwaitHeartbeat => 2,
        Phase::AwaitAnswer => 3,
        Phase::AwaitDelivery => 4,
        Phase::AwaitSilence { delivered } => 5,
        Phase::AwaitPersist => 6,
        Phase::Done => 7,
        Phase::Aborted => 8,
    }
}

/// The place of an action in the course of an invocation. Resuming a
/// session and creating one share a place: an invocation does one or the
/// other.
pub open spec fn stage(action: ActionView) -> nat {
    match action {
        ActionView::Lookup { key } => 0,
        ActionView::Resume { session } => 1,
        ActionView::Create { style } => 1,
        ActionView::StartHeartbeat { chat_id } => 2,
        ActionView::Ask { question } => 3,
        ActionView::Deliver { response } => 4,
        ActionView::StopHeartbeat => 5,
        ActionView::Persist { key, ttl_seconds } => 6,
        ActionView::Finish => 7,
        ActionView::Abort => 8,
    }
}

/// What a store answers when it is asked for `key`.
pub open spec fn looked_up(store: Map<Seq<char>, Seq<char>>, key: Seq<char>) -> EventView {
    if store.dom().contains(key) {
        EventView::LookupHit { session: store[key] }
    } else {
        EventView::LookupNotFound
    }
}

proof fn lemma_run_len(state: RelayView, events: Seq<EventView>)
    ensures
        state.run(events).len() == events.len(),
    decreases events.len(),
{
    if events.len() > 0 {
        lemma_run_len(state.after(events[0]), events.skip(1));
    }
}

proof fn lemma_run_after_the_end(state: RelayView, events: Seq<EventView>, at: int)
    requires
        state.phase == Phase::Done || state.phase == Phase::Aborted,
        0 <= at < events.len(),
    ensures
        state.run(events).len() == events.len(),
        state.run(events)[at] == ActionView::Abort,
    decreases events.len(),
{
    lemma_run_len(state, events);
    lemma_run_len(state.after(events[0]), events.skip(1));
    if at > 0 {
        lemma_run_after_the_end(state.after(events[0]), events.skip(1), at - 1);
    }
}

proof fn lemma_run_moves_on(state: RelayView, events: Seq<EventView>, at: int)
    requires
        0 <= at < events.len(),
    ensures
        state.run(events).len() == events.len(),
        state.run(events)[at] == ActionView::Abort || stage(state.run(events)[at]) > rank(
            state.phase,
        ),
    decreases events.len(),
{
    lemma_run_len(state, events);
    lemma_run_len(state.after(events[0]), events.skip(1));
    if at > 0 {
        lemma_run_moves_on(state.after(events[0]), events.skip(1), at - 1);
    }
}

proof fn lemma_run_in_order(state: RelayView, events: Seq<EventView>, earlier: int, later: int)
    requires
        0 <= earlier < later < events.len(),
    ensures
        state.run(events).len() == events.len(),
        state.run(events)[later] == ActionView::Abort || stage(state.run(events)[earlier]) < stage(
            state.run(events)[later],
        ),
    decreases events.len(),
{
    let next = state.after(events[0]);
    let rest = events.skip(1);
    lemma_run_len(state, events);
    lemma_run_len(next, rest);
    if earlier > 0 {
        lemma_run_in_order(next, rest, earlier - 1, later - 1);
    } else if state.next_action(events[0]) == ActionView::Abort {
        lemma_run_after_the_end(next, rest, later - 1);
    } else {
        lemma_run_moves_on(next, rest, later - 1);
    }
}

/// An invocation goes one way only. Of any two actions that it is given,
/// the later one is further along than the earlier one, unless the later
/// one is to abort. So no action is given twice, a session is resumed or
/// created but not both, the heartbeat is started before the question is
/// put and stopped only after the answer has come, and once the invocation
/// has been told to abort it is told nothing else.
pub proof fn lemma_trace_in_order(
    request: RequestView,
    style: Style,
    mode: MarkupMode,
    events: Seq<EventView>,
    earlier: int,
    later: int,
)
    requires
        0 <= earlier < later <= events.len(),
    ensures
        RelayView::begin(request, style, mode).trace(events).len() == events.len() + 1,
        ({
            let trace = RelayView::begin(request, style, mode).trace(events);
            trace[later] == ActionView::Abort || stage(trace[earlier]) < stage(trace[later])
        }),
{
    let begun = RelayView::begin(request, style, mode);
    lemma_run_len(begun, events);
    if earlier > 0 {
        lemma_run_in_order(begun, events, earlier - 1, later - 1);
    } else {
        lemma_run_moves_on(begun, events, later - 1);
    }
}

/// Falling back on a miss. Where the store holds nothing under the key of
/// the message that a request replies to, the invocation looks the key up,
/// is told so, and has a session created in the request's style: the miss
/// does not abort it. Nowhere else in the invocation, whatever happens
/// next, is a session created.
pub proof fn lemma_miss_creates_one_session(
    request: RequestView,
    style: Style,
    mode: MarkupMode,
    store: Map<Seq<char>, Seq<char>>,
    events: Seq<EventView>,
)
    requires
        request.lookup_key() matches Some(key) && !store.dom().contains(key),
        events.len() > 0,
        events[0] == looked_up(store, request.lookup_key()->0),
    ensures
        ({
            let trace = RelayView::begin(request, style, mode).trace(events);
            &&& trace.len() == events.len() + 1
            &&& trace[0] == ActionView::Lookup { key: request.lookup_key()->0 }
            &&& trace[1] == ActionView::Create { style }
            &&& forall|at: int| 0 <= at < trace.len() && at != 1 ==> !(#[trigger] trace[at] is Create)
        }),
{
    let begun = RelayView::begin(request, style, mode);
    let trace = begun.trace(events);
    lemma_run_len(begun, events);
    lemma_run_len(begun.after(events[0]), events.skip(1));
    assert forall|at: int| 0 <= at < trace.len() && at != 1 implies !(#[trigger] trace[at] is Create) by {
        if at > 1 {
            lemma_trace_in_order(request, style, mode, events, 1, at);
        }
    }
}

} // verus!
