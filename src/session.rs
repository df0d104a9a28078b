//! What runs on an upgraded connection: the message model, the handler
//! capability with its two route handlers, and the per-connection session
//! state machine that drives a handler from the upgrade to its end.
use vstd::prelude::*;
use vstd::string::StringExecFns;

verus! {

/// A WebSocket message, as far as the handlers tell kinds apart.
#[derive(Debug, PartialEq, Eq)]
pub enum WsMessage {
    Text(String),
    Binary(Vec<u8>),
    Ping(Vec<u8>),
    Pong(Vec<u8>),
    Close,
}

/// What a `WsMessage` holds, as sequences.
pub enum MessageView {
    Text(Seq<char>),
    Binary(Seq<u8>),
    Ping(Seq<u8>),
    Pong(Seq<u8>),
    Close,
}

impl View for WsMessage {
    type V = MessageView;

    open spec fn view(&self) -> MessageView {
        match self {
            WsMessage::Text(t) => MessageView::Text(t@),
            WsMessage::Binary(b) => MessageView::Binary(b@),
            WsMessage::Ping(b) => MessageView::Ping(b@),
            WsMessage::Pong(b) => MessageView::Pong(b@),
            WsMessage::Close => MessageView::Close,
        }
    }
}

pub open spec fn messages_view(ms: Seq<WsMessage>) -> Seq<MessageView> {
    ms.map_values(|m: WsMessage| m@)
}

/// A handler's answer to one occasion: the messages to send, in order, and
/// whether the handler has finished.
#[derive(Debug, PartialEq, Eq)]
pub struct Reaction {
    pub outgoing: Vec<WsMessage>,
    pub finished: bool,
}

impl View for Reaction {
    type V = (Seq<MessageView>, bool);

    open spec fn view(&self) -> (Seq<MessageView>, bool) {
        (messages_view(self.outgoing@), self.finished)
    }
}

/// The logic of one route once its connection is upgraded. A handler holds
/// no state shared with other connections.
pub trait WsCallback {
    /// What the handler does as the session starts.
    spec fn spec_on_open(&self) -> (Seq<MessageView>, bool);

    /// What the handler does with one message from the client.
    spec fn spec_on_message(&self, m: MessageView) -> (Seq<MessageView>, bool);

    /// Starts the handler on a freshly upgraded connection.
    fn on_open(&self) -> (r: Reaction)
        ensures
            r@ == self.spec_on_open(),
    ;

    /// Handles one message from the client.
    fn on_message(&self, m: &WsMessage) -> (r: Reaction)
        ensures
            r@ == self.spec_on_message(m@),
    ;
}

pub const GREETING: &'static str = "Ready to receive message...";

pub const ECHO_PREFIX: &'static str = "Received: ";

pub const VERSION_TEXT: &'static str = "Version 0.1.0";

/// The echo handler: greets, echoes text, answers pings, stops on close.
#[derive(Clone, Copy, Debug, PartialEq, Eq, Structural)]
pub struct MessageHandler();

/// The version handler: one informational text, then a close.
#[derive(Clone, Copy, Debug, PartialEq, Eq, Structural)]
pub struct VersionHandler();

impl WsCallback for MessageHandler {
    open spec fn spec_on_open(&self) -> (Seq<MessageView>, bool) {
        (seq![MessageView::Text(GREETING@)], false)
    }

    open spec fn spec_on_message(&self, m: MessageView) -> (Seq<MessageView>, bool) {
        match m {
            MessageView::Text(t) => (seq![MessageView::Text(ECHO_PREFIX@ + t)], false),
            MessageView::Ping(_) => (seq![MessageView::Pong(Seq::empty())], false),
            MessageView::Close => (Seq::empty(), true),
            _ => (Seq::empty(), false),
        }
    }

    fn on_open(&self) -> (r: Reaction) {
        let mut outgoing: Vec<WsMessage> = Vec::new();
        outgoing.push(WsMessage::Text(String::from_str(GREETING)));
        let r = Reaction { outgoing, finished: false };
        assert(r@.0 =~= self.spec_on_open().0);
        r
    }

    fn on_message(&self, m: &WsMessage) -> (r: Reaction) {
        let mut outgoing: Vec<WsMessage> = Vec::new();
        let finished = match m {
            WsMessage::Text(t) => {
                let mut echo = String::from_str(ECHO_PREFIX);
                echo.append(t.as_str());
                outgoing.push(WsMessage::Text(echo));
                false
            },
            WsMessage::Ping(_) => {
                outgoing.push(WsMessage::Pong(Vec::new()));
                false
            },
            WsMessage::Close => true,
            _ => false,
        };
        let r = Reaction { outgoing, finished };
        assert(r@.0 =~= self.spec_on_message(m@).0);
        r
    }
}

impl WsCallback for VersionHandler {
    open spec fn spec_on_open(&self) -> (Seq<MessageView>, bool) {
        (seq![MessageView::Text(VERSION_TEXT@), MessageView::Close], true)
    }

    open spec fn spec_on_message(&self, m: MessageView) -> (Seq<MessageView>, bool) {
        (Seq::empty(), true)
    }

    fn on_open(&self) -> (r: Reaction) {
        let mut outgoing: Vec<WsMessage> = Vec::new();
        outgoing.push(WsMessage::Text(String::from_str(VERSION_TEXT)));
        outgoing.push(WsMessage::Close);
        let r = Reaction { outgoing, finished: true };
        assert(r@.0 =~= self.spec_on_open().0);
        r
    }

    fn on_message(&self, m: &WsMessage) -> (r: Reaction) {
        let r = Reaction { outgoing: Vec::new(), finished: true };
        assert(r@.0 =~= self.spec_on_message(m@).0);
        r
    }
}

/// The handler that a route selects: a closed set, dispatched by variant.
#[derive(Clone, Copy, Debug, PartialEq, Eq, Structural)]
pub enum RouteHandler {
    Messages(MessageHandler),
    Version(VersionHandler),
}

impl WsCallback for RouteHandler {
    open spec fn spec_on_open(&self) -> (Seq<MessageView>, bool) {
        match self {
            RouteHandler::Messages(h) => h.spec_on_open(),
            RouteHandler::Version(h) => h.spec_on_open(),
        }
    }

    open spec fn spec_on_message(&self, m: MessageView) -> (Seq<MessageView>, bool) {
        match self {
            RouteHandler::Messages(h) => h.spec_on_message(m),
            RouteHandler::Version(h) => h.spec_on_message(m),
        }
    }

    fn on_open(&self) -> (r: Reaction) {
        match self {
            RouteHandler::Messages(h) => h.on_open(),
            RouteHandler::Version(h) => h.on_open(),
        }
    }

    fn on_message(&self, m: &WsMessage) -> (r: Reaction) {
        match self {
            RouteHandler::Messages(h) => h.on_message(m),
            RouteHandler::Version(h) => h.on_message(m),
        }
    }
}

/// Where a connection stands.
#[derive(Clone, Copy, Debug, PartialEq, Eq, Structural)]
pub enum SessionPhase {
    /// The response is on its way; the transport is not upgraded yet.
    PendingUpgrade,
    /// The handler is running and waits for client messages.
    Active,
    /// The handler has finished; its last messages are being sent.
    Closing,
    /// The session ended without error.
    Closed,
    /// The session ended on an error.
    Failed,
}

/// What happened on a connection since the last step.
pub enum SessionEvent {
    /// The transport was handed over as a raw stream.
    UpgradeCompleted,
    /// The transport upgrade never completed.
    UpgradeFailed,
    /// A message arrived from the client.
    Received(WsMessage),
    /// Reading the next message failed (I/O or decoding).
    ReceiveFailed,
    /// The client's side of the stream ended.
    StreamEnded,
    /// Sending a message failed.
    SendFailed,
    /// Every message of the last step has been sent.
    Flushed,
}

pub enum EventView {
    UpgradeCompleted,
    UpgradeFailed,
    Received(MessageView),
    ReceiveFailed,
    StreamEnded,
    SendFailed,
    Flushed,
}

impl View for SessionEvent {
    type V = EventView;

    open spec fn view(&self) -> EventView {
        match self {
            SessionEvent::UpgradeCompleted => EventView::UpgradeCompleted,
            SessionEvent::UpgradeFailed => EventView::UpgradeFailed,
            SessionEvent::Received(m) => EventView::Received(m@),
            SessionEvent::ReceiveFailed => EventView::ReceiveFailed,
            SessionEvent::StreamEnded => EventView::StreamEnded,
            SessionEvent::SendFailed => EventView::SendFailed,
            SessionEvent::Flushed => EventView::Flushed,
        }
    }
}

/// A failure that ends a session; reported as a diagnostic only, since the
/// HTTP response has already been sent.
#[derive(Clone, Copy, Debug, PartialEq, Eq, Structural)]
pub enum Diagnostic {
    UpgradeIncomplete,
    HandlerError,
}

/// What one step asks of the transport: messages to send, in order, and
/// a failure to report, if any.
#[derive(Debug, PartialEq, Eq)]
pub struct Step {
    pub outgoing: Vec<WsMessage>,
    pub report: Option<Diagnostic>,
}

impl View for Step {
    type V = (Seq<MessageView>, Option<Diagnostic>);

    open spec fn view(&self) -> (Seq<MessageView>, Option<Diagnostic>) {
        (messages_view(self.outgoing@), self.report)
    }
}

/// The state of one upgraded connection. Each connection owns its own
/// session; sessions share nothing.
#[derive(Clone, Copy, Debug, PartialEq, Eq, Structural)]
pub struct ConnectionSession {
    pub phase: SessionPhase,
    pub handler: RouteHandler,
}

pub open spec fn is_terminal(p: SessionPhase) -> bool {
    p == SessionPhase::Closed || p == SessionPhase::Failed
}

/// The phase a handler's reaction leads to.
pub open spec fn after_reaction(finished: bool) -> SessionPhase {
    if finished {
        SessionPhase::Closing
    } else {
        SessionPhase::Active
    }
}

/// One transition: the next session, the messages to send, and the failure
/// to report. Events that cannot occur in a phase leave it as it is.
pub open spec fn spec_step(s: ConnectionSession, ev: EventView) -> (
    ConnectionSession,
    Seq<MessageView>,
    Option<Diagnostic>,
) {
    let stay = (s, Seq::<MessageView>::empty(), None::<Diagnostic>);
    let to = |p: SessionPhase| ConnectionSession { phase: p, handler: s.handler };
    match s.phase {
        SessionPhase::PendingUpgrade => match ev {
            EventView::UpgradeCompleted => {
                let (out, finished) = s.handler.spec_on_open();
                (to(after_reaction(finished)), out, None)
            },
            EventView::UpgradeFailed => (
                to(SessionPhase::Failed),
                Seq::empty(),
                Some(Diagnostic::UpgradeIncomplete),
            ),
            _ => stay,
        },
        SessionPhase::Active => match ev {
            EventView::Received(m) => {
                let (out, finished) = s.handler.spec_on_message(m);
                (to(after_reaction(finished)), out, None)
            },
            EventView::StreamEnded => (to(SessionPhase::Closed), Seq::empty(), None),
            EventView::ReceiveFailed | EventView::SendFailed => (
                to(SessionPhase::Failed),
                Seq::empty(),
                Some(Diagnostic::HandlerError),
            ),
            _ => stay,
        },
        SessionPhase::Closing => match ev {
            EventView::Flushed => (to(SessionPhase::Closed), Seq::empty(), None),
            EventView::SendFailed => (
                to(SessionPhase::Failed),
                Seq::empty(),
                Some(Diagnostic::HandlerError),
            ),
            _ => stay,
        },
        SessionPhase::Closed | SessionPhase::Failed => stay,
    }
}

impl ConnectionSession {
    /// A session for a connection whose upgrade response is on its way.
    pub fn new(handler: RouteHandler) -> (r: ConnectionSession)
        ensures
            r == (ConnectionSession { phase: SessionPhase::PendingUpgrade, handler }),
    {
        ConnectionSession { phase: SessionPhase::PendingUpgrade, handler }
    }

    /// Whether the session has ended, with or without error.
    pub fn is_finished(&self) -> (r: bool)
        ensures
            r == is_terminal(self.phase),
    {
        match self.phase {
            SessionPhase::Closed | SessionPhase::Failed => true,
            _ => false,
        }
    }

    /// Takes one event and says what to send and what to report.
    pub fn step(&mut self, ev: SessionEvent) -> (r: Step)
        ensures
            spec_step(*old(self), ev@) == (*final(self), r@.0, r@.1),
    {
        let handler = self.handler;
        let empty = Step { outgoing: Vec::new(), report: None };
        proof {
            assert(empty@.0 =~= Seq::<MessageView>::empty());
        }
        match self.phase {
            SessionPhase::PendingUpgrade => match ev {
                SessionEvent::UpgradeCompleted => {
                    let reaction = handler.on_open();
                    self.phase = if reaction.finished {
                        SessionPhase::Closing
                    } else {
                        SessionPhase::Active
                    };
                    Step { outgoing: reaction.outgoing, report: None }
                },
                SessionEvent::UpgradeFailed => {
                    self.phase = SessionPhase::Failed;
                    Step { outgoing: Vec::new(), report: Some(Diagnostic::UpgradeIncomplete) }
                },
                _ => empty,
            },
            SessionPhase::Active => match ev {
                SessionEvent::Received(m) => {
                    let reaction = handler.on_message(&m);
                    self.phase = if reaction.finished {
                        SessionPhase::Closing
                    } else {
                        SessionPhase::Active
                    };
                    Step { outgoing: reaction.outgoing, report: None }
                },
                SessionEvent::StreamEnded => {
                    self.phase = SessionPhase::Closed;
                    empty
                },
                SessionEvent::ReceiveFailed | SessionEvent::SendFailed => {
                    self.phase = SessionPhase::Failed;
                    Step { outgoing: Vec::new(), report: Some(Diagnostic::HandlerError) }
                },
                _ => empty,
            },
            SessionPhase::Closing => match ev {
                SessionEvent::Flushed => {
                    self.phase = SessionPhase::Closed;
                    empty
                },
                SessionEvent::SendFailed => {
                    self.phase = SessionPhase::Failed;
                    Step { outgoing: Vec::new(), report: Some(Diagnostic::HandlerError) }
                },
                _ => empty,
            },
            SessionPhase::Closed | SessionPhase::Failed => empty,
        }
    }
}

/// Runs a session through a sequence of events: the session it ends in,
/// and every message sent on the way, in order.
pub open spec fn run(s: ConnectionSession, evs: Seq<EventView>) -> (
    ConnectionSession,
    Seq<MessageView>,
)
    decreases evs.len(),
{
    if evs.len() == 0 {
        (s, Seq::empty())
    } else {
        let (s1, out, _) = spec_step(s, evs[0]);
        let (s2, rest) = run(s1, evs.drop_first());
        (s2, out + rest)
    }
}

/// Running through one event and then more is one step followed by a run.
pub proof fn lemma_run_cons(s: ConnectionSession, ev: EventView, evs: Seq<EventView>)
    ensures
        run(s, seq![ev] + evs) == ({
            let (s1, out, _) = spec_step(s, ev);
            let (s2, rest) = run(s1, evs);
            (s2, out + rest)
        }),
{
    assert((seq![ev] + evs)[0] == ev);
    assert((seq![ev] + evs).drop_first() =~= evs);
}

/// Once a handler has finished, its session sends nothing more, whatever
/// the client does, and never becomes active again.
pub proof fn lemma_silent_after_finish(s: ConnectionSession, evs: Seq<EventView>)
    requires
        s.phase == SessionPhase::Closing || is_terminal(s.phase),
    ensures
        run(s, evs).1 == Seq::<MessageView>::empty(),
        run(s, evs).0.phase == SessionPhase::Closing || is_terminal(run(s, evs).0.phase),
    decreases evs.len(),
{
    if evs.len() > 0 {
        lemma_silent_after_finish(spec_step(s, evs[0]).0, evs.drop_first());
        assert(run(s, evs).1 =~= Seq::<MessageView>::empty());
    }
}

/// A version session sends exactly one informational text and then a close
/// once its connection is upgraded, and nothing after that, whatever the
/// client sends; it never returns to reading messages.
pub proof fn lemma_version_one_shot(evs: Seq<EventView>)
    ensures
        ({
            let s = ConnectionSession {
                phase: SessionPhase::PendingUpgrade,
                handler: RouteHandler::Version(VersionHandler()),
            };
            let (last, sent) = run(s, seq![EventView::UpgradeCompleted] + evs);
            &&& sent == seq![MessageView::Text(VERSION_TEXT@), MessageView::Close]
            &&& last.phase == SessionPhase::Closing || is_terminal(last.phase)
        }),
{
    let s = ConnectionSession {
        phase: SessionPhase::PendingUpgrade,
        handler: RouteHandler::Version(VersionHandler()),
    };
    lemma_run_cons(s, EventView::UpgradeCompleted, evs);
    let s1 = spec_step(s, EventView::UpgradeCompleted).0;
    lemma_silent_after_finish(s1, evs);
    assert(run(s, seq![EventView::UpgradeCompleted] + evs).1 =~= seq![
        MessageView::Text(VERSION_TEXT@),
        MessageView::Close,
    ]);
}

/// An echo session greets once upgraded, answers a text with that text
/// after the echo prefix, and on a close frame sends nothing more and ends
/// without error once its messages are out.
pub proof fn lemma_echo_exchange(t: Seq<char>)
    ensures
        ({
            let s = ConnectionSession {
                phase: SessionPhase::PendingUpgrade,
                handler: RouteHandler::Messages(MessageHandler()),
            };
            let evs = seq![
                EventView::UpgradeCompleted,
                EventView::Received(MessageView::Text(t)),
                EventView::Received(MessageView::Close),
                EventView::Flushed,
            ];
            run(s, evs) == (
                ConnectionSession { phase: SessionPhase::Closed, ..s },
                seq![MessageView::Text(GREETING@), MessageView::Text(ECHO_PREFIX@ + t)],
            )
        }),
{
    let s = ConnectionSession {
        phase: SessionPhase::PendingUpgrade,
        handler: RouteHandler::Messages(MessageHandler()),
    };
    let e0 = EventView::UpgradeCompleted;
    let e1 = EventView::Received(MessageView::Text(t));
    let e2 = EventView::Received(MessageView::Close);
    let e3 = EventView::Flushed;
    let s1 = spec_step(s, e0).0;
    let s2 = spec_step(s1, e1).0;
    let s3 = spec_step(s2, e2).0;
    lemma_run_cons(s3, e3, Seq::empty());
    assert(seq![e3] + Seq::<EventView>::empty() =~= seq![e3]);
    lemma_run_cons(s2, e2, seq![e3]);
    assert(seq![e2] + seq![e3] =~= seq![e2, e3]);
    lemma_run_cons(s1, e1, seq![e2, e3]);
    assert(seq![e1] + seq![e2, e3] =~= seq![e1, e2, e3]);
    lemma_run_cons(s, e0, seq![e1, e2, e3]);
    assert(seq![e0] + seq![e1, e2, e3] =~= seq![e0, e1, e2, e3]);
    assert(run(s, seq![e0, e1, e2, e3]).1 =~= seq![
        MessageView::Text(GREETING@),
        MessageView::Text(ECHO_PREFIX@ + t),
    ]);
}

/// The events of an interleaving that belong to one of two sessions: the
/// first when `first` holds, else the second.
pub open spec fn events_of(sched: Seq<(bool, EventView)>, first: bool) -> Seq<EventView>
    decreases sched.len(),
{
    if sched.len() == 0 {
        Seq::empty()
    } else if sched[0].0 == first {
        seq![sched[0].1] + events_of(sched.drop_first(), first)
    } else {
        events_of(sched.drop_first(), first)
    }
}

/// Runs two sessions side by side, each event going to the first session
/// when its flag holds and to the second otherwise: both end sessions and
/// what each one sent.
pub open spec fn run_pair(
    a: ConnectionSession,
    b: ConnectionSession,
    sched: Seq<(bool, EventView)>,
) -> (ConnectionSession, ConnectionSession, Seq<MessageView>, Seq<MessageView>)
    decreases sched.len(),
{
    if sched.len() == 0 {
        (a, b, Seq::empty(), Seq::empty())
    } else if sched[0].0 {
        let (a1, out, _) = spec_step(a, sched[0].1);
        let (a2, b2, sa, sb) = run_pair(a1, b, sched.drop_first());
        (a2, b2, out + sa, sb)
    } else {
        let (b1, out, _) = spec_step(b, sched[0].1);
        let (a2, b2, sa, sb) = run_pair(a, b1, sched.drop_first());
        (a2, b2, sa, out + sb)
    }
}

/// Two sessions running concurrently never observe each other: however
/// their events interleave, each ends where it would alone and sends what
/// it would send alone.
pub proof fn lemma_sessions_isolated(
    a: ConnectionSession,
    b: ConnectionSession,
    sched: Seq<(bool, EventView)>,
)
    ensures
        ({
            let (a2, b2, sa, sb) = run_pair(a, b, sched);
            &&& (a2, sa) == run(a, events_of(sched, true))
            &&& (b2, sb) == run(b, events_of(sched, false))
        }),
    decreases sched.len(),
{
    if sched.len() > 0 {
        let (first, ev) = sched[0];
        let rest = sched.drop_first();
        if first {
            let a1 = spec_step(a, ev).0;
            lemma_sessions_isolated(a1, b, rest);
            lemma_run_cons(a, ev, events_of(rest, true));
        } else {
            let b1 = spec_step(b, ev).0;
            lemma_sessions_isolated(a, b1, rest);
            lemma_run_cons(b, ev, events_of(rest, false));
        }
    }
}

} // verus!
