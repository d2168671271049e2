//! The session monitor: watches the daemon's event stream for the life of the
//! UI and turns its lifecycle into [`Signal`]s.
//!
//! [`Monitor`] holds the decisions only; its owner opens the stream, reads it
//! and reports each outcome as a [`MonitorEvent`].

use vstd::prelude::*;
use crate::status::{decimal, Endpoint};

verus! {

/// A lifecycle signal for the window controller.
#[derive(Debug, PartialEq)]
pub enum Signal {
    /// The stream is open: show the UI served at this address.
    Ready(String),
    /// Hide the UI (the stream could not be opened).
    Hide,
    /// End the session.
    Stop,
}

/// The kind of a signal, without its payload.
#[derive(Debug, Clone, Copy, PartialEq, Eq, Structural)]
pub enum SignalKind {
    Ready,
    Hide,
    Stop,
}

impl Signal {
    pub open spec fn kind(self) -> SignalKind {
        match self {
            Signal::Ready(_) => SignalKind::Ready,
            Signal::Hide => SignalKind::Hide,
            Signal::Stop => SignalKind::Stop,
        }
    }
}

/// What happened on the event stream.
#[derive(Debug, Clone, Copy, PartialEq, Eq, Structural)]
pub enum MonitorEvent {
    /// The stream opened.
    Connected,
    /// The stream could not be opened.
    ConnectFailed,
    /// A message other than a close frame arrived.
    Message,
    /// A close frame arrived.
    Close,
    /// Reading the stream failed.
    ReadFailed,
}

#[derive(Debug, Clone, Copy, PartialEq, Eq, Structural)]
pub enum MonitorState {
    Connecting,
    Open,
    Stopped,
}

/// Whether `event` ends the session.
pub open spec fn is_terminal(event: MonitorEvent) -> bool {
    event is ConnectFailed || event is Close || event is ReadFailed
}

/// The state after `event`.
pub open spec fn next_state(state: MonitorState, event: MonitorEvent) -> MonitorState {
    match state {
        MonitorState::Stopped => MonitorState::Stopped,
        _ => if is_terminal(event) {
            MonitorState::Stopped
        } else if event is Connected {
            MonitorState::Open
        } else {
            state
        },
    }
}

/// The kinds of the signals emitted on `event`.
pub open spec fn emitted(state: MonitorState, event: MonitorEvent) -> Seq<SignalKind> {
    match (state, event) {
        (MonitorState::Stopped, _) => Seq::empty(),
        (MonitorState::Connecting, MonitorEvent::Connected) => seq![SignalKind::Ready],
        (MonitorState::Connecting, MonitorEvent::ConnectFailed) => seq![
            SignalKind::Hide,
            SignalKind::Stop,
        ],
        (_, event) => if is_terminal(event) {
            seq![SignalKind::Stop]
        } else {
            Seq::empty()
        },
    }
}

/// The kinds of all signals emitted over a run of events from `state`.
pub open spec fn run(state: MonitorState, events: Seq<MonitorEvent>) -> Seq<SignalKind>
    decreases events.len(),
{
    if events.len() == 0 {
        Seq::empty()
    } else {
        emitted(state, events[0]) + run(next_state(state, events[0]), events.drop_first())
    }
}

/// How many times `kind` occurs in `kinds`.
pub open spec fn count(kinds: Seq<SignalKind>, kind: SignalKind) -> nat
    decreases kinds.len(),
{
    if kinds.len() == 0 {
        0
    } else {
        (if kinds[0] == kind {
            1nat
        } else {
            0nat
        }) + count(kinds.drop_first(), kind)
    }
}

/// The monitor of the stream served at one endpoint.
#[derive(Debug)]
pub struct Monitor {
    authority: String,
    state: MonitorState,
}

impl Monitor {
    pub closed spec fn state(&self) -> MonitorState {
        self.state
    }

    /// `host:port` of the service.
    pub closed spec fn authority(&self) -> Seq<char> {
        self.authority@
    }

    pub open spec fn http_url(&self) -> Seq<char> {
        "http://"@ + self.authority() + "/"@
    }

    pub open spec fn ws_url(&self) -> Seq<char> {
        "ws://"@ + self.authority() + "/api/websocket"@
    }

    pub fn new(endpoint: &Endpoint) -> (r: Monitor)
        ensures
            r.state() == MonitorState::Connecting,
            r.authority() == endpoint.authority(),
    {
        Monitor { authority: endpoint.address(), state: MonitorState::Connecting }
    }

    pub fn current_state(&self) -> (r: MonitorState)
        ensures
            r == self.state(),
    {
        self.state
    }

    /// The address of the UI: `http://host:port/`.
    pub fn http_address(&self) -> (r: String)
        ensures
            r@ == self.http_url(),
    {
        let mut r = "http://".to_string();
        r.append(self.authority.as_str());
        r.append("/");
        r
    }

    /// The address of the event stream: `ws://host:port/api/websocket`.
    pub fn ws_address(&self) -> (r: String)
        ensures
            r@ == self.ws_url(),
    {
        let mut r = "ws://".to_string();
        r.append(self.authority.as_str());
        r.append("/api/websocket");
        r
    }

    /// Takes what happened on the stream and returns the signals to emit.
    pub fn step(&mut self, event: MonitorEvent) -> (r: Vec<Signal>)
        ensures
            final(self).authority() == old(self).authority(),
            final(self).state() == next_state(old(self).state(), event),
            r@.map_values(|s: Signal| s.kind()) == emitted(old(self).state(), event),
            forall|i: int|
                0 <= i < r@.len() ==> (#[trigger] r@[i] matches Signal::Ready(a) ==> a@
                    == old(self).http_url()),
    {
        let mut r: Vec<Signal> = Vec::new();
        match self.state {
            MonitorState::Stopped => {},
            MonitorState::Connecting => {
                match event {
                    MonitorEvent::Connected => {
                        r.push(Signal::Ready(self.http_address()));
                        self.state = MonitorState::Open;
                    },
                    MonitorEvent::ConnectFailed => {
                        r.push(Signal::Hide);
                        r.push(Signal::Stop);
                        self.state = MonitorState::Stopped;
                    },
                    MonitorEvent::Message => {},
                    _ => {
                        r.push(Signal::Stop);
                        self.state = MonitorState::Stopped;
                    },
                }
            },
            MonitorState::Open => {
                match event {
                    MonitorEvent::Connected | MonitorEvent::Message => {},
                    _ => {
                        r.push(Signal::Stop);
                        self.state = MonitorState::Stopped;
                    },
                }
            },
        }
        proof {
            let kinds = r@.map_values(|s: Signal| s.kind());
            assert(kinds =~= emitted(old(self).state(), event));
        }
        r
    }
}

proof fn lemma_count_concat(a: Seq<SignalKind>, b: Seq<SignalKind>, kind: SignalKind)
    ensures
        count(a + b, kind) == count(a, kind) + count(b, kind),
    decreases a.len(),
{
    if a.len() == 0 {
        assert(a + b =~= b);
    } else {
        assert((a + b).drop_first() =~= a.drop_first() + b);
        lemma_count_concat(a.drop_first(), b, kind);
    }
}

/// Over any run of events: at most one `Stop`, and none once stopped;
/// exactly one `Stop` once a run from a live state holds a terminal event.
proof fn lemma_run_counts(state: MonitorState, events: Seq<MonitorEvent>)
    ensures
        count(run(state, events), SignalKind::Stop) <= (if state is Stopped {
            0nat
        } else {
            1nat
        }),
        !(state is Stopped) && (exists|i: int| 0 <= i < events.len() && is_terminal(#[trigger] events[i]))
            ==> count(run(state, events), SignalKind::Stop) == 1,
    decreases events.len(),
{
    if events.len() > 0 {
        let e = events[0];
        let next = next_state(state, e);
        let rest = events.drop_first();
        lemma_run_counts(next, rest);
        lemma_count_concat(emitted(state, e), run(next, rest), SignalKind::Stop);
        let here = emitted(state, e);
        assert(count(here, SignalKind::Stop) == (if !(state is Stopped) && is_terminal(e) {
            1nat
        } else {
            0nat
        })) by {
            reveal_with_fuel(count, 3);
        }
        if !(state is Stopped) && !is_terminal(e) {
            if exists|i: int| 0 <= i < events.len() && is_terminal(#[trigger] events[i]) {
                let i = choose|i: int| 0 <= i < events.len() && is_terminal(#[trigger] events[i]);
                assert(i > 0);
                assert(rest[i - 1] == events[i]);
            }
        }
    }
}

/// Whether the stream opened: the first event other than a plain message is
/// `Connected`.
pub open spec fn connects(events: Seq<MonitorEvent>) -> bool
    decreases events.len(),
{
    if events.len() == 0 {
        false
    } else if events[0] is Message {
        connects(events.drop_first())
    } else {
        events[0] is Connected
    }
}

proof fn lemma_stopped_is_silent(events: Seq<MonitorEvent>)
    ensures
        run(MonitorState::Stopped, events) == Seq::<SignalKind>::empty(),
    decreases events.len(),
{
    if events.len() > 0 {
        lemma_stopped_is_silent(events.drop_first());
    }
}

/// From `Connecting`, `Ready` comes exactly when the stream opens; from any
/// other state it never comes.
proof fn lemma_ready_iff_connected(state: MonitorState, events: Seq<MonitorEvent>)
    ensures
        count(run(state, events), SignalKind::Ready) == (if state is Connecting && connects(events) {
            1nat
        } else {
            0nat
        }),
    decreases events.len(),
{
    if events.len() > 0 {
        let e = events[0];
        let next = next_state(state, e);
        let rest = events.drop_first();
        lemma_ready_iff_connected(next, rest);
        lemma_count_concat(emitted(state, e), run(next, rest), SignalKind::Ready);
        assert(count(emitted(state, e), SignalKind::Ready) == (if state is Connecting && e is Connected {
            1nat
        } else {
            0nat
        })) by {
            reveal_with_fuel(count, 3);
        }
    }
}

/// Nothing follows a `Stop`.
proof fn lemma_stop_is_last(state: MonitorState, events: Seq<MonitorEvent>)
    ensures
        forall|i: int|
            0 <= i < run(state, events).len() && #[trigger] run(state, events)[i] == SignalKind::Stop
                ==> i == run(state, events).len() - 1,
    decreases events.len(),
{
    if events.len() > 0 {
        let e = events[0];
        let next = next_state(state, e);
        let rest = events.drop_first();
        let here = emitted(state, e);
        let all = run(state, events);
        lemma_stop_is_last(next, rest);
        assert(all == here + run(next, rest));
        if next is Stopped && !(state is Stopped) {
            lemma_stopped_is_silent(rest);
            assert(all =~= here);
        } else {
            assert forall|i: int| 0 <= i < here.len() implies here[i] != SignalKind::Stop by {}
            assert forall|i: int|
                0 <= i < all.len() && #[trigger] all[i] == SignalKind::Stop implies i == all.len() - 1 by {
                assert(i >= here.len());
                assert(all[i] == run(next, rest)[i - here.len()]);
            }
        }
    }
}

/// A session emits at most one `Stop`, and nothing after it. When the stream
/// ends (a failed connect, a close frame or a read error) it has emitted
/// exactly one `Stop`. It emits `Ready` once if the stream opened and never
/// otherwise, so a `Ready` always comes before the `Stop`.
pub proof fn lemma_single_stop(events: Seq<MonitorEvent>)
    ensures
        count(run(MonitorState::Connecting, events), SignalKind::Stop) <= 1,
        events.len() > 0 && is_terminal(events.last()) ==> count(
            run(MonitorState::Connecting, events),
            SignalKind::Stop,
        ) == 1,
        count(run(MonitorState::Connecting, events), SignalKind::Ready) == (if connects(events) {
            1nat
        } else {
            0nat
        }),
        forall|i: int|
            0 <= i < run(MonitorState::Connecting, events).len() && #[trigger] run(
                MonitorState::Connecting,
                events,
            )[i] == SignalKind::Stop ==> i == run(MonitorState::Connecting, events).len() - 1,
{
    lemma_run_counts(MonitorState::Connecting, events);
    lemma_ready_iff_connected(MonitorState::Connecting, events);
    lemma_stop_is_last(MonitorState::Connecting, events);
    if events.len() > 0 && is_terminal(events.last()) {
        assert(is_terminal(events[events.len() - 1]));
    }
}

} // verus!
