//! The per-connection session: a state machine from hub and client events to
//! the actions that the connection's driver performs.

use vstd::prelude::*;
use vstd::utf8::encode_utf8;
use crate::frame::{CloseNotice, Frame, FrameView, CLOSE_UNSUPPORTED_DATA};
use crate::identity::SENTINEL_ID;
use crate::text::{
    departure_notice,
    departure_text,
    greeting,
    greeting_text,
    rejection_reason,
    rejection_text,
    relay_line,
    relay_text,
    too_long_notice,
    too_long_text,
};

verus! {

/// The largest text, in UTF-8 bytes, that a client may have relayed.
pub const MAX_TEXT_BYTES: usize = 500;

/// How long a session stops taking input after an oversized message.
pub const PAUSE_MILLIS: u64 = 500;

/// How many envelopes the hub holds for each subscriber before it reports lag.
pub const HUB_CAPACITY: usize = 100;

/// A unit of the hub's stream: a sender's identity and a payload.
#[derive(Clone, Debug, PartialEq, Eq)]
pub struct Envelope {
    pub sender: u64,
    pub payload: Frame,
}

impl View for Envelope {
    type V = (u64, FrameView);

    open spec fn view(&self) -> (u64, FrameView) {
        (self.sender, self.payload@)
    }
}

/// What a hub subscription yields.
#[derive(Clone, Debug, PartialEq, Eq)]
pub enum HubEvent {
    Delivered(Envelope),
    /// The subscriber fell behind and this many envelopes were dropped.
    Lagged(u64),
    /// The hub is gone.
    Closed,
}

/// What the client's inbound stream yields.
#[derive(Clone, Debug, PartialEq, Eq)]
pub enum ClientEvent {
    Received(Frame),
    TransportError,
    Ended,
}

/// Whichever of the two sources produced first.
#[derive(Clone, Debug, PartialEq, Eq)]
pub enum Event {
    Hub(HubEvent),
    Client(ClientEvent),
}

/// The mathematical value of an event.
pub enum EventView {
    HubDelivered(u64, FrameView),
    HubLagged(u64),
    HubClosed,
    ClientReceived(FrameView),
    ClientError,
    ClientEnded,
}

impl View for Event {
    type V = EventView;

    open spec fn view(&self) -> EventView {
        match self {
            Event::Hub(HubEvent::Delivered(env)) => EventView::HubDelivered(env.sender, env.payload@),
            Event::Hub(HubEvent::Lagged(n)) => EventView::HubLagged(*n),
            Event::Hub(HubEvent::Closed) => EventView::HubClosed,
            Event::Client(ClientEvent::Received(f)) => EventView::ClientReceived(f@),
            Event::Client(ClientEvent::TransportError) => EventView::ClientError,
            Event::Client(ClientEvent::Ended) => EventView::ClientEnded,
        }
    }
}

/// Something the driver of a connection is to do.
#[derive(Clone, Debug, PartialEq, Eq)]
pub enum Action {
    /// Send this frame to the session's own client.
    Send(Frame),
    /// Publish this envelope to the hub.
    Publish(Envelope),
    /// Take no input for this many milliseconds.
    Pause(u64),
}

/// The mathematical value of an action.
pub enum ActionView {
    Send(FrameView),
    Publish(u64, FrameView),
    Pause(u64),
}

impl View for Action {
    type V = ActionView;

    open spec fn view(&self) -> ActionView {
        match self {
            Action::Send(f) => ActionView::Send(f@),
            Action::Publish(env) => ActionView::Publish(env.sender, env.payload@),
            Action::Pause(ms) => ActionView::Pause(*ms),
        }
    }
}

/// The values of a sequence of actions.
pub open spec fn action_views(actions: Seq<Action>) -> Seq<ActionView> {
    actions.map_values(|a: Action| a@)
}

/// Where a session stands in its life.
#[derive(Clone, Copy, Debug, PartialEq, Eq, Structural)]
pub enum Phase {
    /// Subscribed; the greeting is not sent yet.
    Greeting,
    /// Racing the hub against the client.
    Active,
    /// The loop has stopped; the departure is not announced yet.
    Terminating,
    /// Announced and done.
    Finished,
}

/// Whether text `t` is small enough to be relayed.
pub open spec fn text_fits(t: Seq<char>) -> bool {
    encode_utf8(t).len() <= MAX_TEXT_BYTES
}

/// The close frame sent to a client that sent data other than text.
pub open spec fn rejection_frame() -> FrameView {
    FrameView::Close(Some((CLOSE_UNSUPPORTED_DATA, rejection_reason())))
}

/// How an active session of identity `id` answers event `ev`: the phase it
/// moves to and the actions it asks for, in order.
pub open spec fn reaction(id: u64, ev: EventView) -> (Phase, Seq<ActionView>) {
    match ev {
        EventView::HubClosed => (Phase::Terminating, seq![]),
        EventView::HubLagged(_) => (Phase::Active, seq![]),
        EventView::HubDelivered(sender, payload) => {
            if sender == SENTINEL_ID {
                (Phase::Active, seq![ActionView::Send(payload)])
            } else {
                match payload {
                    FrameView::Text(t) => (
                        Phase::Active,
                        seq![ActionView::Send(FrameView::Text(relay_line(sender, t)))],
                    ),
                    _ => (Phase::Active, seq![]),
                }
            }
        },
        EventView::ClientEnded => (Phase::Terminating, seq![]),
        EventView::ClientError => (Phase::Active, seq![]),
        EventView::ClientReceived(frame) => match frame {
            FrameView::Text(t) => if text_fits(t) {
                (Phase::Active, seq![ActionView::Publish(id, FrameView::Text(t))])
            } else {
                (
                    Phase::Active,
                    seq![
                        ActionView::Send(FrameView::Text(too_long_notice())),
                        ActionView::Pause(PAUSE_MILLIS),
                    ],
                )
            },
            FrameView::Close(_) => (Phase::Active, seq![]),
            _ => (Phase::Terminating, seq![ActionView::Send(rejection_frame())]),
        },
    }
}

/// One client connection's session.
pub struct Session {
    id: u64,
    phase: Phase,
}

/// The mathematical value of a session.
pub struct SessionView {
    pub id: u64,
    pub phase: Phase,
}

impl View for Session {
    type V = SessionView;

    closed spec fn view(&self) -> SessionView {
        SessionView { id: self.id, phase: self.phase }
    }
}

impl Session {
    /// A session for the connection given identity `id`, about to greet.
    pub fn new(id: u64) -> (s: Session)
        requires
            id != SENTINEL_ID,
        ensures
            s@ == (SessionView { id, phase: Phase::Greeting }),
    {
        Session { id, phase: Phase::Greeting }
    }

    /// The session's identity.
    pub fn id(&self) -> (r: u64)
        ensures
            r == self@.id,
    {
        self.id
    }

    /// The session's phase.
    pub fn phase(&self) -> (r: Phase)
        ensures
            r == self@.phase,
    {
        self.phase
    }

    /// Enters the active phase; returns the greeting to send to the client.
    pub fn start(&mut self) -> (greet: Frame)
        requires
            old(self)@.phase == Phase::Greeting,
        ensures
            final(self)@ == (SessionView { id: old(self)@.id, phase: Phase::Active }),
            greet@ == FrameView::Text(greeting(old(self)@.id)),
    {
        self.phase = Phase::Active;
        Frame::Text(greeting_text(self.id))
    }

    /// Answers one event of the active phase.
    pub fn react(&mut self, ev: Event) -> (actions: Vec<Action>)
        requires
            old(self)@.phase == Phase::Active,
        ensures
            final(self)@.id == old(self)@.id,
            final(self)@.phase == reaction(old(self)@.id, ev@).0,
            action_views(actions@) == reaction(old(self)@.id, ev@).1,
    {
        let mut actions: Vec<Action> = Vec::new();
        match ev {
            Event::Hub(HubEvent::Closed) => {
                self.phase = Phase::Terminating;
            },
            Event::Hub(HubEvent::Lagged(_)) => {},
            Event::Hub(HubEvent::Delivered(Envelope { sender, payload })) => {
                if sender == SENTINEL_ID {
                    actions.push(Action::Send(payload));
                } else {
                    match payload {
                        Frame::Text(t) => {
                            actions.push(Action::Send(Frame::Text(relay_text(sender, t.as_str()))));
                        },
                        _ => {},
                    }
                }
            },
            Event::Client(ClientEvent::Ended) => {
                self.phase = Phase::Terminating;
            },
            Event::Client(ClientEvent::TransportError) => {},
            Event::Client(ClientEvent::Received(frame)) => match frame {
                Frame::Text(t) => {
                    if t.as_str().as_bytes().len() > MAX_TEXT_BYTES {
                        actions.push(Action::Send(Frame::Text(too_long_text())));
                        actions.push(Action::Pause(PAUSE_MILLIS));
                    } else {
                        actions.push(Action::Publish(Envelope { sender: self.id, payload: Frame::Text(t) }));
                    }
                },
                Frame::Close(_) => {},
                _ => {
                    let notice = CloseNotice { code: CLOSE_UNSUPPORTED_DATA, reason: rejection_text() };
                    actions.push(Action::Send(Frame::Close(Some(notice))));
                    self.phase = Phase::Terminating;
                },
            },
        }
        assert(action_views(actions@) =~= reaction(self.id, ev@).1);
        actions
    }

    /// Leaves the session; returns the departure notice to publish.
    pub fn finish(&mut self) -> (notice: Envelope)
        requires
            old(self)@.phase == Phase::Terminating,
        ensures
            final(self)@ == (SessionView { id: old(self)@.id, phase: Phase::Finished }),
            notice@ == (SENTINEL_ID, FrameView::Text(departure_notice(old(self)@.id))),
    {
        self.phase = Phase::Finished;
        Envelope { sender: SENTINEL_ID, payload: Frame::Text(departure_text(self.id)) }
    }
}

} // verus!
