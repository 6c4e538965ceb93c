use echo_chamber::frame::{CloseNotice, Frame, CLOSE_UNSUPPORTED_DATA};
use echo_chamber::identity::{IdentityAllocator, SENTINEL_ID};
use echo_chamber::session::{
    Action, ClientEvent, Envelope, Event, HubEvent, Phase, Session, MAX_TEXT_BYTES, PAUSE_MILLIS,
};
use echo_chamber::text::{
    decimal_string, departure_text, greeting_text, rejection_text, relay_text, too_long_text,
};

fn text(s: &str) -> Frame {
    Frame::Text(s.to_string())
}

fn active(id: u64) -> Session {
    let mut s = Session::new(id);
    s.start();
    s
}

fn from_client(f: Frame) -> Event {
    Event::Client(ClientEvent::Received(f))
}

fn from_hub(sender: u64, payload: Frame) -> Event {
    Event::Hub(HubEvent::Delivered(Envelope { sender, payload }))
}

fn rejection() -> Frame {
    Frame::Close(Some(CloseNotice {
        code: 1003,
        reason: "only text messages are allowed".to_string(),
    }))
}

/// Hands every published envelope to every session, in order, and collects
/// what each session sends to its client.
fn fan_out(sessions: &mut Vec<Session>, published: Vec<Envelope>) -> Vec<Vec<Frame>> {
    let mut sent: Vec<Vec<Frame>> = sessions.iter().map(|_| Vec::new()).collect();
    for env in published {
        for (k, s) in sessions.iter_mut().enumerate() {
            for a in s.react(Event::Hub(HubEvent::Delivered(env.clone()))) {
                match a {
                    Action::Send(f) => sent[k].push(f),
                    other => panic!("unexpected action {:?}", other),
                }
            }
        }
    }
    sent
}

#[test]
fn decimal_digits() {
    assert_eq!(decimal_string(0), "0");
    assert_eq!(decimal_string(7), "7");
    assert_eq!(decimal_string(10), "10");
    assert_eq!(decimal_string(1234567890), "1234567890");
    assert_eq!(decimal_string(u64::MAX - 1), "18446744073709551614");
}

#[test]
fn fixed_wording() {
    assert_eq!(greeting_text(5), "You are 5");
    assert_eq!(relay_text(12, "hi there"), "12 says hi there");
    assert_eq!(relay_text(3, ""), "3 says ");
    assert_eq!(departure_text(40), "40 disconnected");
    assert_eq!(too_long_text(), "message too long, not sent");
    assert_eq!(rejection_text(), "only text messages are allowed");
}

#[test]
fn constants() {
    assert_eq!(SENTINEL_ID, u64::MAX);
    assert_eq!(MAX_TEXT_BYTES, 500);
    assert_eq!(PAUSE_MILLIS, 500);
    assert_eq!(CLOSE_UNSUPPORTED_DATA, 1003);
}

#[test]
fn identities_start_at_zero_and_increase() {
    let mut alloc = IdentityAllocator::new();
    assert_eq!(alloc.issued(), 0);
    assert_eq!(alloc.issue(), Some(0));
    assert_eq!(alloc.issue(), Some(1));
    assert_eq!(alloc.issue(), Some(2));
    assert_eq!(alloc.issued(), 3);
}

#[test]
fn first_frame_is_greeting() {
    let mut s = Session::new(0);
    assert_eq!(s.phase(), Phase::Greeting);
    assert_eq!(s.start(), text("You are 0"));
    assert_eq!(s.phase(), Phase::Active);
    let mut t = Session::new(42);
    assert_eq!(t.start(), text("You are 42"));
    assert_eq!(t.id(), 42);
}

#[test]
fn text_within_limit_is_published() {
    let mut s = active(3);
    let acts = s.react(from_client(text("hi")));
    assert_eq!(acts, vec![Action::Publish(Envelope { sender: 3, payload: text("hi") })]);
    assert_eq!(s.phase(), Phase::Active);
}

#[test]
fn sender_receives_own_message() {
    let mut s = active(4);
    let acts = s.react(from_client(text("hi")));
    let env = match &acts[..] {
        [Action::Publish(e)] => e.clone(),
        _ => panic!("expected one publish, got {:?}", acts),
    };
    let back = s.react(Event::Hub(HubEvent::Delivered(env)));
    assert_eq!(back, vec![Action::Send(text("4 says hi"))]);
}

#[test]
fn fan_out_reaches_every_client() {
    let mut sessions: Vec<Session> = (0..3).map(active).collect();
    let acts = sessions[1].react(from_client(text("yo")));
    let published: Vec<Envelope> = acts
        .into_iter()
        .map(|a| match a {
            Action::Publish(e) => e,
            other => panic!("unexpected action {:?}", other),
        })
        .collect();
    let sent = fan_out(&mut sessions, published);
    for frames in sent {
        assert_eq!(frames, vec![text("1 says yo")]);
    }
}

#[test]
fn text_of_exactly_the_limit_is_published() {
    let mut s = active(0);
    let t = "a".repeat(500);
    let acts = s.react(from_client(Frame::Text(t.clone())));
    assert_eq!(acts, vec![Action::Publish(Envelope { sender: 0, payload: Frame::Text(t) })]);
}

#[test]
fn oversized_text_gets_private_notice() {
    let mut s = active(0);
    let acts = s.react(from_client(Frame::Text("a".repeat(501))));
    assert_eq!(acts, vec![Action::Send(text("message too long, not sent")), Action::Pause(500)]);
    assert_eq!(s.phase(), Phase::Active);
}

#[test]
fn limit_counts_bytes() {
    let mut s = active(0);
    // 250 two-byte characters: 500 bytes
    let fits = "é".repeat(250);
    let acts = s.react(from_client(Frame::Text(fits.clone())));
    assert_eq!(acts, vec![Action::Publish(Envelope { sender: 0, payload: Frame::Text(fits) })]);
    // 251 characters, 502 bytes
    let acts = s.react(from_client(Frame::Text("é".repeat(251))));
    assert_eq!(acts, vec![Action::Send(text("message too long, not sent")), Action::Pause(500)]);
}

#[test]
fn binary_from_client_closes_session() {
    let mut s = active(1);
    let acts = s.react(from_client(Frame::Binary(vec![1, 2, 3])));
    assert_eq!(acts, vec![Action::Send(rejection())]);
    assert_eq!(s.phase(), Phase::Terminating);
}

#[test]
fn ping_from_client_is_not_text() {
    let mut s = active(1);
    let acts = s.react(from_client(Frame::Ping(vec![9])));
    assert_eq!(acts, vec![Action::Send(rejection())]);
    assert_eq!(s.phase(), Phase::Terminating);
}

#[test]
fn close_from_client_is_ignored() {
    let mut s = active(1);
    assert_eq!(s.react(from_client(Frame::Close(None))), vec![]);
    assert_eq!(s.phase(), Phase::Active);
}

#[test]
fn client_stream_end_terminates() {
    let mut s = active(1);
    assert_eq!(s.react(Event::Client(ClientEvent::Ended)), vec![]);
    assert_eq!(s.phase(), Phase::Terminating);
}

#[test]
fn transport_error_is_ignored() {
    let mut s = active(1);
    assert_eq!(s.react(Event::Client(ClientEvent::TransportError)), vec![]);
    assert_eq!(s.phase(), Phase::Active);
}

#[test]
fn hub_closed_terminates() {
    let mut s = active(1);
    assert_eq!(s.react(Event::Hub(HubEvent::Closed)), vec![]);
    assert_eq!(s.phase(), Phase::Terminating);
}

#[test]
fn lag_keeps_session_running() {
    let mut s = active(2);
    assert_eq!(s.react(Event::Hub(HubEvent::Lagged(17))), vec![]);
    assert_eq!(s.phase(), Phase::Active);
    assert_eq!(s.react(from_hub(0, text("after"))), vec![Action::Send(text("0 says after"))]);
}

#[test]
fn system_message_is_forwarded_verbatim() {
    let mut s = active(2);
    let acts = s.react(from_hub(SENTINEL_ID, text("7 disconnected")));
    assert_eq!(acts, vec![Action::Send(text("7 disconnected"))]);
}

#[test]
fn binary_envelope_is_discarded() {
    let mut s = active(2);
    assert_eq!(s.react(from_hub(0, Frame::Binary(vec![0xff]))), vec![]);
    assert_eq!(s.phase(), Phase::Active);
}

#[test]
fn finish_announces_departure() {
    let mut s = active(9);
    s.react(Event::Client(ClientEvent::Ended));
    let env = s.finish();
    assert_eq!(env, Envelope { sender: SENTINEL_ID, payload: text("9 disconnected") });
    assert_eq!(s.phase(), Phase::Finished);
}

#[test]
fn two_clients_hello_then_binary() {
    let mut alloc = IdentityAllocator::new();
    let a_id = alloc.issue().unwrap();
    let b_id = alloc.issue().unwrap();
    assert_eq!((a_id, b_id), (0, 1));
    let mut a = Session::new(a_id);
    let mut b = Session::new(b_id);
    assert_eq!(a.start(), text("You are 0"));
    assert_eq!(b.start(), text("You are 1"));
    let mut sessions = vec![a, b];

    let acts = sessions[0].react(from_client(text("hello")));
    let env = match &acts[..] {
        [Action::Publish(e)] => e.clone(),
        _ => panic!("expected one publish, got {:?}", acts),
    };
    let sent = fan_out(&mut sessions, vec![env]);
    assert_eq!(sent, vec![vec![text("0 says hello")], vec![text("0 says hello")]]);

    let acts = sessions[1].react(from_client(Frame::Binary(vec![1])));
    assert_eq!(acts, vec![Action::Send(rejection())]);
    assert_eq!(sessions[1].phase(), Phase::Terminating);
    let notice = sessions[1].finish();
    let mut remaining = vec![sessions.remove(0)];
    let sent = fan_out(&mut remaining, vec![notice]);
    assert_eq!(sent, vec![vec![text("1 disconnected")]]);
}
