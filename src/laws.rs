//! Properties of the relay that follow from the contracts of the allocator
//! and the session, stated over their mathematical models.

use vstd::prelude::*;
use crate::frame::FrameView;
use crate::identity::{issue_outcome, SENTINEL_ID};
use crate::session::{reaction, rejection_frame, text_fits, ActionView, EventView, Phase, PAUSE_MILLIS};
use crate::text::{decimal, departure_notice, relay_line, too_long_notice};

verus! {

/// Identities are issued in increasing order: whatever is issued from an
/// earlier counter is below whatever is issued from a later one, issuing
/// moves the counter forward, and the sentinel is never issued.
pub proof fn issued_identities_increase(n: nat, m: nat)
    requires
        n < m,
    ensures
        issue_outcome(n).0 is Some ==> issue_outcome(n).1 == n + 1,
        issue_outcome(n).0 is Some ==> issue_outcome(n).0->0 != SENTINEL_ID,
        issue_outcome(n).0 is Some && issue_outcome(m).0 is Some ==> issue_outcome(n).0->0
            < issue_outcome(m).0->0,
{
}

/// A sender hears its own message: text within the limit is published under
/// the sender's identity, and when that envelope comes back to the sender's
/// own session it is delivered as "`id` says `t`".
pub proof fn sender_hears_itself(id: u64, t: Seq<char>)
    requires
        id != SENTINEL_ID,
        text_fits(t),
    ensures
        reaction(id, EventView::ClientReceived(FrameView::Text(t))) == (
            Phase::Active,
            seq![ActionView::Publish(id, FrameView::Text(t))],
        ),
        reaction(id, EventView::HubDelivered(id, FrameView::Text(t))) == (
            Phase::Active,
            seq![ActionView::Send(FrameView::Text(relay_line(id, t)))],
        ),
        relay_line(id, t) == decimal(id as nat) + " says "@ + t,
{
}

/// Every session, whatever its identity, relays a published text in the
/// same words, so all subscribers that the hub offers the envelope to send
/// their clients the same line.
pub proof fn relay_reaches_every_session(sender: u64, t: Seq<char>)
    requires
        sender != SENTINEL_ID,
        text_fits(t),
    ensures
        reaction(sender, EventView::ClientReceived(FrameView::Text(t))).1 == seq![
            ActionView::Publish(sender, FrameView::Text(t)),
        ],
        forall|receiver: u64|
            #![trigger reaction(receiver, EventView::HubDelivered(sender, FrameView::Text(t)))]
            reaction(receiver, EventView::HubDelivered(sender, FrameView::Text(t))) == (
                Phase::Active,
                seq![ActionView::Send(FrameView::Text(relay_line(sender, t)))],
            ),
{
}

/// A client that ends its stream makes its session terminate, and the
/// departure notice that the session then publishes reaches every session
/// verbatim, as "`id` disconnected".
pub proof fn departure_reaches_every_session(id: u64)
    ensures
        reaction(id, EventView::ClientEnded) == (Phase::Terminating, Seq::<ActionView>::empty()),
        forall|receiver: u64|
            #![trigger reaction(receiver, EventView::HubDelivered(SENTINEL_ID, FrameView::Text(departure_notice(id))))]
            reaction(
                receiver,
                EventView::HubDelivered(SENTINEL_ID, FrameView::Text(departure_notice(id))),
            ) == (Phase::Active, seq![ActionView::Send(FrameView::Text(departure_notice(id)))]),
        departure_notice(id) == decimal(id as nat) + " disconnected"@,
{
    assert(seq![] =~= Seq::<ActionView>::empty());
}

/// An oversized text gets the sender exactly the private too-long notice
/// and a pause, and is published to no one.
pub proof fn oversized_text_stays_private(id: u64, t: Seq<char>)
    requires
        !text_fits(t),
    ensures
        reaction(id, EventView::ClientReceived(FrameView::Text(t))) == (
            Phase::Active,
            seq![
                ActionView::Send(FrameView::Text(too_long_notice())),
                ActionView::Pause(PAUSE_MILLIS),
            ],
        ),
        forall|i: int|
            0 <= i < reaction(id, EventView::ClientReceived(FrameView::Text(t))).1.len()
                ==> !(reaction(id, EventView::ClientReceived(FrameView::Text(t))).1[i] is Publish),
{
}

/// Binary data from a client closes its session with the rejection frame
/// and is published to no one; binary data in an envelope of a client is
/// sent to no one.
pub proof fn binary_is_never_relayed(id: u64, sender: u64, b: Seq<u8>)
    requires
        sender != SENTINEL_ID,
    ensures
        reaction(id, EventView::ClientReceived(FrameView::Binary(b))) == (
            Phase::Terminating,
            seq![ActionView::Send(rejection_frame())],
        ),
        reaction(id, EventView::HubDelivered(sender, FrameView::Binary(b))) == (
            Phase::Active,
            Seq::<ActionView>::empty(),
        ),
{
    assert(seq![] =~= Seq::<ActionView>::empty());
}

/// A session publishes nothing but text, under its own identity.
pub proof fn sessions_publish_only_own_text(id: u64, ev: EventView)
    ensures
        forall|i: int|
            #![trigger reaction(id, ev).1[i]]
            0 <= i < reaction(id, ev).1.len() && reaction(id, ev).1[i] is Publish ==> {
                &&& reaction(id, ev).1[i]->Publish_0 == id
                &&& reaction(id, ev).1[i]->Publish_1 is Text
            },
{
}

/// Lag never ends a session: it stays active and does nothing, so the next
/// event is answered as if the lag had not happened.
pub proof fn lag_is_harmless(id: u64, n: u64)
    ensures
        reaction(id, EventView::HubLagged(n)) == (Phase::Active, Seq::<ActionView>::empty()),
{
    assert(seq![] =~= Seq::<ActionView>::empty());
}

} // verus!
