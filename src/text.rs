//! The wording of the frames that the server sends.

use vstd::prelude::*;

verus! {

/// The character of a decimal digit `d < 10`.
pub open spec fn digit_char(d: nat) -> char {
    (d + 48) as char
}

/// The decimal representation of `n`, without leading zeros.
pub open spec fn decimal(n: nat) -> Seq<char>
    decreases n,
{
    if n < 10 {
        seq![digit_char(n)]
    } else {
        decimal(n / 10).push(digit_char(n % 10))
    }
}

fn digit_str(d: u64) -> (r: &'static str)
    requires
        d < 10,
    ensures
        r@ == seq![digit_char(d as nat)],
{
    proof {
        reveal_strlit("0");
        reveal_strlit("1");
        reveal_strlit("2");
        reveal_strlit("3");
        reveal_strlit("4");
        reveal_strlit("5");
        reveal_strlit("6");
        reveal_strlit("7");
        reveal_strlit("8");
        reveal_strlit("9");
    }
    match d {
        0 => "0",
        1 => "1",
        2 => "2",
        3 => "3",
        4 => "4",
        5 => "5",
        6 => "6",
        7 => "7",
        8 => "8",
        _ => "9",
    }
}

/// Writes `n` in decimal.
pub fn decimal_string(n: u64) -> (r: String)
    ensures
        r@ == decimal(n as nat),
    decreases n,
{
    if n < 10 {
        String::from_str(digit_str(n))
    } else {
        let mut s = decimal_string(n / 10);
        s.append(digit_str(n % 10));
        s
    }
}

/// The private greeting sent to a client that was given identity `id`.
pub open spec fn greeting(id: u64) -> Seq<char> {
    "You are "@ + decimal(id as nat)
}

/// The line that relays text `t` sent by identity `sender`.
pub open spec fn relay_line(sender: u64, t: Seq<char>) -> Seq<char> {
    decimal(sender as nat) + " says "@ + t
}

/// The notice that identity `id` has left the room.
pub open spec fn departure_notice(id: u64) -> Seq<char> {
    decimal(id as nat) + " disconnected"@
}

/// The private notice sent in place of relaying an oversized message.
pub open spec fn too_long_notice() -> Seq<char> {
    "message too long, not sent"@
}

/// The reason given when a connection is closed for sending non-text data.
pub open spec fn rejection_reason() -> Seq<char> {
    "only text messages are allowed"@
}

/// Builds the greeting for identity `id`.
pub fn greeting_text(id: u64) -> (r: String)
    ensures
        r@ == greeting(id),
{
    let mut s = String::from_str("You are ");
    let d = decimal_string(id);
    s.append(d.as_str());
    s
}

/// Builds the relay of text `t` sent by identity `sender`.
pub fn relay_text(sender: u64, t: &str) -> (r: String)
    ensures
        r@ == relay_line(sender, t@),
{
    let mut s = decimal_string(sender);
    s.append(" says ");
    s.append(t);
    s
}

/// Builds the departure notice of identity `id`.
pub fn departure_text(id: u64) -> (r: String)
    ensures
        r@ == departure_notice(id),
{
    let mut s = decimal_string(id);
    s.append(" disconnected");
    s
}

/// Builds the notice sent in place of an oversized message.
pub fn too_long_text() -> (r: String)
    ensures
        r@ == too_long_notice(),
{
    String::from_str("message too long, not sent")
}

/// Builds the reason of the close frame sent on non-text data.
pub fn rejection_text() -> (r: String)
    ensures
        r@ == rejection_reason(),
{
    String::from_str("only text messages are allowed")
}

} // verus!
