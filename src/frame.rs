//! The frames exchanged with a client.

use vstd::prelude::*;

verus! {

/// The close code that signals data of a kind the endpoint does not accept.
pub const CLOSE_UNSUPPORTED_DATA: u16 = 1003;

/// The code and reason carried by a close frame.
#[derive(Clone, Debug, PartialEq, Eq)]
pub struct CloseNotice {
    pub code: u16,
    pub reason: String,
}

/// One frame of a message-framed connection.
#[derive(Clone, Debug, PartialEq, Eq)]
pub enum Frame {
    Text(String),
    Binary(Vec<u8>),
    Ping(Vec<u8>),
    Pong(Vec<u8>),
    Close(Option<CloseNotice>),
}

/// The mathematical value of a frame.
pub enum FrameView {
    Text(Seq<char>),
    Binary(Seq<u8>),
    Ping(Seq<u8>),
    Pong(Seq<u8>),
    Close(Option<(u16, Seq<char>)>),
}

impl View for Frame {
    type V = FrameView;

    open spec fn view(&self) -> FrameView {
        match self {
            Frame::Text(t) => FrameView::Text(t@),
            Frame::Binary(b) => FrameView::Binary(b@),
            Frame::Ping(b) => FrameView::Ping(b@),
            Frame::Pong(b) => FrameView::Pong(b@),
            Frame::Close(None) => FrameView::Close(None),
            Frame::Close(Some(c)) => FrameView::Close(Some((c.code, c.reason@))),
        }
    }
}

} // verus!
