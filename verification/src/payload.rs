//! The frames that travel over a connection.

use vstd::prelude::*;

verus! {

/// The reason a peer gave for closing its connection.
#[derive(Clone, Debug, PartialEq, Eq)]
pub struct CloseFrame {
    /// The status code of the close.
    pub code: u16,
    /// The reason, as text.
    pub reason: String,
}

/// One frame of a connection's duplex stream. Only text frames carry chat
/// envelopes; the others belong to the transport's own protocol.
#[derive(Clone, Debug, PartialEq, Eq)]
pub enum Payload {
    /// A text frame.
    Text(String),
    /// A binary frame.
    Binary(Vec<u8>),
    /// A ping, with its application data.
    Ping(Vec<u8>),
    /// A pong, with its application data.
    Pong(Vec<u8>),
    /// A close, with the peer's reason if it gave one.
    Close(Option<CloseFrame>),
}

/// What a [`Payload`] holds, as mathematical values.
pub enum PayloadView {
    Text(Seq<char>),
    Binary(Seq<u8>),
    Ping(Seq<u8>),
    Pong(Seq<u8>),
    Close(Option<(u16, Seq<char>)>),
}

impl View for CloseFrame {
    type V = (u16, Seq<char>);

    open spec fn view(&self) -> (u16, Seq<char>) {
        (self.code, self.reason@)
    }
}

impl View for Payload {
    type V = PayloadView;

    open spec fn view(&self) -> PayloadView {
        match self {
            Payload::Text(text) => PayloadView::Text(text@),
            Payload::Binary(data) => PayloadView::Binary(data@),
            Payload::Ping(data) => PayloadView::Ping(data@),
            Payload::Pong(data) => PayloadView::Pong(data@),
            Payload::Close(frame) => PayloadView::Close(
                match frame {
                    Some(f) => Some(f@),
                    None => None,
                },
            ),
        }
    }
}

impl CloseFrame {
    /// A copy of this frame.
    pub fn duplicate(&self) -> (copy: CloseFrame)
        ensures
            copy@ == self@,
    {
        CloseFrame { code: self.code, reason: self.reason.clone() }
    }
}

impl Payload {
    /// Whether this is a text frame.
    pub fn is_text(&self) -> (text: bool)
        ensures
            text == (self@ is Text),
    {
        match self {
            Payload::Text(_) => true,
            _ => false,
        }
    }

    /// A copy of this frame, equal to it field by field.
    pub fn duplicate(&self) -> (copy: Payload)
        ensures
            copy@ == self@,
    {
        match self {
            Payload::Text(text) => Payload::Text(text.clone()),
            Payload::Binary(data) => Payload::Binary(data.clone()),
            Payload::Ping(data) => Payload::Ping(data.clone()),
            Payload::Pong(data) => Payload::Pong(data.clone()),
            Payload::Close(frame) => Payload::Close(
                match frame {
                    Some(f) => Some(f.duplicate()),
                    None => None,
                },
            ),
        }
    }
}

} // verus!
