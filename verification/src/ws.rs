//! The decisions of the WebSocket listener, which greets each client and
//! answers what it sends.
//!
//! The listener itself only carries out: it hands each event to
//! `th_ws_listener` and does what the answer says.

use crate::text::same_text;
use vstd::prelude::*;
use vstd::string::*;

verus! {

/// A message that goes over a connection.
#[derive(Debug)]
pub enum WsMessage {
    Text(String),
    Binary(Vec<u8>),
    Close,
    Ping(Vec<u8>),
    Pong(Vec<u8>),
}

/// What reaches the listener.
#[derive(Debug)]
pub enum WsEvent {
    /// A client asks for a connection and offers these protocols.
    Request { protocols: Vec<String> },
    /// A client sent a message over its connection.
    Message { message: WsMessage },
}

/// What the listener does next.
#[derive(Debug)]
pub enum WsAction {
    /// Turn the client away.
    Reject,
    /// Take the client in under `protocol`, and send it `greeting`.
    Accept { protocol: String, greeting: WsMessage },
    /// Send `message` and go on.
    Send { message: WsMessage },
    /// Send `message` and end the connection.
    Finish { message: WsMessage },
}

/// What a `WsMessage` holds.
pub enum Frame {
    Text(Seq<char>),
    Binary(Seq<u8>),
    Close,
    Ping(Seq<u8>),
    Pong(Seq<u8>),
}

/// What a `WsEvent` holds.
pub enum Arrival {
    Request { protocols: Seq<Seq<char>> },
    Message { message: Frame },
}

/// What a `WsAction` holds.
pub enum Answer {
    Reject,
    Accept { protocol: Seq<char>, greeting: Frame },
    Send { message: Frame },
    Finish { message: Frame },
}

impl View for WsMessage {
    type V = Frame;

    open spec fn view(&self) -> Frame {
        match self {
            WsMessage::Text(t) => Frame::Text(t@),
            WsMessage::Binary(b) => Frame::Binary(b@),
            WsMessage::Close => Frame::Close,
            WsMessage::Ping(b) => Frame::Ping(b@),
            WsMessage::Pong(b) => Frame::Pong(b@),
        }
    }
}

impl View for WsEvent {
    type V = Arrival;

    open spec fn view(&self) -> Arrival {
        match self {
            WsEvent::Request { protocols } => Arrival::Request {
                protocols: Seq::new(protocols@.len(), |i: int| protocols@[i]@),
            },
            WsEvent::Message { message } => Arrival::Message { message: message@ },
        }
    }
}

impl View for WsAction {
    type V = Answer;

    open spec fn view(&self) -> Answer {
        match self {
            WsAction::Reject => Answer::Reject,
            WsAction::Accept { protocol, greeting } => Answer::Accept {
                protocol: protocol@,
                greeting: greeting@,
            },
            WsAction::Send { message } => Answer::Send { message: message@ },
            WsAction::Finish { message } => Answer::Finish { message: message@ },
        }
    }
}

/// The answer to a message: a close is answered with a close, which ends
/// the connection; a ping with a pong of the same content; anything else is
/// sent back as it came.
pub open spec fn reply_to(message: Frame) -> Answer {
    match message {
        Frame::Close => Answer::Finish { message: Frame::Close },
        Frame::Ping(data) => Answer::Send { message: Frame::Pong(data) },
        other => Answer::Send { message: other },
    }
}

/// What the listener does on an event.
///
/// A client is taken in only if it offers the protocol `rust-websocket`, and
/// is then greeted with the text `Hello`.
pub open spec fn ws_step(event: Arrival) -> Answer {
    match event {
        Arrival::Request { protocols } => if protocols.contains("rust-websocket"@) {
            Answer::Accept { protocol: "rust-websocket"@, greeting: Frame::Text("Hello"@) }
        } else {
            Answer::Reject
        },
        Arrival::Message { message } => reply_to(message),
    }
}

/// Whether `name` is among `protocols`.
fn offers(protocols: &Vec<String>, name: &str) -> (b: bool)
    ensures
        b == Seq::new(protocols@.len(), |i: int| protocols@[i]@).contains(name@),
{
    let ghost names = Seq::new(protocols@.len(), |i: int| protocols@[i]@);
    let n: usize = protocols.len();
    let mut i: usize = 0;
    while i < n
        invariant
            n == protocols.len(),
            i <= n,
            names == Seq::new(protocols@.len(), |i: int| protocols@[i]@),
            forall|j: int| 0 <= j < i ==> names[j] != name@,
        decreases n - i,
    {
        if same_text(protocols[i].as_str(), name) {
            assert(names[i as int] == name@);
            return true;
        }
        i += 1;
    }
    false
}

/// One step of the WebSocket listener: what it does on `event`.
pub fn th_ws_listener(event: WsEvent) -> (action: WsAction)
    ensures
        action@ == ws_step(event@),
{
    match event {
        WsEvent::Request { protocols } => {
            if offers(&protocols, "rust-websocket") {
                WsAction::Accept {
                    protocol: "rust-websocket".to_owned(),
                    greeting: WsMessage::Text("Hello".to_owned()),
                }
            } else {
                WsAction::Reject
            }
        },
        WsEvent::Message { message } => {
            match message {
                WsMessage::Close => WsAction::Finish { message: WsMessage::Close },
                WsMessage::Ping(data) => WsAction::Send { message: WsMessage::Pong(data) },
                other => WsAction::Send { message: other },
            }
        },
    }
}

} // verus!
