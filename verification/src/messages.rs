//! The messages that the gateway itself sends to the multiplexer server.

use crate::keys::KeyWithModifier;
use crate::mouse::MouseEvent;
use vstd::prelude::*;

verus! {

/// A message bound for the server.
#[derive(Debug, PartialEq, Eq)]
pub enum ClientMessage {
    /// A key press, with the bytes it was read from and whether it came in the
    /// extended keyboard protocol.
    Key { key: KeyWithModifier, raw: Vec<u8>, from_extended: bool },
    /// The action that a mouse event asks for.
    MouseAction(MouseEvent),
    /// The client is gone.
    ClientExited,
}

/// What a `ClientMessage` says, with its bytes as a sequence.
pub enum ClientMessageView {
    Key { key: KeyWithModifier, raw: Seq<u8>, from_extended: bool },
    MouseAction(MouseEvent),
    ClientExited,
}

impl View for ClientMessage {
    type V = ClientMessageView;

    open spec fn view(&self) -> ClientMessageView {
        match *self {
            ClientMessage::Key { key, raw, from_extended } => ClientMessageView::Key {
                key,
                raw: raw@,
                from_extended,
            },
            ClientMessage::MouseAction(event) => ClientMessageView::MouseAction(event),
            ClientMessage::ClientExited => ClientMessageView::ClientExited,
        }
    }
}

/// The views of a sequence of messages, in order.
pub open spec fn message_views(messages: Seq<ClientMessage>) -> Seq<ClientMessageView> {
    messages.map_values(|m: ClientMessage| m@)
}

} // verus!
