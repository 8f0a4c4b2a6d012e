//! The input decoder: from the bytes of one stdin frame to the messages that the
//! server is sent.
//!
//! With the extended keyboard protocol enabled, a buffer that is one report of
//! that protocol gives one key and nothing else is tried. Any other buffer goes
//! to the legacy parser, which may read several events from it.

use crate::extended_keyboard::{extended_key, parse_extended_key};
use crate::messages::{message_views, ClientMessage, ClientMessageView};
use crate::mouse::{fold_mouse_report, folded, MouseEvent};
use crate::terminal_input::{
    canonical_key, legacy_events, read_terminal_events, translate_key, TerminalEvent,
};
use vstd::prelude::*;
use vstd::slice::slice_to_vec;
use vstd::string::StringSliceAdditionalSpecFns;

verus! {

/// What the events of the legacy parser give: the messages, in the order of the
/// events, and the mouse event that is carried on. A key gives a key message
/// with the whole buffer as its bytes; a mouse report is folded with the carried
/// event and gives a mouse action; any other event gives nothing.
pub open spec fn legacy_decoded(events: Seq<TerminalEvent>, raw: Seq<u8>, carry: MouseEvent) -> (
    Seq<ClientMessageView>,
    MouseEvent,
)
    decreases events.len(),
{
    if events.len() == 0 {
        (Seq::empty(), carry)
    } else {
        let (messages, carried) = legacy_decoded(events.drop_last(), raw, carry);
        match events.last() {
            TerminalEvent::Key(press) => (
                messages.push(
                    ClientMessageView::Key { key: canonical_key(press), raw, from_extended: false },
                ),
                carried,
            ),
            TerminalEvent::Mouse(report) => (
                messages.push(ClientMessageView::MouseAction(folded(carried, report))),
                folded(carried, report),
            ),
            TerminalEvent::Other => (messages, carried),
        }
    }
}

/// What a buffer decodes to: the messages, and the mouse event that is carried
/// on. Where the extended protocol is enabled and the buffer is one report of
/// it: that one key, with the carried mouse event untouched. Else: what the
/// events give that the legacy parser reads from the buffer.
pub open spec fn decoded(raw: Seq<u8>, carry: MouseEvent, disable_extended: bool) -> (
    Seq<ClientMessageView>,
    MouseEvent,
) {
    if !disable_extended && extended_key(raw) is Some {
        (
            seq![ClientMessageView::Key { key: extended_key(raw)->0, raw, from_extended: true }],
            carry,
        )
    } else {
        legacy_decoded(legacy_events(raw), raw, carry)
    }
}

/// Decodes the events that the legacy parser read from `buf`.
pub fn decode_events(events: &Vec<TerminalEvent>, buf: &[u8], carry: &mut MouseEvent) -> (messages:
    Vec<ClientMessage>)
    ensures
        (message_views(messages@), *final(carry)) == legacy_decoded(events@, buf@, *old(carry)),
{
    let mut messages: Vec<ClientMessage> = Vec::new();
    let mut i: usize = 0;
    assert(events@.subrange(0, 0) == Seq::<TerminalEvent>::empty());
    assert(message_views(messages@) == Seq::<ClientMessageView>::empty());
    while i < events.len()
        invariant
            i <= events.len(),
            (message_views(messages@), *carry) == legacy_decoded(
                events@.subrange(0, i as int),
                buf@,
                *old(carry),
            ),
        decreases events.len() - i,
    {
        let ghost before = messages@;
        proof {
            let prefix = events@.subrange(0, i + 1);
            assert(prefix.drop_last() == events@.subrange(0, i as int));
            assert(prefix.last() == events@[i as int]);
        }
        match events[i] {
            TerminalEvent::Key(press) => {
                let message = ClientMessage::Key {
                    key: translate_key(press),
                    raw: slice_to_vec(buf),
                    from_extended: false,
                };
                messages.push(message);
                assert(message_views(messages@) == message_views(before).push(message@));
            },
            TerminalEvent::Mouse(report) => {
                let message = ClientMessage::MouseAction(fold_mouse_report(carry, report));
                messages.push(message);
                assert(message_views(messages@) == message_views(before).push(message@));
            },
            TerminalEvent::Other => {},
        }
        i = i + 1;
    }
    assert(events@.subrange(0, i as int) == events@);
    messages
}

/// Decodes the text of one stdin frame. `carry` is the channel's mouse state;
/// `disable_extended` switches the extended keyboard protocol off.
pub fn parse_stdin(stdin: &str, carry: &mut MouseEvent, disable_extended: bool) -> (messages: Vec<
    ClientMessage,
>)
    ensures
        (message_views(messages@), *final(carry)) == decoded(
            stdin.spec_bytes(),
            *old(carry),
            disable_extended,
        ),
{
    let buf = stdin.as_bytes();
    if !disable_extended {
        match parse_extended_key(buf) {
            Some(key) => {
                let message = ClientMessage::Key { key, raw: slice_to_vec(buf), from_extended: true };
                let mut messages: Vec<ClientMessage> = Vec::new();
                messages.push(message);
                assert(message_views(messages@) == seq![message@]);
                return messages;
            },
            None => {},
        }
    }
    let events = read_terminal_events(stdin);
    let messages = decode_events(&events, buf, carry);
    messages
}

/// Extended-keyboard preference: where the protocol is enabled and the whole
/// buffer is one report of it, the buffer decodes to that one key, marked as
/// extended and with the buffer as its bytes, whatever the legacy parser would
/// read from the buffer; and the mouse state stays as it was.
pub proof fn lemma_extended_report_is_preferred(raw: Seq<u8>, carry: MouseEvent)
    requires
        extended_key(raw) is Some,
    ensures
        decoded(raw, carry, false) == (
            seq![ClientMessageView::Key { key: extended_key(raw)->0, raw, from_extended: true }],
            carry,
        ),
{
}

/// The decoder speaks of keys and of the mouse only: none of its messages is a
/// `ClientExited`.
pub proof fn lemma_decoder_never_says_farewell(
    raw: Seq<u8>,
    carry: MouseEvent,
    disable_extended: bool,
)
    ensures
        forall|i: int|
            0 <= i < decoded(raw, carry, disable_extended).0.len() ==> !(#[trigger] decoded(
                raw,
                carry,
                disable_extended,
            ).0[i] is ClientExited),
{
    if !disable_extended && extended_key(raw) is Some {
    } else {
        lemma_legacy_never_says_farewell(legacy_events(raw), raw, carry);
    }
}

/// What the events of the legacy parser give holds no `ClientExited`.
pub proof fn lemma_legacy_never_says_farewell(
    events: Seq<TerminalEvent>,
    raw: Seq<u8>,
    carry: MouseEvent,
)
    ensures
        forall|i: int|
            0 <= i < legacy_decoded(events, raw, carry).0.len() ==> !(#[trigger] legacy_decoded(
                events,
                raw,
                carry,
            ).0[i] is ClientExited),
    decreases events.len(),
{
    if events.len() > 0 {
        lemma_legacy_never_says_farewell(events.drop_last(), raw, carry);
    }
}

} // verus!
