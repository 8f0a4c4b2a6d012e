//! The terminal channel: its identifier, its entry in the registry, where its
//! stdin frames go, and what its end leaves behind.

use crate::frames::{Dropped, Inbound, StdinMessage};
use crate::listener::AttachRequest;
use crate::messages::{message_views, ClientMessage, ClientMessageView};
use crate::mouse::MouseEvent;
use crate::registry::ConnectionTable;
use crate::stdin::{decoded, lemma_decoder_never_says_farewell, parse_stdin};
use vstd::prelude::*;
use vstd::string::StringSliceAdditionalSpecFns;
use vstd::utf8::encode_utf8;

verus! {

/// Whether a character is a digit of lower-case hexadecimal.
pub open spec fn is_lower_hex(c: char) -> bool {
    ('0' <= c && c <= '9') || ('a' <= c && c <= 'f')
}

/// Whether a text has the canonical form of a 128-bit identifier: 32 digits of
/// lower-case hexadecimal in groups of 8, 4, 4, 4 and 12, with a hyphen between
/// the groups.
pub open spec fn is_canonical_identifier(id: Seq<char>) -> bool {
    &&& id.len() == 36
    &&& forall|i: int|
        0 <= i < 36 ==> if i == 8 || i == 13 || i == 18 || i == 23 {
            #[trigger] id[i] == '-'
        } else {
            is_lower_hex(id[i])
        }
}

/// `uuid::Uuid::new_v4`, turned into a `String` by the crate's `From`: a fresh
/// random identifier in its canonical hyphenated lower-case form. Which one
/// comes is not said; two calls need not agree.
#[verifier::external_body]
fn mint_identifier() -> (id: String)
    ensures
        is_canonical_identifier(id@),
{
    String::from(uuid::Uuid::new_v4())
}

/// Whether the extended keyboard protocol is switched off: only where the
/// option is set, and set to `false`.
pub fn disable_extended_keyboard(support_extended_keyboard: Option<bool>) -> (disable: bool)
    ensures
        disable == (support_extended_keyboard == Some(false)),
{
    match support_extended_keyboard {
        Some(supported) => !supported,
        None => false,
    }
}

/// The session that a terminal channel attaches to: the one that the path names,
/// else the gateway's default.
pub fn resolve_session_name(path_session: Option<String>, default_session: &str) -> (name: String)
    ensures
        name@ == (match path_session {
            Some(session) => session@,
            None => default_session@,
        }),
{
    match path_session {
        Some(session) => session,
        None => default_session.to_owned(),
    }
}

/// What is done with one frame of the terminal channel.
#[derive(Debug, PartialEq, Eq)]
pub enum StdinRoute<'a, H> {
    /// The messages are sent through this handle, each once, in this order.
    Forward { handle: &'a H, messages: Vec<ClientMessage> },
    /// Nothing is sent.
    Drop(Dropped),
}

/// What one frame of the channel leads to: the handle and the messages that go
/// through it, or nothing; and the mouse state after the frame. A frame whose
/// identifier has an entry is decoded, and what it decodes to goes through the
/// handle of that entry. Any other frame sends nothing and leaves the mouse
/// state as it was.
pub open spec fn stdin_outcome<H>(
    table: Map<Seq<char>, H>,
    frame: Inbound<StdinMessage>,
    carry: MouseEvent,
    disable_extended: bool,
) -> (Option<(H, Seq<ClientMessageView>)>, MouseEvent) {
    match frame {
        Inbound::Frame(f) => if table.contains_key(f.web_client_id@) {
            let (messages, carried) = decoded(encode_utf8(f.stdin@), carry, disable_extended);
            (Some((table[f.web_client_id@], messages)), carried)
        } else {
            (None, carry)
        },
        _ => (None, carry),
    }
}

/// Why a frame is dropped, where it is.
pub open spec fn drop_reason<H>(
    table: Map<Seq<char>, H>,
    frame: Inbound<StdinMessage>,
    reason: Dropped,
) -> bool {
    match frame {
        Inbound::Frame(f) => {
            &&& !table.contains_key(f.web_client_id@)
            &&& reason matches Dropped::UnknownIdentifier { web_client_id }
            &&& web_client_id@ == f.web_client_id@
        },
        Inbound::Malformed => reason is ParseError,
        Inbound::NotText => reason is Unsupported,
    }
}

/// Whether a route is the right one for a frame: it carries what the frame
/// leads to, or the reason why the frame is dropped.
pub open spec fn is_stdin_route<H>(
    table: Map<Seq<char>, H>,
    frame: Inbound<StdinMessage>,
    carry: MouseEvent,
    disable_extended: bool,
    route: StdinRoute<'_, H>,
) -> bool {
    match route {
        StdinRoute::Forward { handle, messages } => stdin_outcome(
            table,
            frame,
            carry,
            disable_extended,
        ).0 == Some((*handle, message_views(messages@))),
        StdinRoute::Drop(reason) => {
            &&& stdin_outcome(table, frame, carry, disable_extended).0 is None
            &&& drop_reason(table, frame, reason)
        },
    }
}

/// Whom one frame of the terminal channel is for.
#[derive(Debug, PartialEq, Eq)]
pub enum StdinAddress<'a, H> {
    /// The input is decoded, and what it decodes to goes through this handle.
    Deliver { handle: &'a H, stdin: String },
    /// The frame is dropped.
    Drop(Dropped),
}

/// Whether an address is the right one for a frame, given what the registry
/// holds: the handle of the frame's identifier with the frame's input, where
/// the identifier has an entry; else the reason why the frame is dropped.
pub open spec fn is_stdin_address<H>(
    table: Map<Seq<char>, H>,
    frame: Inbound<StdinMessage>,
    address: StdinAddress<'_, H>,
) -> bool {
    match address {
        StdinAddress::Deliver { handle, stdin } => {
            &&& frame matches Inbound::Frame(f)
            &&& table.contains_key(f.web_client_id@)
            &&& *handle == table[f.web_client_id@]
            &&& stdin == f.stdin
        },
        StdinAddress::Drop(reason) => drop_reason(table, frame, reason),
    }
}

/// Finds whom one frame of a terminal channel is for. Nothing is decoded yet:
/// the registry is needed for this step only.
pub fn address_stdin_frame<'a, H>(table: &'a ConnectionTable<H>, frame: Inbound<StdinMessage>) -> (address:
    StdinAddress<'a, H>)
    ensures
        is_stdin_address(table@, frame, address),
{
    match frame {
        Inbound::Frame(f) => match table.get(f.web_client_id.as_str()) {
            Some(handle) => StdinAddress::Deliver { handle, stdin: f.stdin },
            None => StdinAddress::Drop(
                Dropped::UnknownIdentifier { web_client_id: f.web_client_id },
            ),
        },
        Inbound::Malformed => StdinAddress::Drop(Dropped::ParseError),
        Inbound::NotText => StdinAddress::Drop(Dropped::Unsupported),
    }
}

/// What the end of a terminal channel leaves: the one message that tells the
/// server so, and the handle that the registry held for the channel.
#[derive(Debug, PartialEq, Eq)]
pub struct Closing<H> {
    pub farewell: ClientMessage,
    pub handle: Option<H>,
}

/// One terminal channel between a browser and the server.
#[derive(Debug)]
pub struct TerminalChannel {
    web_client_id: String,
    carry: MouseEvent,
    disable_extended: bool,
}

impl TerminalChannel {
    /// The channel's identifier.
    pub closed spec fn id(&self) -> Seq<char> {
        self.web_client_id@
    }

    /// The mouse event that the channel carries from its last mouse report.
    pub closed spec fn carried(&self) -> MouseEvent {
        self.carry
    }

    /// Whether the extended keyboard protocol is switched off on this channel.
    pub closed spec fn extended_disabled(&self) -> bool {
        self.disable_extended
    }

    /// Opens a channel under a given identifier: enters the handle in the
    /// registry under it, and starts with no mouse button held.
    pub fn open_as<H>(
        table: &mut ConnectionTable<H>,
        web_client_id: String,
        handle: H,
        support_extended_keyboard: Option<bool>,
    ) -> (channel: TerminalChannel)
        ensures
            channel.id() == web_client_id@,
            final(table)@ == old(table)@.insert(web_client_id@, handle),
            channel.carried() == MouseEvent::spec_new(),
            channel.extended_disabled() == (support_extended_keyboard == Some(false)),
    {
        table.insert(web_client_id.clone(), handle);
        TerminalChannel {
            web_client_id,
            carry: MouseEvent::new(),
            disable_extended: disable_extended_keyboard(support_extended_keyboard),
        }
    }

    /// Opens a channel under a freshly minted identifier.
    pub fn open<H>(
        table: &mut ConnectionTable<H>,
        handle: H,
        support_extended_keyboard: Option<bool>,
    ) -> (channel: TerminalChannel)
        ensures
            is_canonical_identifier(channel.id()),
            final(table)@ == old(table)@.insert(channel.id(), handle),
            channel.carried() == MouseEvent::spec_new(),
            channel.extended_disabled() == (support_extended_keyboard == Some(false)),
    {
        Self::open_as(table, mint_identifier(), handle, support_extended_keyboard)
    }

    /// The channel's identifier.
    pub fn web_client_id(&self) -> (id: &str)
        ensures
            id@ == self.id(),
    {
        self.web_client_id.as_str()
    }

    /// Decodes the input of one frame that is to be delivered, from the mouse
    /// state that the channel carries, and carries the new state on.
    pub fn decode(&mut self, stdin: &str) -> (messages: Vec<ClientMessage>)
        ensures
            final(self).id() == old(self).id(),
            final(self).extended_disabled() == old(self).extended_disabled(),
            (message_views(messages@), final(self).carried()) == decoded(
                stdin.spec_bytes(),
                old(self).carried(),
                old(self).extended_disabled(),
            ),
    {
        parse_stdin(stdin, &mut self.carry, self.disable_extended)
    }

    /// Decides what is done with one frame of the channel, and decodes it where
    /// it is to be forwarded.
    pub fn on_frame<'a, H>(&mut self, table: &'a ConnectionTable<H>, frame: Inbound<StdinMessage>) -> (route:
        StdinRoute<'a, H>)
        ensures
            final(self).id() == old(self).id(),
            final(self).extended_disabled() == old(self).extended_disabled(),
            is_stdin_route(
                table@,
                frame,
                old(self).carried(),
                old(self).extended_disabled(),
                route,
            ),
            final(self).carried() == stdin_outcome(
                table@,
                frame,
                old(self).carried(),
                old(self).extended_disabled(),
            ).1,
    {
        match address_stdin_frame(table, frame) {
            StdinAddress::Deliver { handle, stdin } => {
                let messages = self.decode(stdin.as_str());
                StdinRoute::Forward { handle, messages }
            },
            StdinAddress::Drop(reason) => StdinRoute::Drop(reason),
        }
    }

    /// Ends the channel: takes its entry out of the registry and hands back the
    /// one `ClientExited` that the server is owed. The channel is used up, so no
    /// second one can follow.
    pub fn close<H>(self, table: &mut ConnectionTable<H>) -> (closing: Closing<H>)
        ensures
            closing.farewell@ == ClientMessageView::ClientExited,
            final(table)@ == old(table)@.remove(self.id()),
            !final(table)@.contains_key(self.id()),
            closing.handle == (if old(table)@.contains_key(self.id()) {
                Some(old(table)@[self.id()])
            } else {
                None
            }),
    {
        let handle = table.remove(self.web_client_id.as_str());
        Closing { farewell: ClientMessage::ClientExited, handle }
    }
}

/// One frame as the channel receives it: the frame, and what the registry holds
/// at that moment.
pub struct Receipt<H> {
    pub table: Map<Seq<char>, H>,
    pub frame: Inbound<StdinMessage>,
}

/// What one frame sends: each message that it decodes to, with the handle that
/// it goes through.
pub open spec fn frame_sends<H>(receipt: Receipt<H>, carry: MouseEvent, disable_extended: bool) -> Seq<
    (H, ClientMessageView),
> {
    match stdin_outcome(receipt.table, receipt.frame, carry, disable_extended).0 {
        Some((handle, messages)) => messages.map_values(|m: ClientMessageView| (handle, m)),
        None => Seq::empty(),
    }
}

/// The mouse state after a sequence of frames.
pub open spec fn carry_after<H>(
    receipts: Seq<Receipt<H>>,
    carry: MouseEvent,
    disable_extended: bool,
) -> MouseEvent
    decreases receipts.len(),
{
    if receipts.len() == 0 {
        carry
    } else {
        stdin_outcome(
            receipts.last().table,
            receipts.last().frame,
            carry_after(receipts.drop_last(), carry, disable_extended),
            disable_extended,
        ).1
    }
}

/// All that a sequence of frames sends, in the order of sending.
pub open spec fn channel_sends<H>(
    receipts: Seq<Receipt<H>>,
    carry: MouseEvent,
    disable_extended: bool,
) -> Seq<(H, ClientMessageView)>
    decreases receipts.len(),
{
    if receipts.len() == 0 {
        Seq::empty()
    } else {
        channel_sends(receipts.drop_last(), carry, disable_extended) + frame_sends(
            receipts.last(),
            carry_after(receipts.drop_last(), carry, disable_extended),
            disable_extended,
        )
    }
}

/// Frames that follow one another send what the first ones send and then what
/// the later ones send, the later ones from the mouse state that the first ones
/// left.
pub proof fn lemma_sends_concat<H>(
    first: Seq<Receipt<H>>,
    later: Seq<Receipt<H>>,
    carry: MouseEvent,
    disable_extended: bool,
)
    ensures
        carry_after(first + later, carry, disable_extended) == carry_after(
            later,
            carry_after(first, carry, disable_extended),
            disable_extended,
        ),
        channel_sends(first + later, carry, disable_extended) == channel_sends(
            first,
            carry,
            disable_extended,
        ) + channel_sends(later, carry_after(first, carry, disable_extended), disable_extended),
    decreases later.len(),
{
    if later.len() == 0 {
        assert(first + later == first);
    } else {
        assert((first + later).drop_last() == first + later.drop_last());
        assert((first + later).last() == later.last());
        lemma_sends_concat(first, later.drop_last(), carry, disable_extended);
    }
}

/// Routing: every frame whose identifier has an entry when the frame comes has
/// its decoded messages sent through the handle of that entry, each once, and at
/// the frame's place in the order: after all that the frames before it send and
/// before all that the frames after it send.
pub proof fn lemma_frame_is_routed_in_order<H>(
    before: Seq<Receipt<H>>,
    receipt: Receipt<H>,
    after: Seq<Receipt<H>>,
    carry: MouseEvent,
    disable_extended: bool,
)
    requires
        receipt.frame matches Inbound::Frame(f) && receipt.table.contains_key(f.web_client_id@),
    ensures
        ({
            let f = receipt.frame->Frame_0;
            let at_receipt = carry_after(before, carry, disable_extended);
            let (messages, carried) = decoded(encode_utf8(f.stdin@), at_receipt, disable_extended);
            let handle = receipt.table[f.web_client_id@];
            channel_sends(before + seq![receipt] + after, carry, disable_extended) == channel_sends(
                before,
                carry,
                disable_extended,
            ) + messages.map_values(|m: ClientMessageView| (handle, m)) + channel_sends(
                after,
                carried,
                disable_extended,
            )
        }),
{
    let one = seq![receipt];
    lemma_sends_concat(before, one, carry, disable_extended);
    lemma_sends_concat(before + one, after, carry, disable_extended);
    let at_receipt = carry_after(before, carry, disable_extended);
    assert(one.drop_last() == Seq::<Receipt<H>>::empty());
    assert(one.last() == receipt);
    assert(carry_after(one.drop_last(), at_receipt, disable_extended) == at_receipt);
    assert(channel_sends(one.drop_last(), at_receipt, disable_extended) == Seq::<
        (H, ClientMessageView),
    >::empty());
    assert(channel_sends(one, at_receipt, disable_extended) == frame_sends(
        receipt,
        at_receipt,
        disable_extended,
    ));
}

/// Isolation: a frame whose identifier has no entry when the frame comes sends
/// nothing, through no handle, and leaves the mouse state as it was: the frames
/// around it send what they would send without it.
pub proof fn lemma_unknown_frame_sends_nothing<H>(
    before: Seq<Receipt<H>>,
    receipt: Receipt<H>,
    after: Seq<Receipt<H>>,
    carry: MouseEvent,
    disable_extended: bool,
)
    requires
        receipt.frame matches Inbound::Frame(f) && !receipt.table.contains_key(f.web_client_id@),
    ensures
        frame_sends(receipt, carry, disable_extended) == Seq::<(H, ClientMessageView)>::empty(),
        channel_sends(before + seq![receipt] + after, carry, disable_extended) == channel_sends(
            before + after,
            carry,
            disable_extended,
        ),
{
    let one = seq![receipt];
    lemma_sends_concat(before, one, carry, disable_extended);
    lemma_sends_concat(before + one, after, carry, disable_extended);
    lemma_sends_concat(before, after, carry, disable_extended);
    let at_receipt = carry_after(before, carry, disable_extended);
    assert(one.drop_last() == Seq::<Receipt<H>>::empty());
    assert(one.last() == receipt);
    assert(carry_after(one.drop_last(), at_receipt, disable_extended) == at_receipt);
    assert(channel_sends(one.drop_last(), at_receipt, disable_extended) == Seq::<
        (H, ClientMessageView),
    >::empty());
    assert(channel_sends(one, at_receipt, disable_extended) == Seq::<
        (H, ClientMessageView),
    >::empty());
    assert(carry_after(one, at_receipt, disable_extended) == at_receipt);
}

/// A message that a terminal channel sends to the server.
pub enum ChannelSend<P, C, O> {
    /// The attach request.
    Attach(AttachRequest<P, C, O>),
    /// A message that the gateway composed.
    Gateway(ClientMessageView),
}

/// All that a terminal channel sends to the server from its opening to its end,
/// in the order of sending: the attach request of its listener, then what its
/// frames send, then the farewell of its end.
pub open spec fn channel_transcript<H, P, C, O>(
    request: AttachRequest<P, C, O>,
    receipts: Seq<Receipt<H>>,
    disable_extended: bool,
) -> Seq<ChannelSend<P, C, O>> {
    seq![ChannelSend::Attach(request)] + channel_sends(
        receipts,
        MouseEvent::spec_new(),
        disable_extended,
    ).map_values(|send: (H, ClientMessageView)| ChannelSend::Gateway(send.1)) + seq![
        ChannelSend::Gateway(ClientMessageView::ClientExited),
    ]
}

/// No frame sends a `ClientExited`.
pub proof fn lemma_frames_never_say_farewell<H>(
    receipts: Seq<Receipt<H>>,
    carry: MouseEvent,
    disable_extended: bool,
)
    ensures
        forall|i: int|
            0 <= i < channel_sends(receipts, carry, disable_extended).len() ==> !(
            #[trigger] channel_sends(receipts, carry, disable_extended)[i].1 is ClientExited),
    decreases receipts.len(),
{
    if receipts.len() > 0 {
        let front = receipts.drop_last();
        lemma_frames_never_say_farewell(front, carry, disable_extended);
        let at_last = carry_after(front, carry, disable_extended);
        match receipts.last().frame {
            Inbound::Frame(f) => {
                lemma_decoder_never_says_farewell(
                    encode_utf8(f.stdin@),
                    at_last,
                    disable_extended,
                );
            },
            _ => {},
        }
    }
}

/// From its opening to its end a terminal channel sends the attach request
/// first, ahead of every key, mouse action and farewell; and it sends exactly
/// one `ClientExited`, as its last message, whatever frames came in between.
pub proof fn lemma_attach_first_farewell_once<H, P, C, O>(
    request: AttachRequest<P, C, O>,
    receipts: Seq<Receipt<H>>,
    disable_extended: bool,
)
    ensures
        ({
            let sends = channel_transcript(request, receipts, disable_extended);
            &&& sends.len() >= 2
            &&& sends[0] == ChannelSend::Attach(request)
            &&& sends.last() == ChannelSend::<P, C, O>::Gateway(ClientMessageView::ClientExited)
            &&& forall|i: int|
                1 <= i < sends.len() - 1 ==> (#[trigger] sends[i] matches ChannelSend::Gateway(m)
                    && !(m is ClientExited))
        }),
{
    lemma_frames_never_say_farewell(receipts, MouseEvent::spec_new(), disable_extended);
    let middle = channel_sends(receipts, MouseEvent::spec_new(), disable_extended);
    let sends = channel_transcript(request, receipts, disable_extended);
    assert forall|i: int| 1 <= i < sends.len() - 1 implies (#[trigger] sends[i] matches ChannelSend::Gateway(
        m,
    ) && !(m is ClientExited)) by {
        assert(sends[i] == ChannelSend::<P, C, O>::Gateway(middle[i - 1].1));
    }
}

} // verus!
