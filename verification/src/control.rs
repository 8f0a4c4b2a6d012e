//! The control channel: where a control frame goes.

use crate::frames::{ControlMessage, Dropped, Inbound};
use crate::registry::ConnectionTable;
use vstd::prelude::*;

verus! {

/// What is done with one frame of the control channel.
#[derive(Debug, PartialEq, Eq)]
pub enum ControlRoute<'a, H, M> {
    /// The message is sent, as it came, through this handle.
    Forward { handle: &'a H, message: M },
    /// Nothing is sent.
    Drop(Dropped),
}

/// Whether a route is the right one for a frame, given what the registry holds.
/// A frame whose identifier has an entry is forwarded, unchanged, through the
/// handle of that entry. Any other frame is dropped, and the reason says why.
pub open spec fn is_control_route<H, M>(
    table: Map<Seq<char>, H>,
    frame: Inbound<ControlMessage<M>>,
    route: ControlRoute<'_, H, M>,
) -> bool {
    match frame {
        Inbound::Frame(f) => if table.contains_key(f.web_client_id@) {
            &&& route matches ControlRoute::Forward { handle, message }
            &&& *handle == table[f.web_client_id@]
            &&& message == f.message
        } else {
            &&& route matches ControlRoute::Drop(Dropped::UnknownIdentifier { web_client_id })
            &&& web_client_id@ == f.web_client_id@
        },
        Inbound::Malformed => route matches ControlRoute::Drop(Dropped::ParseError),
        Inbound::NotText => route matches ControlRoute::Drop(Dropped::Unsupported),
    }
}

/// What one frame of the control channel sends: its message through the handle
/// of its identifier, where the identifier has an entry; else nothing.
pub open spec fn control_outcome<H, M>(
    table: Map<Seq<char>, H>,
    frame: Inbound<ControlMessage<M>>,
) -> Option<(H, M)> {
    match frame {
        Inbound::Frame(f) => if table.contains_key(f.web_client_id@) {
            Some((table[f.web_client_id@], f.message))
        } else {
            None
        },
        _ => None,
    }
}

/// What a route sends.
pub open spec fn route_send<H, M>(route: ControlRoute<'_, H, M>) -> Option<(H, M)> {
    match route {
        ControlRoute::Forward { handle, message } => Some((*handle, message)),
        ControlRoute::Drop(_) => None,
    }
}

/// Decides what is done with one frame of the control channel.
pub fn route_control_frame<'a, H, M>(
    table: &'a ConnectionTable<H>,
    frame: Inbound<ControlMessage<M>>,
) -> (route: ControlRoute<'a, H, M>)
    ensures
        is_control_route(table@, frame, route),
        route_send(route) == control_outcome(table@, frame),
{
    match frame {
        Inbound::Frame(f) => match table.get(f.web_client_id.as_str()) {
            Some(handle) => ControlRoute::Forward { handle, message: f.message },
            None => ControlRoute::Drop(
                Dropped::UnknownIdentifier { web_client_id: f.web_client_id },
            ),
        },
        Inbound::Malformed => ControlRoute::Drop(Dropped::ParseError),
        Inbound::NotText => ControlRoute::Drop(Dropped::Unsupported),
    }
}

/// One frame as the control channel receives it: the frame, and what the
/// registry holds at that moment.
pub struct ControlReceipt<H, M> {
    pub table: Map<Seq<char>, H>,
    pub frame: Inbound<ControlMessage<M>>,
}

/// What one received frame sends: one message, or none.
pub open spec fn receipt_sends<H, M>(receipt: ControlReceipt<H, M>) -> Seq<(H, M)> {
    match control_outcome(receipt.table, receipt.frame) {
        Some(send) => seq![send],
        None => Seq::empty(),
    }
}

/// All that a sequence of frames sends, in the order of sending.
pub open spec fn control_sends<H, M>(receipts: Seq<ControlReceipt<H, M>>) -> Seq<(H, M)>
    decreases receipts.len(),
{
    if receipts.len() == 0 {
        Seq::empty()
    } else {
        control_sends(receipts.drop_last()) + receipt_sends(receipts.last())
    }
}

/// The number of frames of a sequence whose identifier has an entry when the
/// frame comes.
pub open spec fn routed_count<H, M>(receipts: Seq<ControlReceipt<H, M>>) -> nat
    decreases receipts.len(),
{
    if receipts.len() == 0 {
        0
    } else {
        routed_count(receipts.drop_last()) + if control_outcome(
            receipts.last().table,
            receipts.last().frame,
        ) is Some {
            1nat
        } else {
            0nat
        }
    }
}

/// The messages that go through one handle, in the order of sending.
pub open spec fn sent_through<H, M>(handle: H, sends: Seq<(H, M)>) -> Seq<M> {
    sends.filter(|send: (H, M)| send.0 == handle).map_values(|send: (H, M)| send.1)
}

/// Frames that follow one another send what the first ones send and then what
/// the later ones send.
pub proof fn lemma_control_sends_concat<H, M>(
    first: Seq<ControlReceipt<H, M>>,
    later: Seq<ControlReceipt<H, M>>,
)
    ensures
        control_sends(first + later) == control_sends(first) + control_sends(later),
        routed_count(first + later) == routed_count(first) + routed_count(later),
    decreases later.len(),
{
    if later.len() == 0 {
        assert(first + later == first);
    } else {
        assert((first + later).drop_last() == first + later.drop_last());
        assert((first + later).last() == later.last());
        lemma_control_sends_concat(first, later.drop_last());
    }
}

/// One send for each routed frame: a sequence of frames causes as many sends as
/// it has frames whose identifier has an entry when the frame comes. None is
/// sent twice, and the other frames send nothing.
pub proof fn lemma_one_send_for_each_routed_frame<H, M>(receipts: Seq<ControlReceipt<H, M>>)
    ensures
        control_sends(receipts).len() == routed_count(receipts),
    decreases receipts.len(),
{
    if receipts.len() > 0 {
        lemma_one_send_for_each_routed_frame(receipts.drop_last());
    }
}

/// Routing: a frame whose identifier has an entry when the frame comes has its
/// message sent, as it came, through the handle of that entry, once, and at the
/// frame's place in the order. On that handle it comes after the messages of the
/// frames before it and before those of the frames after it.
pub proof fn lemma_control_frame_is_routed_in_order<H, M>(
    before: Seq<ControlReceipt<H, M>>,
    receipt: ControlReceipt<H, M>,
    after: Seq<ControlReceipt<H, M>>,
)
    requires
        receipt.frame matches Inbound::Frame(f) && receipt.table.contains_key(f.web_client_id@),
    ensures
        ({
            let f = receipt.frame->Frame_0;
            let handle = receipt.table[f.web_client_id@];
            let all = control_sends(before + seq![receipt] + after);
            &&& all == control_sends(before) + seq![(handle, f.message)] + control_sends(after)
            &&& sent_through(handle, all) == sent_through(handle, control_sends(before)) + seq![
                f.message,
            ] + sent_through(handle, control_sends(after))
        }),
{
    let one = seq![receipt];
    lemma_control_sends_concat(before, one);
    lemma_control_sends_concat(before + one, after);
    assert(one.drop_last() == Seq::<ControlReceipt<H, M>>::empty());
    assert(one.last() == receipt);
    assert(control_sends(one.drop_last()) == Seq::<(H, M)>::empty());
    let f = receipt.frame->Frame_0;
    let handle = receipt.table[f.web_client_id@];
    let send = (handle, f.message);
    assert(control_sends(one) == seq![send]);
    let on_handle = |s: (H, M)| s.0 == handle;
    let message_of = |s: (H, M)| s.1;
    let a = control_sends(before);
    let b = control_sends(after);
    Seq::filter_distributes_over_add(a, seq![send], on_handle);
    Seq::filter_distributes_over_add(a + seq![send], b, on_handle);
    assert(seq![send].filter(on_handle) == seq![send]) by {
        reveal(Seq::filter);
        assert(seq![send].drop_last() == Seq::<(H, M)>::empty());
        assert(Seq::<(H, M)>::empty().filter(on_handle) == Seq::<(H, M)>::empty());
    }
    let fa = a.filter(on_handle);
    let fb = b.filter(on_handle);
    assert((fa + seq![send] + fb).map_values(message_of) == fa.map_values(message_of) + seq![
        f.message,
    ] + fb.map_values(message_of));
}

/// Isolation: a frame whose identifier has no entry when the frame comes sends
/// nothing, through no handle: the frames around it send what they would send
/// without it.
pub proof fn lemma_unknown_control_frame_sends_nothing<H, M>(
    before: Seq<ControlReceipt<H, M>>,
    receipt: ControlReceipt<H, M>,
    after: Seq<ControlReceipt<H, M>>,
)
    requires
        receipt.frame matches Inbound::Frame(f) && !receipt.table.contains_key(f.web_client_id@),
    ensures
        receipt_sends(receipt) == Seq::<(H, M)>::empty(),
        control_sends(before + seq![receipt] + after) == control_sends(before + after),
{
    let one = seq![receipt];
    lemma_control_sends_concat(before, one);
    lemma_control_sends_concat(before + one, after);
    lemma_control_sends_concat(before, after);
    assert(one.drop_last() == Seq::<ControlReceipt<H, M>>::empty());
    assert(one.last() == receipt);
    assert(control_sends(one.drop_last()) == Seq::<(H, M)>::empty());
    assert(control_sends(one) == Seq::<(H, M)>::empty());
}

} // verus!
