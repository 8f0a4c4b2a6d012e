//! The frames that a browser and the gateway exchange, and why a frame from the
//! browser may be dropped.

use vstd::prelude::*;

verus! {

/// A render frame for the browser: bytes that the server rendered, addressed to
/// one web client.
#[derive(Debug, PartialEq, Eq)]
pub struct RenderedBytes {
    pub web_client_id: String,
    pub bytes: String,
}

impl RenderedBytes {
    /// The frame that carries `bytes` to the client `web_client_id`.
    pub fn new(bytes: String, web_client_id: &str) -> (frame: Self)
        ensures
            frame.bytes == bytes,
            frame.web_client_id@ == web_client_id@,
    {
        RenderedBytes { web_client_id: web_client_id.to_owned(), bytes }
    }
}

/// A control frame from the browser: a message for the server, with the
/// identifier of the web client that sends it.
#[derive(Debug, PartialEq, Eq)]
pub struct ControlMessage<M> {
    pub web_client_id: String,
    pub message: M,
}

/// A stdin frame from the browser: raw terminal input as text, with the
/// identifier of the web client that sends it.
#[derive(Debug, PartialEq, Eq)]
pub struct StdinMessage {
    pub web_client_id: String,
    pub stdin: String,
}

/// What came in on a channel from the browser.
#[derive(Debug, PartialEq, Eq)]
pub enum Inbound<F> {
    /// A text frame that was read as a frame of the channel's kind.
    Frame(F),
    /// A text frame that could not be read.
    Malformed,
    /// A frame that is not text.
    NotText,
}

/// Why a frame from the browser was dropped. The channel goes on in each case.
#[derive(Debug, PartialEq, Eq)]
pub enum Dropped {
    /// The text could not be read as a frame.
    ParseError,
    /// The frame names a web client that the registry does not hold: its
    /// terminal channel has gone.
    UnknownIdentifier { web_client_id: String },
    /// The frame is not text.
    Unsupported,
}

/// What became of an attempt to deliver one payload to the browser.
#[derive(Clone, Copy, Debug, PartialEq, Eq, Structural)]
pub enum Delivery {
    /// The frame was written.
    Sent,
    /// The payload could not be put into a frame.
    NotSerialized,
    /// The frame could not be written: the browser is gone.
    SendFailed,
}

/// Whether the render pump goes on after a delivery: it ends when a frame could
/// not be written, and only then.
pub fn pump_continues(delivery: Delivery) -> (goes_on: bool)
    ensures
        goes_on == (delivery != Delivery::SendFailed),
{
    match delivery {
        Delivery::Sent => true,
        Delivery::NotSerialized => true,
        Delivery::SendFailed => false,
    }
}

/// The views of a sequence of strings, in order.
pub open spec fn string_views(texts: Seq<String>) -> Seq<Seq<char>> {
    texts.map_values(|t: String| t@)
}

/// What a sequence of render frames says: for each frame the web client that it
/// is addressed to, and its bytes.
pub open spec fn frame_views(frames: Seq<RenderedBytes>) -> Seq<(Seq<char>, Seq<char>)> {
    frames.map_values(|f: RenderedBytes| (f.web_client_id@, f.bytes@))
}

/// The frames that the render pump writes for a sequence of payloads, given what
/// became of each delivery: one frame for each payload that was sent, addressed
/// to the channel's web client, in the order of the payloads. A payload that
/// could not be put into a frame is passed over. The pump ends with the first
/// frame that could not be written.
pub open spec fn pumped(
    web_client_id: Seq<char>,
    payloads: Seq<Seq<char>>,
    deliveries: Seq<Delivery>,
) -> Seq<(Seq<char>, Seq<char>)>
    decreases payloads.len(),
{
    if payloads.len() == 0 || deliveries.len() == 0 {
        Seq::empty()
    } else {
        match deliveries.first() {
            Delivery::Sent => seq![(web_client_id, payloads.first())] + pumped(
                web_client_id,
                payloads.drop_first(),
                deliveries.drop_first(),
            ),
            Delivery::NotSerialized => pumped(
                web_client_id,
                payloads.drop_first(),
                deliveries.drop_first(),
            ),
            Delivery::SendFailed => Seq::empty(),
        }
    }
}

/// The pump keeps the order and drops nothing: where every frame is written, the
/// browser gets one frame for each payload, with the payload's bytes, in the
/// order of the payloads.
pub proof fn lemma_pump_keeps_order(
    web_client_id: Seq<char>,
    payloads: Seq<Seq<char>>,
    deliveries: Seq<Delivery>,
)
    requires
        deliveries.len() >= payloads.len(),
        forall|i: int| 0 <= i < deliveries.len() ==> #[trigger] deliveries[i] is Sent,
    ensures
        pumped(web_client_id, payloads, deliveries).len() == payloads.len(),
        forall|i: int|
            0 <= i < payloads.len() ==> #[trigger] pumped(web_client_id, payloads, deliveries)[i]
                == (web_client_id, payloads[i]),
    decreases payloads.len(),
{
    if payloads.len() > 0 {
        let rest = payloads.drop_first();
        let later = deliveries.drop_first();
        assert(deliveries[0] is Sent);
        assert forall|i: int| 0 <= i < later.len() implies #[trigger] later[i] is Sent by {
            assert(later[i] == deliveries[i + 1]);
        }
        lemma_pump_keeps_order(web_client_id, rest, later);
        let all = pumped(web_client_id, payloads, deliveries);
        let tail = pumped(web_client_id, rest, later);
        assert(all == seq![(web_client_id, payloads.first())] + tail);
        assert forall|i: int| 0 <= i < payloads.len() implies #[trigger] all[i] == (
            web_client_id,
            payloads[i],
        ) by {
            if i > 0 {
                assert(all[i] == tail[i - 1]);
                assert(rest[i - 1] == payloads[i]);
            }
        }
    }
}

/// Replays the render pump over payloads whose deliveries are known: the frames
/// that were written, in order.
pub fn replay_pump(payloads: &Vec<String>, web_client_id: &str, deliveries: &Vec<Delivery>) -> (frames:
    Vec<RenderedBytes>)
    ensures
        frame_views(frames@) == pumped(web_client_id@, string_views(payloads@), deliveries@),
{
    let mut frames: Vec<RenderedBytes> = Vec::new();
    let mut i: usize = 0;
    assert(string_views(payloads@).skip(0) == string_views(payloads@));
    assert(deliveries@.skip(0) == deliveries@);
    assert(frame_views(frames@) + pumped(
        web_client_id@,
        string_views(payloads@),
        deliveries@,
    ) == pumped(web_client_id@, string_views(payloads@), deliveries@));
    while i < payloads.len() && i < deliveries.len()
        invariant
            i <= payloads@.len(),
            i <= deliveries@.len(),
            pumped(web_client_id@, string_views(payloads@), deliveries@) == frame_views(frames@)
                + pumped(
                web_client_id@,
                string_views(payloads@).skip(i as int),
                deliveries@.skip(i as int),
            ),
        decreases payloads@.len() - i,
    {
        let ghost before = frames@;
        let ghost rest = string_views(payloads@).skip(i as int);
        let ghost later = deliveries@.skip(i as int);
        proof {
            assert(rest.first() == payloads@[i as int]@);
            assert(later.first() == deliveries@[i as int]);
            assert(rest.drop_first() == string_views(payloads@).skip(i + 1));
            assert(later.drop_first() == deliveries@.skip(i + 1));
        }
        let frame = RenderedBytes::new(payloads[i].clone(), web_client_id);
        let delivery = deliveries[i];
        match delivery {
            Delivery::Sent => {
                frames.push(frame);
                proof {
                    let written = (web_client_id@, payloads@[i as int]@);
                    assert(frame_views(frames@) == frame_views(before).push(written));
                    let tail = pumped(web_client_id@, rest.drop_first(), later.drop_first());
                    assert(frame_views(before) + (seq![written] + tail) == frame_views(
                        before,
                    ).push(written) + tail);
                }
            },
            _ => {},
        }
        if !pump_continues(delivery) {
            assert(frame_views(frames@) + Seq::<(Seq<char>, Seq<char>)>::empty() == frame_views(
                frames@,
            ));
            return frames;
        }
        i = i + 1;
    }
    proof {
        let rest = string_views(payloads@).skip(i as int);
        let later = deliveries@.skip(i as int);
        assert(rest.len() == 0 || later.len() == 0);
        assert(frame_views(frames@) + Seq::<(Seq<char>, Seq<char>)>::empty() == frame_views(
            frames@,
        ));
    }
    frames
}

} // verus!
