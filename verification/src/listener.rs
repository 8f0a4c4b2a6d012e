//! The server listener of a terminal channel: the preamble that the browser gets
//! on attach, the attach request, and what each message of the server leads to.

use crate::frames::{pumped, string_views, Delivery};
use crate::messages::{ClientMessage, ClientMessageView};
use vstd::prelude::*;

verus! {

/// The five payloads that put the browser's terminal into a known state, in the
/// order in which they are sent: reset the terminal attributes, enter the
/// alternate screen, enable bracketed paste, enable the mouse modes, enter the
/// extended keyboard mode.
pub open spec fn preamble_text() -> Seq<Seq<char>> {
    seq![
        "\u{1b}[?1l\u{1b}=\u{1b}[r\u{1b}[?1000l\u{1b}[?1002l\u{1b}[?1003l\u{1b}[?1005l\u{1b}[?1006l\u{1b}[?12l"@,
        "\u{1b}[?1049h"@,
        "\u{1b}[?2004h"@,
        "\u{1b}[?1000h\u{1b}[?1002h\u{1b}[?1015h\u{1b}[?1006h"@,
        "\u{1b}[>1u"@,
    ]
}

/// The views of a sequence of string slices, in order.
pub open spec fn text_views(texts: Seq<&'static str>) -> Seq<Seq<char>> {
    texts.map_values(|t: &'static str| t@)
}

/// The preamble that a freshly attached browser is sent before anything else.
pub fn attach_preamble() -> (preamble: Vec<&'static str>)
    ensures
        text_views(preamble@) == preamble_text(),
{
    let mut preamble: Vec<&'static str> = Vec::new();
    preamble.push(
        "\u{1b}[?1l\u{1b}=\u{1b}[r\u{1b}[?1000l\u{1b}[?1002l\u{1b}[?1003l\u{1b}[?1005l\u{1b}[?1006l\u{1b}[?12l",
    );
    preamble.push("\u{1b}[?1049h");
    preamble.push("\u{1b}[?2004h");
    preamble.push("\u{1b}[?1000h\u{1b}[?1002h\u{1b}[?1015h\u{1b}[?1006h");
    preamble.push("\u{1b}[>1u");
    assert(text_views(preamble@) == preamble_text());
    preamble
}

/// The size of a terminal, in cells.
#[derive(Clone, Copy, Debug, PartialEq, Eq, Structural)]
pub struct Size {
    pub rows: usize,
    pub cols: usize,
}

/// How the client wants to be drawn: its palette and two flags of the user
/// interface.
#[derive(Debug, PartialEq, Eq)]
pub struct Style<P> {
    pub colors: P,
    pub rounded_corners: bool,
    pub hide_session_name: bool,
}

/// What a client tells the server of itself on attach.
#[derive(Debug, PartialEq, Eq)]
pub struct ClientAttributes<P> {
    pub size: Size,
    pub style: Style<P>,
}

/// The first message that the server is sent: the client's attributes, its
/// configuration and options, no tab and no pane to focus, and that the client
/// is a web client.
#[derive(Debug, PartialEq, Eq)]
pub struct AttachRequest<P, C, O> {
    pub attributes: ClientAttributes<P>,
    pub config: C,
    pub options: O,
    pub tab_position_to_focus: Option<usize>,
    pub pane_id_to_focus: Option<(u32, bool)>,
    pub is_web_client: bool,
}

/// The attach request of a web client. The palette is the one of the configured
/// theme, and the fallback where no theme is configured. Configuration and
/// options go along as they are; nothing is asked to be focused.
pub open spec fn attach_request_of<P, C, O>(
    size: Size,
    theme_palette: Option<P>,
    fallback_palette: P,
    rounded_corners: bool,
    hide_session_name: bool,
    config: C,
    options: O,
) -> AttachRequest<P, C, O> {
    AttachRequest {
        attributes: ClientAttributes {
            size,
            style: Style {
                colors: match theme_palette {
                    Some(palette) => palette,
                    None => fallback_palette,
                },
                rounded_corners,
                hide_session_name,
            },
        },
        config,
        options,
        tab_position_to_focus: None,
        pane_id_to_focus: None,
        is_web_client: true,
    }
}

/// Composes the attach request of a web client.
pub fn attach_request<P, C, O>(
    size: Size,
    theme_palette: Option<P>,
    fallback_palette: P,
    rounded_corners: bool,
    hide_session_name: bool,
    config: C,
    options: O,
) -> (request: AttachRequest<P, C, O>)
    ensures
        request == attach_request_of(
            size,
            theme_palette,
            fallback_palette,
            rounded_corners,
            hide_session_name,
            config,
            options,
        ),
{
    let colors = match theme_palette {
        Some(palette) => palette,
        None => fallback_palette,
    };
    AttachRequest {
        attributes: ClientAttributes {
            size,
            style: Style { colors, rounded_corners, hide_session_name },
        },
        config,
        options,
        tab_position_to_focus: None,
        pane_id_to_focus: None,
        is_web_client: true,
    }
}

/// The mode of the directory that holds the sessions' sockets: the owner's
/// alone.
pub const SOCKET_DIR_MODE: u32 = 0o700;

/// How a server listener starts: where it connects, what the browser gets
/// first, and what the server gets first.
#[derive(Debug, PartialEq, Eq)]
pub struct ListenerStart<P, C, O> {
    /// The session whose socket, in the socket directory, is connected to.
    pub session_name: String,
    /// The mode that the socket directory gets.
    pub socket_dir_mode: u32,
    /// The payloads for the browser, ahead of all that the server renders.
    pub preamble: Vec<&'static str>,
    /// The first message for the server.
    pub first_message: AttachRequest<P, C, O>,
}

/// Starts a server listener for a session: it connects to the socket of that
/// session, hands the preamble to the browser, and sends the attach request of
/// a web client first.
pub fn start_listener<P, C, O>(
    session_name: &str,
    size: Size,
    theme_palette: Option<P>,
    fallback_palette: P,
    rounded_corners: bool,
    hide_session_name: bool,
    config: C,
    options: O,
) -> (start: ListenerStart<P, C, O>)
    ensures
        start.session_name@ == session_name@,
        start.socket_dir_mode == SOCKET_DIR_MODE,
        text_views(start.preamble@) == preamble_text(),
        start.first_message == attach_request_of(
            size,
            theme_palette,
            fallback_palette,
            rounded_corners,
            hide_session_name,
            config,
            options,
        ),
{
    ListenerStart {
        session_name: session_name.to_owned(),
        socket_dir_mode: SOCKET_DIR_MODE,
        preamble: attach_preamble(),
        first_message: attach_request(
            size,
            theme_palette,
            fallback_palette,
            rounded_corners,
            hide_session_name,
            config,
            options,
        ),
    }
}

/// Why the server ends a client.
#[derive(Debug, PartialEq, Eq)]
pub enum ExitReason {
    /// An error, with its text.
    Error(String),
    /// Any other reason.
    Other,
}

/// A message of the server, as far as the listener tells messages apart.
#[derive(Debug, PartialEq, Eq)]
pub enum ServerEvent {
    /// Rendered terminal bytes for the browser.
    Render(String),
    /// The server ends the client.
    Exit(ExitReason),
    /// Any other message.
    Other,
}

/// What the listener does on one message of the server.
#[derive(Debug, PartialEq, Eq)]
pub enum ListenerStep {
    /// Hand the bytes to the render pump, and go on.
    Render(String),
    /// Report the text, if there is one, send the farewell to the server, and
    /// stop.
    Exit { report: Option<String>, farewell: ClientMessage },
    /// Do nothing, and go on.
    Ignore,
    /// Stop, and send nothing: the server has shut the connection down.
    Stop,
}

/// Whether a step is the right one for an event. Rendered bytes are passed on as
/// they came. An exit ends the listener with one `ClientExited` for the server;
/// the text of an error is reported, and nothing is reported of another reason.
/// Any other message is ignored.
pub open spec fn is_listener_step(event: ServerEvent, step: ListenerStep) -> bool {
    match event {
        ServerEvent::Render(bytes) => {
            &&& step matches ListenerStep::Render(passed)
            &&& passed == bytes
        },
        ServerEvent::Exit(ExitReason::Error(text)) => {
            &&& step matches ListenerStep::Exit { report, farewell }
            &&& report == Some(text)
            &&& farewell@ == ClientMessageView::ClientExited
        },
        ServerEvent::Exit(ExitReason::Other) => {
            &&& step matches ListenerStep::Exit { report, farewell }
            &&& report is None
            &&& farewell@ == ClientMessageView::ClientExited
        },
        ServerEvent::Other => step is Ignore,
    }
}

/// Decides what the listener does on one message of the server.
pub fn on_server_event(event: ServerEvent) -> (step: ListenerStep)
    ensures
        is_listener_step(event, step),
{
    match event {
        ServerEvent::Render(bytes) => ListenerStep::Render(bytes),
        ServerEvent::Exit(reason) => {
            let report = match reason {
                ExitReason::Error(text) => Some(text),
                ExitReason::Other => None,
            };
            ListenerStep::Exit { report, farewell: ClientMessage::ClientExited }
        },
        ServerEvent::Other => ListenerStep::Ignore,
    }
}

/// Decides what the listener does on what it received: the step for a message,
/// and a stop where the server has shut the connection down.
pub fn on_received(received: Option<ServerEvent>) -> (step: ListenerStep)
    ensures
        match received {
            Some(event) => is_listener_step(event, step),
            None => step is Stop,
        },
{
    match received {
        Some(event) => on_server_event(event),
        None => ListenerStep::Stop,
    }
}

/// What the messages of the server hand to the render pump as long as the
/// listener runs: the bytes of each `Render` that comes before the first
/// `Exit`, in order.
pub open spec fn rendered(events: Seq<ServerEvent>) -> Seq<Seq<char>>
    decreases events.len(),
{
    if events.len() == 0 {
        Seq::empty()
    } else {
        match events.first() {
            ServerEvent::Render(bytes) => seq![bytes@] + rendered(events.drop_first()),
            ServerEvent::Exit(_) => Seq::empty(),
            ServerEvent::Other => rendered(events.drop_first()),
        }
    }
}

/// All that a terminal channel hands to the render pump: the preamble, then what
/// the server renders.
pub open spec fn browser_payloads(events: Seq<ServerEvent>) -> Seq<Seq<char>> {
    preamble_text() + rendered(events)
}

/// Whatever the server sends, the first five payloads for the browser are the
/// five of the preamble, in order; what the server renders comes after them.
pub proof fn lemma_preamble_comes_first(events: Seq<ServerEvent>)
    ensures
        browser_payloads(events).len() >= 5,
        browser_payloads(events).subrange(0, 5) == preamble_text(),
        browser_payloads(events).subrange(5, browser_payloads(events).len() as int) == rendered(
            events,
        ),
{
    assert(preamble_text().len() == 5);
}

impl ServerEvent {
    /// A copy of the event.
    pub fn duplicate(&self) -> (copy: ServerEvent)
        ensures
            copy == *self,
    {
        match self {
            ServerEvent::Render(bytes) => ServerEvent::Render(bytes.clone()),
            ServerEvent::Exit(ExitReason::Error(text)) => ServerEvent::Exit(
                ExitReason::Error(text.clone()),
            ),
            ServerEvent::Exit(ExitReason::Other) => ServerEvent::Exit(ExitReason::Other),
            ServerEvent::Other => ServerEvent::Other,
        }
    }
}

/// Whether the server ends the client at some point.
pub open spec fn exits(events: Seq<ServerEvent>) -> bool {
    exists|i: int| 0 <= i < events.len() && #[trigger] events[i] is Exit
}

/// A message that a listener sends to the server.
pub enum ListenerSend<P, C, O> {
    Attach(AttachRequest<P, C, O>),
    ClientExited,
}

/// All that a listener sends to the server while the server sends `events`: the
/// attach request, and one `ClientExited` where the server ends the client.
pub open spec fn listener_sends<P, C, O>(
    request: AttachRequest<P, C, O>,
    events: Seq<ServerEvent>,
) -> Seq<ListenerSend<P, C, O>> {
    if exits(events) {
        seq![ListenerSend::Attach(request), ListenerSend::ClientExited]
    } else {
        seq![ListenerSend::Attach(request)]
    }
}

/// Whatever the server sends, the first message that it is sent is the attach
/// request: that of a web client, with the configuration and the options that
/// the listener was started with and with nothing to focus. No other message
/// comes before it, and the only one that can follow is a `ClientExited`.
pub proof fn lemma_attach_is_sent_first<P, C, O>(
    size: Size,
    theme_palette: Option<P>,
    fallback_palette: P,
    rounded_corners: bool,
    hide_session_name: bool,
    config: C,
    options: O,
    events: Seq<ServerEvent>,
)
    ensures
        ({
            let request = attach_request_of(
                size,
                theme_palette,
                fallback_palette,
                rounded_corners,
                hide_session_name,
                config,
                options,
            );
            let sends = listener_sends(request, events);
            &&& sends.len() >= 1
            &&& sends[0] matches ListenerSend::Attach(first)
            &&& first.is_web_client
            &&& first.config == config
            &&& first.options == options
            &&& first.tab_position_to_focus is None
            &&& first.pane_id_to_focus is None
            &&& forall|i: int| 1 <= i < sends.len() ==> #[trigger] sends[i] is ClientExited
        }),
{
}

/// What a replayed listener did: the payloads that it handed to the render
/// pump, and the farewell that it sent to the server, if it sent one.
#[derive(Debug, PartialEq, Eq)]
pub struct ListenerRun {
    pub payloads: Vec<String>,
    pub farewell: Option<ClientMessage>,
}

/// Replays a listener over the messages that a server sent: all the payloads
/// that the render pump is handed, from the attach on, in order; and the one
/// farewell where the server ended the client.
pub fn replay_listener(events: &Vec<ServerEvent>) -> (run: ListenerRun)
    ensures
        string_views(run.payloads@) == browser_payloads(events@),
        match run.farewell {
            Some(message) => exits(events@) && message@ == ClientMessageView::ClientExited,
            None => !exits(events@),
        },
{
    let preamble = attach_preamble();
    let mut payloads: Vec<String> = Vec::new();
    let mut k: usize = 0;
    while k < preamble.len()
        invariant
            k <= preamble@.len(),
            text_views(preamble@) == preamble_text(),
            string_views(payloads@) == preamble_text().subrange(0, k as int),
        decreases preamble@.len() - k,
    {
        let ghost before = payloads@;
        let text = preamble[k].to_owned();
        payloads.push(text);
        proof {
            assert(text_views(preamble@)[k as int] == preamble@[k as int]@);
            assert(string_views(payloads@) == string_views(before).push(text@));
        }
        k = k + 1;
    }
    assert(preamble@.len() == text_views(preamble@).len());
    assert(preamble_text().subrange(0, k as int) == preamble_text());
    let mut i: usize = 0;
    assert(events@.skip(0) == events@);
    while i < events.len()
        invariant
            i <= events@.len(),
            browser_payloads(events@) == string_views(payloads@) + rendered(events@.skip(i as int)),
            forall|j: int| 0 <= j < i ==> !(#[trigger] events@[j] is Exit),
        decreases events@.len() - i,
    {
        let ghost before = payloads@;
        let ghost rest = events@.skip(i as int);
        proof {
            assert(rest.first() == events@[i as int]);
            assert(rest.drop_first() == events@.skip(i + 1));
        }
        match on_server_event(events[i].duplicate()) {
            ListenerStep::Render(bytes) => {
                payloads.push(bytes);
                assert(string_views(payloads@) == string_views(before).push(bytes@));
                assert(string_views(before) + (seq![bytes@] + rendered(rest.drop_first()))
                    == string_views(before).push(bytes@) + rendered(rest.drop_first()));
            },
            ListenerStep::Exit { report, farewell } => {
                assert(string_views(payloads@) + Seq::<Seq<char>>::empty() == string_views(
                    payloads@,
                ));
                assert(events@[i as int] is Exit);
                return ListenerRun { payloads, farewell: Some(farewell) };
            },
            ListenerStep::Ignore => {},
            ListenerStep::Stop => {},
        }
        i = i + 1;
    }
    assert(events@.skip(i as int) == Seq::<ServerEvent>::empty());
    assert(string_views(payloads@) + Seq::<Seq<char>>::empty() == string_views(payloads@));
    ListenerRun { payloads, farewell: None }
}

/// The preamble reaches the browser first: where the pump writes every frame,
/// the first five frames that the browser gets carry the five payloads of the
/// preamble, in order and addressed to the channel's web client, ahead of all
/// that the server renders.
pub proof fn lemma_preamble_reaches_browser_first(
    web_client_id: Seq<char>,
    events: Seq<ServerEvent>,
    deliveries: Seq<Delivery>,
)
    requires
        deliveries.len() >= browser_payloads(events).len(),
        forall|i: int| 0 <= i < deliveries.len() ==> #[trigger] deliveries[i] is Sent,
    ensures
        ({
            let frames = pumped(web_client_id, browser_payloads(events), deliveries);
            &&& frames.len() == browser_payloads(events).len()
            &&& frames.len() >= 5
            &&& forall|i: int|
                0 <= i < 5 ==> #[trigger] frames[i] == (web_client_id, preamble_text()[i])
            &&& forall|i: int|
                5 <= i < frames.len() ==> #[trigger] frames[i] == (
                    web_client_id,
                    rendered(events)[i - 5],
                )
        }),
{
    crate::frames::lemma_pump_keeps_order(web_client_id, browser_payloads(events), deliveries);
    lemma_preamble_comes_first(events);
    assert(preamble_text().len() == 5);
}

} // verus!
