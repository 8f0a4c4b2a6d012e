use web_gateway::control::{route_control_frame, ControlRoute};
use web_gateway::frames::{
    pump_continues, ControlMessage, Delivery, Dropped, Inbound, RenderedBytes, StdinMessage,
};
use web_gateway::keys::{BareKey, KeyWithModifier};
use web_gateway::messages::ClientMessage;
use web_gateway::registry::ConnectionTable;
use web_gateway::terminal::{
    address_stdin_frame, disable_extended_keyboard, resolve_session_name, StdinAddress,
    StdinRoute, TerminalChannel,
};

fn stdin(id: &str, text: &str) -> Inbound<StdinMessage> {
    Inbound::Frame(StdinMessage { web_client_id: id.to_string(), stdin: text.to_string() })
}

fn control(id: &str, message: u8) -> Inbound<ControlMessage<u8>> {
    Inbound::Frame(ControlMessage { web_client_id: id.to_string(), message })
}

fn unknown(id: &str) -> Dropped {
    Dropped::UnknownIdentifier { web_client_id: id.to_string() }
}

#[test]
fn rendered_bytes_keeps_both_fields() {
    let frame = RenderedBytes::new(String::from("\u{1b}[2Jhello"), "id-1");
    assert_eq!(frame.bytes, "\u{1b}[2Jhello");
    assert_eq!(frame.web_client_id, "id-1");
}

#[test]
fn pump_ends_only_when_a_send_fails() {
    assert!(pump_continues(Delivery::Sent));
    assert!(pump_continues(Delivery::NotSerialized));
    assert!(!pump_continues(Delivery::SendFailed));
}

#[test]
fn extended_keyboard_is_disabled_only_by_an_explicit_false() {
    assert!(disable_extended_keyboard(Some(false)));
    assert!(!disable_extended_keyboard(Some(true)));
    assert!(!disable_extended_keyboard(None));
}

#[test]
fn session_name_comes_from_the_path_or_the_default() {
    assert_eq!(resolve_session_name(Some(String::from("demo")), "main"), "demo");
    assert_eq!(resolve_session_name(None, "main"), "main");
    assert_eq!(resolve_session_name(Some(String::new()), "main"), "");
}

#[test]
fn control_frame_goes_to_the_addressed_handle() {
    let mut table: ConnectionTable<&str> = ConnectionTable::new();
    table.insert(String::from("X"), "handle of X");
    table.insert(String::from("Y"), "handle of Y");
    assert_eq!(
        route_control_frame(&table, control("Y", 7)),
        ControlRoute::Forward { handle: &"handle of Y", message: 7 }
    );
    assert_eq!(
        route_control_frame(&table, control("X", 8)),
        ControlRoute::Forward { handle: &"handle of X", message: 8 }
    );
}

#[test]
fn control_frame_with_unknown_identifier_is_dropped() {
    let mut table: ConnectionTable<&str> = ConnectionTable::new();
    table.insert(String::from("X"), "handle of X");
    assert_eq!(route_control_frame(&table, control("Z", 7)), ControlRoute::Drop(unknown("Z")));
    assert_eq!(route_control_frame(&table, control("", 7)), ControlRoute::Drop(unknown("")));
    assert_eq!(route_control_frame(&table, control("x", 7)), ControlRoute::Drop(unknown("x")));
}

#[test]
fn control_frame_that_is_unreadable_or_not_text_is_dropped() {
    let mut table: ConnectionTable<&str> = ConnectionTable::new();
    table.insert(String::from("X"), "handle of X");
    let malformed: Inbound<ControlMessage<u8>> = Inbound::Malformed;
    let not_text: Inbound<ControlMessage<u8>> = Inbound::NotText;
    assert_eq!(route_control_frame(&table, malformed), ControlRoute::Drop(Dropped::ParseError));
    assert_eq!(route_control_frame(&table, not_text), ControlRoute::Drop(Dropped::Unsupported));
}

#[test]
fn stdin_frame_is_decoded_and_routed_once() {
    let mut table: ConnectionTable<&str> = ConnectionTable::new();
    let mut channel = TerminalChannel::open_as(&mut table, String::from("X"), "handle of X", Some(false));
    assert_eq!(channel.web_client_id(), "X");
    assert_eq!(table.get("X"), Some(&"handle of X"));
    let route = channel.on_frame(&table, stdin("X", "a"));
    assert_eq!(
        route,
        StdinRoute::Forward {
            handle: &"handle of X",
            messages: vec![ClientMessage::Key {
                key: KeyWithModifier::new(BareKey::Char('a')),
                raw: vec![0x61],
                from_extended: false,
            }],
        }
    );
}

#[test]
fn stdin_frame_is_addressed_before_it_is_decoded() {
    let mut table: ConnectionTable<&str> = ConnectionTable::new();
    let mut channel = TerminalChannel::open_as(&mut table, String::from("X"), "handle of X", None);
    assert_eq!(
        address_stdin_frame(&table, stdin("X", "ab")),
        StdinAddress::Deliver { handle: &"handle of X", stdin: String::from("ab") }
    );
    assert_eq!(address_stdin_frame(&table, stdin("Z", "ab")), StdinAddress::Drop(unknown("Z")));
    assert_eq!(
        address_stdin_frame(&table, Inbound::Malformed),
        StdinAddress::Drop(Dropped::ParseError)
    );
    assert_eq!(
        address_stdin_frame(&table, Inbound::NotText),
        StdinAddress::Drop(Dropped::Unsupported)
    );
    let decoded = channel.decode("ab");
    let routed = match channel.on_frame(&table, stdin("X", "ab")) {
        StdinRoute::Forward { messages, .. } => messages,
        StdinRoute::Drop(reason) => panic!("dropped: {:?}", reason),
    };
    assert_eq!(decoded, routed);
    assert_eq!(decoded.len(), 2);
}

#[test]
fn stdin_frames_keep_their_order() {
    let mut table: ConnectionTable<&str> = ConnectionTable::new();
    let mut channel = TerminalChannel::open_as(&mut table, String::from("X"), "handle of X", None);
    let mut sent: Vec<ClientMessage> = Vec::new();
    for text in ["a", "\u{1b}[98u", "c"] {
        match channel.on_frame(&table, stdin("X", text)) {
            StdinRoute::Forward { handle, messages } => {
                assert_eq!(handle, &"handle of X");
                sent.extend(messages);
            }
            StdinRoute::Drop(reason) => panic!("dropped: {:?}", reason),
        }
    }
    assert_eq!(
        sent,
        vec![
            ClientMessage::Key {
                key: KeyWithModifier::new(BareKey::Char('a')),
                raw: b"a".to_vec(),
                from_extended: false,
            },
            ClientMessage::Key {
                key: KeyWithModifier::new(BareKey::Char('b')),
                raw: b"\x1b[98u".to_vec(),
                from_extended: true,
            },
            ClientMessage::Key {
                key: KeyWithModifier::new(BareKey::Char('c')),
                raw: b"c".to_vec(),
                from_extended: false,
            },
        ]
    );
}

#[test]
fn stdin_frame_for_another_channel_uses_that_channels_handle() {
    let mut table: ConnectionTable<&str> = ConnectionTable::new();
    let mut first = TerminalChannel::open_as(&mut table, String::from("X"), "handle of X", None);
    let _second = TerminalChannel::open_as(&mut table, String::from("Y"), "handle of Y", None);
    match first.on_frame(&table, stdin("Y", "a")) {
        StdinRoute::Forward { handle, messages } => {
            assert_eq!(handle, &"handle of Y");
            assert_eq!(messages.len(), 1);
        }
        StdinRoute::Drop(reason) => panic!("dropped: {:?}", reason),
    }
}

#[test]
fn stdin_frame_with_unknown_identifier_sends_nothing() {
    let mut table: ConnectionTable<&str> = ConnectionTable::new();
    let mut channel = TerminalChannel::open_as(&mut table, String::from("X"), "handle of X", None);
    assert_eq!(channel.on_frame(&table, stdin("Z", "a")), StdinRoute::Drop(unknown("Z")));
    assert_eq!(
        channel.on_frame(&table, stdin("Z", "\u{1b}[<0;10;20M")),
        StdinRoute::Drop(unknown("Z"))
    );
    match channel.on_frame(&table, stdin("X", "\u{1b}[<0;10;20M")) {
        StdinRoute::Forward { messages, .. } => match &messages[0] {
            ClientMessage::MouseAction(event) => {
                assert_eq!(event.event_type, web_gateway::mouse::MouseEventType::Press)
            }
            other => panic!("not a mouse action: {:?}", other),
        },
        StdinRoute::Drop(reason) => panic!("dropped: {:?}", reason),
    }
}

#[test]
fn stdin_frame_that_is_unreadable_or_not_text_is_dropped() {
    let mut table: ConnectionTable<&str> = ConnectionTable::new();
    let mut channel = TerminalChannel::open_as(&mut table, String::from("X"), "handle of X", None);
    assert_eq!(channel.on_frame(&table, Inbound::Malformed), StdinRoute::Drop(Dropped::ParseError));
    assert_eq!(channel.on_frame(&table, Inbound::NotText), StdinRoute::Drop(Dropped::Unsupported));
}

#[test]
fn closing_sends_one_farewell_and_clears_the_entry() {
    let mut table: ConnectionTable<&str> = ConnectionTable::new();
    let channel = TerminalChannel::open_as(&mut table, String::from("X"), "handle of X", None);
    let _other = TerminalChannel::open_as(&mut table, String::from("Y"), "handle of Y", None);
    let closing = channel.close(&mut table);
    assert_eq!(closing.farewell, ClientMessage::ClientExited);
    assert_eq!(closing.handle, Some("handle of X"));
    assert!(!table.contains("X"));
    assert_eq!(table.get("Y"), Some(&"handle of Y"));
    assert_eq!(route_control_frame(&table, control("X", 1)), ControlRoute::Drop(unknown("X")));
    assert_eq!(
        route_control_frame(&table, control("Y", 1)),
        ControlRoute::Forward { handle: &"handle of Y", message: 1 }
    );
}

#[test]
fn closing_a_channel_whose_entry_is_gone_still_sends_the_farewell() {
    let mut table: ConnectionTable<&str> = ConnectionTable::new();
    let channel = TerminalChannel::open_as(&mut table, String::from("X"), "handle of X", None);
    assert_eq!(table.remove("X"), Some("handle of X"));
    let closing = channel.close(&mut table);
    assert_eq!(closing.farewell, ClientMessage::ClientExited);
    assert_eq!(closing.handle, None);
    assert!(!table.contains("X"));
}

#[test]
fn opened_channel_gets_a_canonical_identifier() {
    let mut table: ConnectionTable<u8> = ConnectionTable::new();
    let first = TerminalChannel::open(&mut table, 1, None);
    let second = TerminalChannel::open(&mut table, 2, None);
    for channel in [&first, &second] {
        let id = channel.web_client_id();
        assert_eq!(id.len(), 36);
        for (i, c) in id.chars().enumerate() {
            if i == 8 || i == 13 || i == 18 || i == 23 {
                assert_eq!(c, '-');
            } else {
                assert!(c.is_ascii_digit() || ('a'..='f').contains(&c));
            }
        }
    }
    assert_ne!(first.web_client_id(), second.web_client_id());
    assert_eq!(table.get(first.web_client_id()), Some(&1));
    assert_eq!(table.get(second.web_client_id()), Some(&2));
}
