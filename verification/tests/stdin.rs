use web_gateway::keys::{BareKey, KeyModifiers, KeyWithModifier};
use web_gateway::messages::ClientMessage;
use web_gateway::mouse::{MouseEvent, MouseEventType, MouseReport, Position};
use web_gateway::stdin::{decode_events, parse_stdin};
use web_gateway::terminal_input::{
    read_terminal_events, translate_key, KeyPress, LegacyKey, TerminalEvent,
};

fn key(bare_key: BareKey, raw: &[u8], from_extended: bool) -> ClientMessage {
    ClientMessage::Key { key: KeyWithModifier::new(bare_key), raw: raw.to_vec(), from_extended }
}

fn press(key: LegacyKey) -> KeyPress {
    KeyPress { key, shift: false, alt: false, ctrl: false }
}

#[test]
fn plain_letter_with_extended_keyboard_disabled() {
    let mut carry = MouseEvent::new();
    let messages = parse_stdin("a", &mut carry, true);
    assert_eq!(messages, vec![key(BareKey::Char('a'), &[0x61], false)]);
    assert_eq!(carry, MouseEvent::new());
}

#[test]
fn plain_letter_with_extended_keyboard_enabled_falls_to_legacy() {
    let mut carry = MouseEvent::new();
    let messages = parse_stdin("a", &mut carry, false);
    assert_eq!(messages, vec![key(BareKey::Char('a'), &[0x61], false)]);
}

#[test]
fn extended_report_is_preferred_when_enabled() {
    let mut carry = MouseEvent::new();
    let messages = parse_stdin("\x1b[97;5u", &mut carry, false);
    assert_eq!(
        messages,
        vec![ClientMessage::Key {
            key: KeyWithModifier::new_with_modifiers(BareKey::Char('a'), KeyModifiers { shift: false, alt: false, ctrl: true, super_key: false }),
            raw: b"\x1b[97;5u".to_vec(),
            from_extended: true,
        }]
    );
    assert_eq!(carry, MouseEvent::new());
}

#[test]
fn extended_report_is_not_tried_when_disabled() {
    let mut carry = MouseEvent::new();
    let messages = parse_stdin("\x1b[A", &mut carry, true);
    assert_eq!(messages, vec![key(BareKey::Up, b"\x1b[A", false)]);
    let messages = parse_stdin("\x1b[A", &mut carry, false);
    assert_eq!(messages, vec![key(BareKey::Up, b"\x1b[A", true)]);
}

#[test]
fn legacy_buffer_may_hold_several_keys() {
    let mut carry = MouseEvent::new();
    let messages = parse_stdin("ab", &mut carry, false);
    assert_eq!(
        messages,
        vec![key(BareKey::Char('a'), b"ab", false), key(BareKey::Char('b'), b"ab", false)]
    );
}

#[test]
fn legacy_control_and_alt_keys() {
    let mut carry = MouseEvent::new();
    let messages = parse_stdin("\x01", &mut carry, false);
    assert_eq!(
        messages,
        vec![ClientMessage::Key {
            key: KeyWithModifier::new_with_modifiers(BareKey::Char('a'), KeyModifiers { shift: false, alt: false, ctrl: true, super_key: false }),
            raw: vec![0x01],
            from_extended: false,
        }]
    );
    let messages = parse_stdin("\r", &mut carry, false);
    assert_eq!(messages, vec![key(BareKey::Enter, b"\r", false)]);
    let messages = parse_stdin("\t", &mut carry, false);
    assert_eq!(messages, vec![key(BareKey::Tab, b"\t", false)]);
    let messages = parse_stdin("\x1b", &mut carry, false);
    assert_eq!(messages, vec![key(BareKey::Esc, b"\x1b", false)]);
}

#[test]
fn empty_buffer_gives_nothing() {
    let mut carry = MouseEvent::new();
    assert_eq!(parse_stdin("", &mut carry, false), vec![]);
    assert_eq!(parse_stdin("", &mut carry, true), vec![]);
}

#[test]
fn mouse_press_drag_release_through_the_decoder() {
    let mut carry = MouseEvent::new();
    let messages = parse_stdin("\x1b[<0;10;20M", &mut carry, false);
    assert_eq!(messages.len(), 1);
    let ClientMessage::MouseAction(pressed) = messages[0] else {
        panic!("a press is a mouse action");
    };
    assert_eq!(pressed.event_type, MouseEventType::Press);
    assert!(pressed.left);
    assert_eq!(pressed.position, Position { line: 19, column: 9 });
    assert_eq!(carry, pressed);

    let messages = parse_stdin("\x1b[<32;11;20M", &mut carry, false);
    assert_eq!(messages.len(), 1);
    let ClientMessage::MouseAction(dragged) = messages[0] else {
        panic!("a drag is a mouse action");
    };
    assert_eq!(dragged.event_type, MouseEventType::Motion);
    assert!(dragged.left);
    assert_eq!(dragged.position, Position { line: 19, column: 10 });

    let messages = parse_stdin("\x1b[<0;11;20m", &mut carry, false);
    assert_eq!(messages.len(), 1);
    let ClientMessage::MouseAction(released) = messages[0] else {
        panic!("a release is a mouse action");
    };
    assert_eq!(released.event_type, MouseEventType::Release);
    assert!(!released.left && !released.right && !released.middle);
    assert_eq!(carry, released);
}

#[test]
fn mouse_wheel_through_the_decoder() {
    let mut carry = MouseEvent::new();
    let messages = parse_stdin("\x1b[<64;3;4M", &mut carry, true);
    assert_eq!(messages.len(), 1);
    let ClientMessage::MouseAction(event) = messages[0] else {
        panic!("a wheel turn is a mouse action");
    };
    assert_eq!(event.event_type, MouseEventType::Press);
    assert!(event.wheel_up != event.wheel_down);
    assert_eq!(event.position, Position { line: 3, column: 2 });
}

#[test]
fn terminal_events_are_read_as_plain_values() {
    assert_eq!(read_terminal_events(""), vec![]);
    assert_eq!(
        read_terminal_events("a"),
        vec![TerminalEvent::Key(press(LegacyKey::Char('a')))]
    );
    assert_eq!(
        read_terminal_events("\x1b[A"),
        vec![TerminalEvent::Key(press(LegacyKey::Up))]
    );
    assert_eq!(
        read_terminal_events("\x1bOA"),
        vec![TerminalEvent::Key(press(LegacyKey::ApplicationUp))]
    );
    assert_eq!(
        read_terminal_events("\x1b[3~"),
        vec![TerminalEvent::Key(press(LegacyKey::Delete))]
    );
    assert_eq!(
        read_terminal_events("\x1b[1;5C"),
        vec![TerminalEvent::Key(KeyPress { key: LegacyKey::Right, shift: false, alt: false, ctrl: true })]
    );
    assert_eq!(
        read_terminal_events("\x1b[Z"),
        vec![TerminalEvent::Key(KeyPress { key: LegacyKey::Tab, shift: true, alt: false, ctrl: false })]
    );
    assert_eq!(
        read_terminal_events("\x1bOP"),
        vec![TerminalEvent::Key(press(LegacyKey::Function(1)))]
    );
    assert_eq!(
        read_terminal_events("\x1b[<2;7;9M"),
        vec![TerminalEvent::Mouse(MouseReport {
            x: 7,
            y: 9,
            left: false,
            right: true,
            middle: false,
            vert_wheel: false,
            wheel_positive: false,
            shift: false,
            alt: false,
            ctrl: false,
        })]
    );
}

#[test]
fn paging_keys_are_read_under_their_names() {
    assert_eq!(
        read_terminal_events("\x1b[H"),
        vec![TerminalEvent::Key(press(LegacyKey::Home))]
    );
    assert_eq!(
        read_terminal_events("\x1b[F"),
        vec![TerminalEvent::Key(press(LegacyKey::End))]
    );
    assert_eq!(
        read_terminal_events("\x1b[5~"),
        vec![TerminalEvent::Key(press(LegacyKey::PageUp))]
    );
    assert_eq!(
        read_terminal_events("\x1b[6~"),
        vec![TerminalEvent::Key(press(LegacyKey::PageDown))]
    );
    assert_eq!(
        read_terminal_events("\x1b[2~"),
        vec![TerminalEvent::Key(press(LegacyKey::Insert))]
    );
}

#[test]
fn several_events_keep_the_order_of_the_bytes() {
    assert_eq!(
        read_terminal_events("a\x1b[<0;1;1Mb"),
        vec![
            TerminalEvent::Key(press(LegacyKey::Char('a'))),
            TerminalEvent::Mouse(MouseReport {
                x: 1,
                y: 1,
                left: true,
                right: false,
                middle: false,
                vert_wheel: false,
                wheel_positive: false,
                shift: false,
                alt: false,
                ctrl: false,
            }),
            TerminalEvent::Key(press(LegacyKey::Char('b'))),
        ]
    );
}

#[test]
fn pasted_text_is_no_key() {
    let events = read_terminal_events("\x1b[200~hello\x1b[201~");
    assert_eq!(events, vec![TerminalEvent::Other]);
    let mut carry = MouseEvent::new();
    assert_eq!(parse_stdin("\x1b[200~hello\x1b[201~", &mut carry, false), vec![]);
}

#[test]
fn pasted_text_may_hold_any_characters() {
    for pasted in ["", "é", "日本語", "\u{FFFD}", "a\u{10FFFF}b", "\x1b[A", "😀 and more"] {
        let text = format!("\x1b[200~{}\x1b[201~x", pasted);
        assert_eq!(
            read_terminal_events(&text),
            vec![TerminalEvent::Other, TerminalEvent::Key(press(LegacyKey::Char('x')))]
        );
    }
    assert_eq!(read_terminal_events("\x1b[200~never closed é"), vec![]);
}

#[test]
fn characters_of_several_bytes_are_keys() {
    assert_eq!(
        read_terminal_events("é日😀"),
        vec![
            TerminalEvent::Key(press(LegacyKey::Char('é'))),
            TerminalEvent::Key(press(LegacyKey::Char('日'))),
            TerminalEvent::Key(press(LegacyKey::Char('😀'))),
        ]
    );
    let mut carry = MouseEvent::new();
    assert_eq!(
        parse_stdin("é", &mut carry, false),
        vec![key(BareKey::Char('é'), "é".as_bytes(), false)]
    );
}

#[test]
fn translate_key_keeps_modifiers_and_merges_cursor_keys() {
    assert_eq!(translate_key(press(LegacyKey::Char('x'))), KeyWithModifier::new(BareKey::Char('x')));
    assert_eq!(translate_key(press(LegacyKey::Function(7))), KeyWithModifier::new(BareKey::F(7)));
    assert_eq!(translate_key(press(LegacyKey::Backspace)), KeyWithModifier::new(BareKey::Backspace));
    assert_eq!(translate_key(press(LegacyKey::Tab)), KeyWithModifier::new(BareKey::Tab));
    assert_eq!(translate_key(press(LegacyKey::Enter)), KeyWithModifier::new(BareKey::Enter));
    assert_eq!(translate_key(press(LegacyKey::Escape)), KeyWithModifier::new(BareKey::Esc));
    assert_eq!(translate_key(press(LegacyKey::Insert)), KeyWithModifier::new(BareKey::Insert));
    assert_eq!(translate_key(press(LegacyKey::Delete)), KeyWithModifier::new(BareKey::Delete));
    assert_eq!(translate_key(press(LegacyKey::Left)), KeyWithModifier::new(BareKey::Left));
    assert_eq!(translate_key(press(LegacyKey::ApplicationLeft)), KeyWithModifier::new(BareKey::Left));
    assert_eq!(translate_key(press(LegacyKey::Right)), KeyWithModifier::new(BareKey::Right));
    assert_eq!(translate_key(press(LegacyKey::ApplicationRight)), KeyWithModifier::new(BareKey::Right));
    assert_eq!(translate_key(press(LegacyKey::Up)), KeyWithModifier::new(BareKey::Up));
    assert_eq!(translate_key(press(LegacyKey::ApplicationUp)), KeyWithModifier::new(BareKey::Up));
    assert_eq!(translate_key(press(LegacyKey::Down)), KeyWithModifier::new(BareKey::Down));
    assert_eq!(translate_key(press(LegacyKey::ApplicationDown)), KeyWithModifier::new(BareKey::Down));
    assert_eq!(translate_key(press(LegacyKey::Home)), KeyWithModifier::new(BareKey::Home));
    assert_eq!(translate_key(press(LegacyKey::End)), KeyWithModifier::new(BareKey::End));
    assert_eq!(translate_key(press(LegacyKey::PageUp)), KeyWithModifier::new(BareKey::PageUp));
    assert_eq!(translate_key(press(LegacyKey::PageDown)), KeyWithModifier::new(BareKey::PageDown));
    assert_eq!(
        translate_key(KeyPress { key: LegacyKey::Char('x'), shift: true, alt: true, ctrl: false }),
        KeyWithModifier::new_with_modifiers(
            BareKey::Char('x'),
            KeyModifiers { shift: true, alt: true, ctrl: false, super_key: false }
        )
    );
    assert_eq!(
        translate_key(KeyPress { key: LegacyKey::Other, shift: true, alt: true, ctrl: true }),
        KeyWithModifier::new(BareKey::Esc)
    );
}

#[test]
fn decode_events_keeps_order_and_drops_other_events() {
    let report = MouseReport {
        x: 2,
        y: 3,
        left: true,
        right: false,
        middle: false,
        vert_wheel: false,
        wheel_positive: false,
        shift: false,
        alt: false,
        ctrl: false,
    };
    let events = vec![
        TerminalEvent::Key(press(LegacyKey::Char('a'))),
        TerminalEvent::Other,
        TerminalEvent::Mouse(report),
        TerminalEvent::Mouse(report),
        TerminalEvent::Key(press(LegacyKey::Enter)),
    ];
    let mut carry = MouseEvent::new();
    let messages = decode_events(&events, b"raw", &mut carry);
    assert_eq!(messages.len(), 4);
    assert_eq!(messages[0], key(BareKey::Char('a'), b"raw", false));
    let ClientMessage::MouseAction(first) = messages[1] else {
        panic!("the second message is the first mouse report");
    };
    assert_eq!(first.event_type, MouseEventType::Press);
    let ClientMessage::MouseAction(second) = messages[2] else {
        panic!("the third message is the second mouse report");
    };
    assert_eq!(second.event_type, MouseEventType::Motion);
    assert_eq!(messages[3], key(BareKey::Enter, b"raw", false));
    assert_eq!(carry, second);
    assert_eq!(decode_events(&vec![], b"raw", &mut carry), vec![]);
}
