use web_gateway::extended_keyboard::parse_extended_key;
use web_gateway::messages::ClientMessage;
use web_gateway::mouse::{MouseEvent, MouseEventType};
use web_gateway::stdin::{decode_events, parse_stdin};
use web_gateway::terminal_input::read_terminal_events;

/// A small deterministic generator of byte buffers that look like terminal
/// input: escape sequences, digits, separators and the odd arbitrary byte.
struct Buffers {
    state: u64,
}

impl Buffers {
    fn next_u32(&mut self) -> u32 {
        self.state = self.state.wrapping_mul(6364136223846793005).wrapping_add(1442695040888963407);
        (self.state >> 33) as u32
    }

    fn next_report(&mut self) -> String {
        let finals: &[u8] = b"uu~~ABCDFHPQSRZ";
        let mut text = String::from("\x1b[");
        if self.next_u32() % 4 != 0 {
            text.push_str(&format!("{}", self.next_u32() % 130));
        }
        if self.next_u32() % 2 == 0 {
            text.push_str(&format!(";{}", self.next_u32() % 18));
        }
        text.push(finals[self.next_u32() as usize % finals.len()] as char);
        text
    }

    fn next_buffer(&mut self) -> String {
        if self.next_u32() % 3 == 0 {
            return self.next_report();
        }
        let alphabet: Vec<char> =
            "\x1b\x1b[[[<;;0123456789uu~~ABCDFHPQSMmOZa\r\t\x7f\x00\x08é日😀\u{FFFD}".chars().collect();
        let len = (self.next_u32() % 12) as usize;
        let mut text = String::new();
        for _ in 0..len {
            let pick = self.next_u32();
            if pick % 16 == 0 {
                text.push(char::from_u32((pick >> 8) % 0x3000).unwrap_or('?'));
            } else if pick % 16 == 1 {
                text.push_str(if pick % 32 == 1 { "\x1b[200~" } else { "\x1b[201~" });
            } else {
                text.push(alphabet[(pick >> 8) as usize % alphabet.len()]);
            }
        }
        text
    }
}

#[test]
fn same_bytes_give_the_same_events() {
    let mut buffers = Buffers { state: 1 };
    for _ in 0..800 {
        let buf = buffers.next_buffer();
        assert_eq!(read_terminal_events(&buf), read_terminal_events(&buf));
    }
}

#[test]
fn decoder_is_the_extended_key_or_the_legacy_events() {
    let mut buffers = Buffers { state: 2 };
    let mut extended = 0;
    for _ in 0..800 {
        let buf = buffers.next_buffer();
        let mut carry = MouseEvent::new();
        let messages = parse_stdin(&buf, &mut carry, false);
        match parse_extended_key(buf.as_bytes()) {
            Some(key) => {
                extended += 1;
                assert_eq!(
                    messages,
                    vec![ClientMessage::Key { key, raw: buf.clone().into_bytes(), from_extended: true }]
                );
                assert_eq!(carry, MouseEvent::new());
            }
            None => {
                let mut expected_carry = MouseEvent::new();
                let expected = decode_events(&read_terminal_events(&buf), buf.as_bytes(), &mut expected_carry);
                assert_eq!(messages, expected);
                assert_eq!(carry, expected_carry);
            }
        }
        let mut carry = MouseEvent::new();
        let legacy = parse_stdin(&buf, &mut carry, true);
        let mut expected_carry = MouseEvent::new();
        let expected = decode_events(&read_terminal_events(&buf), buf.as_bytes(), &mut expected_carry);
        assert_eq!(legacy, expected);
        assert_eq!(carry, expected_carry);
    }
    assert!(extended > 0);
}

#[test]
fn every_message_carries_the_whole_buffer() {
    let mut buffers = Buffers { state: 3 };
    for _ in 0..800 {
        let buf = buffers.next_buffer();
        let mut carry = MouseEvent::new();
        for message in parse_stdin(&buf, &mut carry, true) {
            match message {
                ClientMessage::Key { raw, from_extended, .. } => {
                    assert_eq!(raw, buf.as_bytes());
                    assert!(!from_extended);
                }
                ClientMessage::MouseAction(_) => {}
                ClientMessage::ClientExited => panic!("the decoder never says farewell"),
            }
        }
    }
}

#[test]
fn carried_mouse_event_is_the_last_mouse_action() {
    let mut buffers = Buffers { state: 4 };
    let mut carry = MouseEvent::new();
    let mut actions = 0;
    for _ in 0..800 {
        let mut buf = buffers.next_buffer();
        if buffers.next_u32() % 4 == 0 {
            let button = [0u32, 1, 2, 32, 33, 34, 35, 64, 65][buffers.next_u32() as usize % 9];
            let end = if buffers.next_u32() % 2 == 0 { 'M' } else { 'm' };
            let x = buffers.next_u32() % 200;
            let y = buffers.next_u32() % 60;
            buf = format!("\x1b[<{};{};{}{}", button, x, y, end);
        }
        let before = carry;
        let messages = parse_stdin(&buf, &mut carry, true);
        let mut last = before;
        for message in &messages {
            if let ClientMessage::MouseAction(event) = message {
                actions += 1;
                let held_before = last.left || last.right || last.middle;
                let held_now = event.left || event.right || event.middle;
                if event.event_type == MouseEventType::Motion && !event.wheel_up && !event.wheel_down {
                    assert_eq!(
                        (event.left, event.right, event.middle),
                        (last.left, last.right, last.middle)
                    );
                }
                if event.event_type == MouseEventType::Release {
                    assert!(held_before);
                }
                if !held_before && held_now {
                    assert_eq!(event.event_type, MouseEventType::Press);
                }
                last = *event;
            }
        }
        assert_eq!(carry, last);
    }
    assert!(actions > 50);
}
