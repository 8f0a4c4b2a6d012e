//! Terminal input in the legacy encodings, as the `termwiz` parser reads it, and
//! its translation to canonical keys.

use crate::keys::{BareKey, KeyModifiers, KeyWithModifier};
use crate::mouse::MouseReport;
use termwiz::input::{InputEvent, InputParser, KeyCode, Modifiers, MouseButtons};
use vstd::prelude::*;
use vstd::string::StringSliceAdditionalSpecFns;
use vstd::utf8::{encode_utf8_valid_utf8, valid_utf8};

verus! {

/// A key as the legacy parser names it.
#[derive(Clone, Copy, Debug, PartialEq, Eq, Structural)]
pub enum LegacyKey {
    Char(char),
    Function(u8),
    Backspace,
    Tab,
    Enter,
    Escape,
    Insert,
    Delete,
    Left,
    Right,
    Up,
    Down,
    ApplicationLeft,
    ApplicationRight,
    ApplicationUp,
    ApplicationDown,
    Home,
    End,
    PageUp,
    PageDown,
    /// Any key that has no name above.
    Other,
}

impl LegacyKey {
    /// Whether the key is a character, a function key or an editing key.
    pub open spec fn is_editing(self) -> bool {
        self is Char || self is Function || self is Backspace || self is Tab || self is Enter
            || self is Escape || self is Insert || self is Delete
    }

    /// Whether the key is an arrow, plain or in application mode.
    pub open spec fn is_arrow(self) -> bool {
        self is Left || self is Right || self is Up || self is Down || self is ApplicationLeft
            || self is ApplicationRight || self is ApplicationUp || self is ApplicationDown
    }

    /// Whether the key is `Home`, `End`, `PageUp` or `PageDown`.
    pub open spec fn is_paging(self) -> bool {
        self is Home || self is End || self is PageUp || self is PageDown
    }
}

/// A key press of the legacy parser: the key and the modifiers held.
#[derive(Clone, Copy, Debug, PartialEq, Eq, Structural)]
pub struct KeyPress {
    pub key: LegacyKey,
    pub shift: bool,
    pub alt: bool,
    pub ctrl: bool,
}

/// One event of the legacy parser, as plain values.
#[derive(Clone, Copy, Debug, PartialEq, Eq, Structural)]
pub enum TerminalEvent {
    Key(KeyPress),
    Mouse(MouseReport),
    /// A resize, a paste, a wake-up or a pixel mouse report.
    Other,
}

/// The modifiers held with a key press.
#[derive(Clone, Copy, Debug, PartialEq, Eq, Structural)]
pub struct HeldModifiers {
    pub shift: bool,
    pub alt: bool,
    pub ctrl: bool,
}

/// The mouse report of an event, where it is one.
pub open spec fn mouse_part(event: TerminalEvent) -> Option<MouseReport> {
    match event {
        TerminalEvent::Mouse(report) => Some(report),
        _ => None,
    }
}

/// The modifiers of an event, where it is a key press.
pub open spec fn modifiers_part(event: TerminalEvent) -> Option<HeldModifiers> {
    match event {
        TerminalEvent::Key(press) => Some(
            HeldModifiers { shift: press.shift, alt: press.alt, ctrl: press.ctrl },
        ),
        _ => None,
    }
}

/// The key of an event, where it is a press of a character, a function key or an
/// editing key.
pub open spec fn editing_part(event: TerminalEvent) -> Option<LegacyKey> {
    match event {
        TerminalEvent::Key(press) => if press.key.is_editing() {
            Some(press.key)
        } else {
            None
        },
        _ => None,
    }
}

/// The key of an event, where it is a press of an arrow.
pub open spec fn arrow_part(event: TerminalEvent) -> Option<LegacyKey> {
    match event {
        TerminalEvent::Key(press) => if press.key.is_arrow() {
            Some(press.key)
        } else {
            None
        },
        _ => None,
    }
}

/// The key of an event, where it is a press of `Home`, `End`, `PageUp` or
/// `PageDown`.
pub open spec fn paging_part(event: TerminalEvent) -> Option<LegacyKey> {
    match event {
        TerminalEvent::Key(press) => if press.key.is_paging() {
            Some(press.key)
        } else {
            None
        },
        _ => None,
    }
}

/// What the `termwiz` parser read from a buffer: its events, kept as the parser
/// made them.
#[verifier::external_body]
pub struct ParsedInput {
    events: Vec<InputEvent>,
}

/// The events that the legacy parser reads from the bytes of a text, as plain
/// values: what `termwiz::input::InputParser::parse_as_vec` returns on a fresh
/// parser that is told that no more input will come. A `Key` event is a key press with its
/// `SHIFT`, `ALT` and `CTRL`; a `Mouse` event is a mouse report; every other event
/// is `Other`.
pub uninterp spec fn legacy_events(buf: Seq<u8>) -> Seq<TerminalEvent>;

/// The events that a `ParsedInput` holds, as plain values.
pub uninterp spec fn events_of(parsed: ParsedInput) -> Seq<TerminalEvent>;

/// `termwiz::input::InputParser::parse_as_vec` on `InputParser::new()`, with
/// `maybe_more` false. The parser starts from the same state each time and
/// reads nothing but the bytes, so its events are named after them. The bytes
/// have to be UTF-8: the parser reads a bracketed paste as text, and on pasted
/// bytes that are no text it steps past the end of its buffer and panics.
#[verifier::external_body]
fn scan_input(buf: &[u8]) -> (parsed: ParsedInput)
    requires
        valid_utf8(buf@),
    ensures
        events_of(parsed) == legacy_events(buf@),
{
    ParsedInput { events: InputParser::new().parse_as_vec(buf, false) }
}

/// `Vec::len` of the parser's events: one plain event stands for each.
#[verifier::external_body]
fn event_count(parsed: &ParsedInput) -> (count: usize)
    ensures
        count == events_of(*parsed).len(),
{
    parsed.events.len()
}

/// Reads the event at `i` where it is `InputEvent::Mouse`: the cell as it
/// stands, and of each flag whether `contains` finds it in `mouse_buttons` or
/// `modifiers`.
#[verifier::external_body]
fn mouse_at(parsed: &ParsedInput, i: usize) -> (report: Option<MouseReport>)
    requires
        i < events_of(*parsed).len(),
    ensures
        report == mouse_part(events_of(*parsed)[i as int]),
{
    match &parsed.events[i] {
        InputEvent::Mouse(m) => Some(MouseReport {
            x: m.x,
            y: m.y,
            left: m.mouse_buttons.contains(MouseButtons::LEFT),
            right: m.mouse_buttons.contains(MouseButtons::RIGHT),
            middle: m.mouse_buttons.contains(MouseButtons::MIDDLE),
            vert_wheel: m.mouse_buttons.contains(MouseButtons::VERT_WHEEL),
            wheel_positive: m.mouse_buttons.contains(MouseButtons::WHEEL_POSITIVE),
            shift: m.modifiers.contains(Modifiers::SHIFT),
            alt: m.modifiers.contains(Modifiers::ALT),
            ctrl: m.modifiers.contains(Modifiers::CTRL),
        }),
        _ => None,
    }
}

/// Reads the event at `i` where it is `InputEvent::Key`: of `SHIFT`, `ALT` and
/// `CTRL` whether `Modifiers::contains` finds it in the event's `modifiers`.
#[verifier::external_body]
fn modifiers_at(parsed: &ParsedInput, i: usize) -> (held: Option<HeldModifiers>)
    requires
        i < events_of(*parsed).len(),
    ensures
        held == modifiers_part(events_of(*parsed)[i as int]),
{
    match &parsed.events[i] {
        InputEvent::Key(k) => Some(HeldModifiers {
            shift: k.modifiers.contains(Modifiers::SHIFT),
            alt: k.modifiers.contains(Modifiers::ALT),
            ctrl: k.modifiers.contains(Modifiers::CTRL),
        }),
        _ => None,
    }
}

/// Reads the `KeyCode` of the event at `i` where it is a `Key` event of one of
/// eight variants, each under its own name.
#[verifier::external_body]
fn editing_key_at(parsed: &ParsedInput, i: usize) -> (key: Option<LegacyKey>)
    requires
        i < events_of(*parsed).len(),
    ensures
        key == editing_part(events_of(*parsed)[i as int]),
{
    match &parsed.events[i] {
        InputEvent::Key(k) => match k.key {
            KeyCode::Char(c) => Some(LegacyKey::Char(c)),
            KeyCode::Function(n) => Some(LegacyKey::Function(n)),
            KeyCode::Backspace => Some(LegacyKey::Backspace),
            KeyCode::Tab => Some(LegacyKey::Tab),
            KeyCode::Enter => Some(LegacyKey::Enter),
            KeyCode::Escape => Some(LegacyKey::Escape),
            KeyCode::Insert => Some(LegacyKey::Insert),
            KeyCode::Delete => Some(LegacyKey::Delete),
            _ => None,
        },
        _ => None,
    }
}

/// Reads the `KeyCode` of the event at `i` where it is a `Key` event of one of
/// the eight arrow variants, each under its own name.
#[verifier::external_body]
fn arrow_key_at(parsed: &ParsedInput, i: usize) -> (key: Option<LegacyKey>)
    requires
        i < events_of(*parsed).len(),
    ensures
        key == arrow_part(events_of(*parsed)[i as int]),
{
    match &parsed.events[i] {
        InputEvent::Key(k) => match k.key {
            KeyCode::LeftArrow => Some(LegacyKey::Left),
            KeyCode::RightArrow => Some(LegacyKey::Right),
            KeyCode::UpArrow => Some(LegacyKey::Up),
            KeyCode::DownArrow => Some(LegacyKey::Down),
            KeyCode::ApplicationLeftArrow => Some(LegacyKey::ApplicationLeft),
            KeyCode::ApplicationRightArrow => Some(LegacyKey::ApplicationRight),
            KeyCode::ApplicationUpArrow => Some(LegacyKey::ApplicationUp),
            KeyCode::ApplicationDownArrow => Some(LegacyKey::ApplicationDown),
            _ => None,
        },
        _ => None,
    }
}

/// Reads the `KeyCode` of the event at `i` where it is a `Key` event of `Home`,
/// `End`, `PageUp` or `PageDown`, each under its own name.
#[verifier::external_body]
fn paging_key_at(parsed: &ParsedInput, i: usize) -> (key: Option<LegacyKey>)
    requires
        i < events_of(*parsed).len(),
    ensures
        key == paging_part(events_of(*parsed)[i as int]),
{
    match &parsed.events[i] {
        InputEvent::Key(k) => match k.key {
            KeyCode::Home => Some(LegacyKey::Home),
            KeyCode::End => Some(LegacyKey::End),
            KeyCode::PageUp => Some(LegacyKey::PageUp),
            KeyCode::PageDown => Some(LegacyKey::PageDown),
            _ => None,
        },
        _ => None,
    }
}

/// The event at `i`, put together from its parts.
fn event_at(parsed: &ParsedInput, i: usize) -> (event: TerminalEvent)
    requires
        i < events_of(*parsed).len(),
    ensures
        event == events_of(*parsed)[i as int],
{
    match modifiers_at(parsed, i) {
        Some(held) => {
            let key = match editing_key_at(parsed, i) {
                Some(key) => key,
                None => match arrow_key_at(parsed, i) {
                    Some(key) => key,
                    None => match paging_key_at(parsed, i) {
                        Some(key) => key,
                        None => LegacyKey::Other,
                    },
                },
            };
            TerminalEvent::Key(KeyPress { key, shift: held.shift, alt: held.alt, ctrl: held.ctrl })
        },
        None => match mouse_at(parsed, i) {
            Some(report) => TerminalEvent::Mouse(report),
            None => TerminalEvent::Other,
        },
    }
}

/// Reads terminal input with the legacy parser and hands its events out as
/// plain values, in order. The input is text, as a stdin frame carries it; the
/// parser gets its bytes.
pub fn read_terminal_events(stdin: &str) -> (events: Vec<TerminalEvent>)
    ensures
        events@ == legacy_events(stdin.spec_bytes()),
{
    proof {
        encode_utf8_valid_utf8(stdin@);
    }
    let parsed = scan_input(stdin.as_bytes());
    let count = event_count(&parsed);
    let mut events: Vec<TerminalEvent> = Vec::new();
    let mut i: usize = 0;
    while i < count
        invariant
            i <= count == events_of(parsed).len(),
            events@ == events_of(parsed).subrange(0, i as int),
        decreases count - i,
    {
        events.push(event_at(&parsed, i));
        i = i + 1;
    }
    assert(events_of(parsed).subrange(0, count as int) == events_of(parsed));
    events
}

/// The canonical key for a key of the legacy parser. A key with no canonical
/// name is reported as `Esc`.
pub open spec fn canonical_bare_key(key: LegacyKey) -> BareKey {
    match key {
        LegacyKey::Char(c) => BareKey::Char(c),
        LegacyKey::Function(n) => BareKey::F(n),
        LegacyKey::Backspace => BareKey::Backspace,
        LegacyKey::Tab => BareKey::Tab,
        LegacyKey::Enter => BareKey::Enter,
        LegacyKey::Escape => BareKey::Esc,
        LegacyKey::Insert => BareKey::Insert,
        LegacyKey::Delete => BareKey::Delete,
        LegacyKey::Left | LegacyKey::ApplicationLeft => BareKey::Left,
        LegacyKey::Right | LegacyKey::ApplicationRight => BareKey::Right,
        LegacyKey::Up | LegacyKey::ApplicationUp => BareKey::Up,
        LegacyKey::Down | LegacyKey::ApplicationDown => BareKey::Down,
        LegacyKey::Home => BareKey::Home,
        LegacyKey::End => BareKey::End,
        LegacyKey::PageUp => BareKey::PageUp,
        LegacyKey::PageDown => BareKey::PageDown,
        LegacyKey::Other => BareKey::Esc,
    }
}

/// The canonical form of a key press: the canonical key with the modifiers of
/// the press; a key with no canonical name carries none.
pub open spec fn canonical_key(press: KeyPress) -> KeyWithModifier {
    KeyWithModifier {
        bare_key: canonical_bare_key(press.key),
        modifiers: if press.key == LegacyKey::Other {
            KeyModifiers::spec_none()
        } else {
            KeyModifiers { shift: press.shift, alt: press.alt, ctrl: press.ctrl, super_key: false }
        },
    }
}

/// Translates a key press of the legacy parser to its canonical form.
pub fn translate_key(press: KeyPress) -> (key: KeyWithModifier)
    ensures
        key == canonical_key(press),
{
    let modifiers = KeyModifiers {
        shift: press.shift,
        alt: press.alt,
        ctrl: press.ctrl,
        super_key: false,
    };
    let bare_key = match press.key {
        LegacyKey::Char(c) => BareKey::Char(c),
        LegacyKey::Function(n) => BareKey::F(n),
        LegacyKey::Backspace => BareKey::Backspace,
        LegacyKey::Tab => BareKey::Tab,
        LegacyKey::Enter => BareKey::Enter,
        LegacyKey::Escape => BareKey::Esc,
        LegacyKey::Insert => BareKey::Insert,
        LegacyKey::Delete => BareKey::Delete,
        LegacyKey::Left | LegacyKey::ApplicationLeft => BareKey::Left,
        LegacyKey::Right | LegacyKey::ApplicationRight => BareKey::Right,
        LegacyKey::Up | LegacyKey::ApplicationUp => BareKey::Up,
        LegacyKey::Down | LegacyKey::ApplicationDown => BareKey::Down,
        LegacyKey::Home => BareKey::Home,
        LegacyKey::End => BareKey::End,
        LegacyKey::PageUp => BareKey::PageUp,
        LegacyKey::PageDown => BareKey::PageDown,
        LegacyKey::Other => {
            return KeyWithModifier::new(BareKey::Esc);
        },
    };
    KeyWithModifier::new_with_modifiers(bare_key, modifiers)
}

} // verus!
