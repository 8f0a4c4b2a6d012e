//! The canonical representation of a key press.

use vstd::prelude::*;

verus! {

/// A key without its modifiers.
#[derive(Clone, Copy, Debug, PartialEq, Eq, Structural)]
pub enum BareKey {
    PageDown,
    PageUp,
    Left,
    Down,
    Up,
    Right,
    Home,
    End,
    Backspace,
    Delete,
    Insert,
    F(u8),
    Char(char),
    Tab,
    Esc,
    Enter,
    CapsLock,
    ScrollLock,
    NumLock,
    PrintScreen,
    Pause,
    Menu,
}

/// The set of modifiers held with a key, one flag for each.
#[derive(Clone, Copy, Debug, PartialEq, Eq, Structural)]
pub struct KeyModifiers {
    pub shift: bool,
    pub alt: bool,
    pub ctrl: bool,
    pub super_key: bool,
}

impl KeyModifiers {
    /// The empty set.
    pub open spec fn spec_none() -> KeyModifiers {
        KeyModifiers { shift: false, alt: false, ctrl: false, super_key: false }
    }

    /// The empty set.
    #[verifier::when_used_as_spec(spec_none)]
    pub fn none() -> (m: KeyModifiers)
        ensures
            m == Self::spec_none(),
    {
        KeyModifiers { shift: false, alt: false, ctrl: false, super_key: false }
    }
}

/// A key together with the modifiers held while it was pressed.
#[derive(Clone, Copy, Debug, PartialEq, Eq, Structural)]
pub struct KeyWithModifier {
    pub bare_key: BareKey,
    pub modifiers: KeyModifiers,
}

impl KeyWithModifier {
    /// The key with no modifier.
    pub open spec fn spec_new(bare_key: BareKey) -> KeyWithModifier {
        KeyWithModifier { bare_key, modifiers: KeyModifiers::spec_none() }
    }

    /// The key with no modifier.
    #[verifier::when_used_as_spec(spec_new)]
    pub fn new(bare_key: BareKey) -> (key: KeyWithModifier)
        ensures
            key == Self::spec_new(bare_key),
    {
        KeyWithModifier { bare_key, modifiers: KeyModifiers::none() }
    }

    /// The key with the given modifiers.
    pub open spec fn spec_new_with_modifiers(
        bare_key: BareKey,
        modifiers: KeyModifiers,
    ) -> KeyWithModifier {
        KeyWithModifier { bare_key, modifiers }
    }

    /// The key with the given modifiers.
    #[verifier::when_used_as_spec(spec_new_with_modifiers)]
    pub fn new_with_modifiers(bare_key: BareKey, modifiers: KeyModifiers) -> (key: KeyWithModifier)
        ensures
            key == Self::spec_new_with_modifiers(bare_key, modifiers),
    {
        KeyWithModifier { bare_key, modifiers }
    }
}

} // verus!
