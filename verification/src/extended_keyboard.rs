//! The extended keyboard protocol: a whole buffer read as one key report.
//!
//! A report is `ESC [` followed by an optional decimal number, an optional
//! `;` with decimal modifiers, and one final byte:
//!
//! * `ESC [ number u` names a key by its code point, or by a code of the
//!   protocol's functional block;
//! * `ESC [ number ~` names one of the editing and function keys;
//! * `ESC [ letter` and `ESC [ 1 ; modifiers letter` name the arrows, `Home`,
//!   `End`, `F1`, `F2` and `F4`.
//!
//! The modifiers are one more than a bit mask: 1 for `Shift`, 2 for `Alt`, 4 for
//! `Ctrl`, 8 for `Super`. Higher bits (lock keys and the like) are not kept.

use crate::keys::{BareKey, KeyModifiers, KeyWithModifier};
use vstd::prelude::*;

verus! {

/// Whether a byte is an ASCII decimal digit.
pub open spec fn is_digit(b: u8) -> bool {
    0x30 <= b <= 0x39
}

/// Whether every byte is an ASCII decimal digit.
pub open spec fn all_digits(s: Seq<u8>) -> bool {
    forall|i: int| 0 <= i < s.len() ==> is_digit(#[trigger] s[i])
}

/// The length of the run of digits that a sequence starts with.
pub open spec fn digit_run(s: Seq<u8>) -> nat
    decreases s.len(),
{
    if s.len() > 0 && is_digit(s[0]) {
        1 + digit_run(s.drop_first())
    } else {
        0
    }
}

/// The number that a sequence of digits writes in base ten; 0 for none.
pub open spec fn decimal_value(s: Seq<u8>) -> nat
    decreases s.len(),
{
    if s.len() == 0 {
        0
    } else {
        decimal_value(s.drop_last()) * 10 + (s.last() - 0x30) as nat
    }
}

/// Whether a number is a Unicode scalar value.
pub open spec fn is_scalar_value(code: nat) -> bool {
    code <= 0xD7FF || 0xE000 <= code <= 0x10FFFF
}

/// The key that `ESC [ code u` names.
pub open spec fn unicode_key(code: nat) -> Option<BareKey> {
    if code == 27 {
        Some(BareKey::Esc)
    } else if code == 13 || code == 57414 {
        Some(BareKey::Enter)
    } else if code == 9 {
        Some(BareKey::Tab)
    } else if code == 127 {
        Some(BareKey::Backspace)
    } else if code == 57358 {
        Some(BareKey::CapsLock)
    } else if code == 57359 {
        Some(BareKey::ScrollLock)
    } else if code == 57360 {
        Some(BareKey::NumLock)
    } else if code == 57361 {
        Some(BareKey::PrintScreen)
    } else if code == 57362 {
        Some(BareKey::Pause)
    } else if code == 57363 {
        Some(BareKey::Menu)
    } else if 57399 <= code <= 57408 {
        Some(BareKey::Char((code - 57399 + 0x30) as char))
    } else if code == 57409 {
        Some(BareKey::Char('.'))
    } else if code == 57410 {
        Some(BareKey::Char('/'))
    } else if code == 57411 {
        Some(BareKey::Char('*'))
    } else if code == 57412 {
        Some(BareKey::Char('-'))
    } else if code == 57413 {
        Some(BareKey::Char('+'))
    } else if code == 57415 {
        Some(BareKey::Char('='))
    } else if code == 57417 {
        Some(BareKey::Left)
    } else if code == 57418 {
        Some(BareKey::Right)
    } else if code == 57419 {
        Some(BareKey::Up)
    } else if code == 57420 {
        Some(BareKey::Down)
    } else if code == 57421 {
        Some(BareKey::PageUp)
    } else if code == 57422 {
        Some(BareKey::PageDown)
    } else if code == 57423 {
        Some(BareKey::Home)
    } else if code == 57424 {
        Some(BareKey::End)
    } else if code == 57425 {
        Some(BareKey::Insert)
    } else if code == 57426 {
        Some(BareKey::Delete)
    } else if 0xE000 <= code <= 0xF8FF {
        None
    } else if is_scalar_value(code) {
        Some(BareKey::Char(code as char))
    } else {
        None
    }
}

/// The key that `ESC [ code ~` names.
pub open spec fn tilde_key(code: nat) -> Option<BareKey> {
    if code == 2 {
        Some(BareKey::Insert)
    } else if code == 3 {
        Some(BareKey::Delete)
    } else if code == 5 {
        Some(BareKey::PageUp)
    } else if code == 6 {
        Some(BareKey::PageDown)
    } else if code == 7 {
        Some(BareKey::Home)
    } else if code == 8 {
        Some(BareKey::End)
    } else if 11 <= code <= 15 {
        Some(BareKey::F((code - 10) as u8))
    } else if 17 <= code <= 21 {
        Some(BareKey::F((code - 11) as u8))
    } else if 23 <= code <= 24 {
        Some(BareKey::F((code - 12) as u8))
    } else {
        None
    }
}

/// The key that the final letter of `ESC [ letter` names.
pub open spec fn letter_key(letter: u8) -> Option<BareKey> {
    if letter == 0x41 {
        Some(BareKey::Up)
    } else if letter == 0x42 {
        Some(BareKey::Down)
    } else if letter == 0x43 {
        Some(BareKey::Right)
    } else if letter == 0x44 {
        Some(BareKey::Left)
    } else if letter == 0x48 {
        Some(BareKey::Home)
    } else if letter == 0x46 {
        Some(BareKey::End)
    } else if letter == 0x50 {
        Some(BareKey::F(1))
    } else if letter == 0x51 {
        Some(BareKey::F(2))
    } else if letter == 0x53 {
        Some(BareKey::F(4))
    } else {
        None
    }
}

/// The modifiers that a bit mask stands for.
pub open spec fn modifier_flags(mask: nat) -> KeyModifiers {
    KeyModifiers {
        shift: mask % 2 == 1,
        alt: (mask / 2) % 2 == 1,
        ctrl: (mask / 4) % 2 == 1,
        super_key: (mask / 8) % 2 == 1,
    }
}

/// The modifiers of a report: none where the field is absent, else the flags of
/// the field's value less one. A value of 0 or above 256 is no report.
pub open spec fn report_modifiers(field: Option<Seq<u8>>) -> Option<KeyModifiers> {
    match field {
        None => Some(KeyModifiers::spec_none()),
        Some(digits) => {
            let value = decimal_value(digits);
            if 1 <= value <= 256 {
                Some(modifier_flags((value - 1) as nat))
            } else {
                None
            }
        },
    }
}

/// The key of a report with the given number field and final byte.
pub open spec fn report_key(number: Seq<u8>, final_byte: u8) -> Option<BareKey> {
    if final_byte == 0x75 {
        if number.len() > 0 {
            unicode_key(decimal_value(number))
        } else {
            None
        }
    } else if final_byte == 0x7e {
        if number.len() > 0 {
            tilde_key(decimal_value(number))
        } else {
            None
        }
    } else if number.len() == 0 || number == seq![0x31u8] {
        letter_key(final_byte)
    } else {
        None
    }
}

/// The key that a report's three fields name, if they name one.
pub open spec fn report_fields_key(
    number: Seq<u8>,
    modifiers: Option<Seq<u8>>,
    final_byte: u8,
) -> Option<KeyWithModifier> {
    match (report_key(number, final_byte), report_modifiers(modifiers)) {
        (Some(bare_key), Some(modifiers)) => Some(KeyWithModifier { bare_key, modifiers }),
        _ => None,
    }
}

/// The key that a whole buffer reports in the extended keyboard protocol, if the
/// buffer is one report.
pub open spec fn extended_key(buf: Seq<u8>) -> Option<KeyWithModifier> {
    if buf.len() < 3 || buf[0] != 0x1b || buf[1] != 0x5b {
        None
    } else {
        let params = buf.subrange(2, buf.len() - 1);
        let n = digit_run(params) as int;
        let number = params.subrange(0, n);
        let rest = params.subrange(n, params.len() as int);
        if rest.len() == 0 {
            report_fields_key(number, None, buf.last())
        } else if rest[0] == 0x3b && rest.len() >= 2 && all_digits(rest.subrange(1, rest.len() as int)) {
            report_fields_key(number, Some(rest.subrange(1, rest.len() as int)), buf.last())
        } else {
            None
        }
    }
}

/// The run of digits at the start of a sequence ends at the first byte that is
/// no digit.
pub proof fn lemma_digit_run_ends(s: Seq<u8>, n: int)
    requires
        0 <= n <= s.len(),
        forall|j: int| 0 <= j < n ==> is_digit(#[trigger] s[j]),
        n == s.len() || !is_digit(s[n]),
    ensures
        digit_run(s) == n,
    decreases n,
{
    if n > 0 {
        let t = s.drop_first();
        assert forall|j: int| 0 <= j < n - 1 implies is_digit(#[trigger] t[j]) by {
            assert(t[j] == s[j + 1]);
        }
        lemma_digit_run_ends(t, n - 1);
    }
}

/// More digits never write a smaller number.
pub proof fn lemma_decimal_value_grows(s: Seq<u8>, n: int)
    requires
        0 <= n <= s.len(),
        all_digits(s),
    ensures
        decimal_value(s.subrange(0, n)) <= decimal_value(s),
    decreases s.len() - n,
{
    if n == s.len() {
        assert(s.subrange(0, n) == s);
    } else {
        let t = s.drop_last();
        assert(t.subrange(0, n) == s.subrange(0, n));
        assert forall|j: int| 0 <= j < t.len() implies is_digit(#[trigger] t[j]) by {
            assert(t[j] == s[j]);
        }
        lemma_decimal_value_grows(t, n);
        assert(is_digit(s[s.len() - 1]));
    }
}

/// The result of reading a decimal field with a cap.
pub open spec fn capped_value(digits: Seq<u8>, cap: u32) -> Option<u32> {
    if decimal_value(digits) <= cap {
        Some(decimal_value(digits) as u32)
    } else {
        None
    }
}

/// Reads the digits `buf[from..to]` as a number in base ten, as long as it does
/// not pass `cap`.
fn read_decimal(buf: &[u8], from: usize, to: usize, cap: u32) -> (value: Option<u32>)
    requires
        from <= to <= buf@.len(),
        all_digits(buf@.subrange(from as int, to as int)),
        cap <= 400_000_000,
    ensures
        value == capped_value(buf@.subrange(from as int, to as int), cap),
{
    let ghost digits = buf@.subrange(from as int, to as int);
    let mut acc: u32 = 0;
    let mut i: usize = from;
    assert(digits.subrange(0, 0) == Seq::<u8>::empty());
    while i < to
        invariant
            from <= i <= to <= buf@.len(),
            digits == buf@.subrange(from as int, to as int),
            all_digits(digits),
            acc as nat == decimal_value(digits.subrange(0, i - from)),
            acc <= cap <= 400_000_000,
        decreases to - i,
    {
        let b = buf[i];
        proof {
            let prefix = digits.subrange(0, i - from + 1);
            assert(prefix.drop_last() == digits.subrange(0, i - from));
            assert(prefix.last() == digits[i - from]);
            assert(digits[i - from] == buf@[i as int]);
            assert(is_digit(digits[i - from]));
            assert(decimal_value(prefix) == acc * 10 + (b - 0x30));
        }
        let next: u32 = acc * 10 + (b - 0x30) as u32;
        if next > cap {
            proof {
                lemma_decimal_value_grows(digits, i - from + 1);
            }
            return None;
        }
        acc = next;
        i = i + 1;
    }
    assert(digits.subrange(0, to - from) == digits);
    Some(acc)
}

/// `char::from_u32` of std: the character with the given code, where the code is
/// a Unicode scalar value, and nothing where it is not.
#[verifier::external_body]
fn scalar_char(code: u32) -> (c: Option<char>)
    ensures
        c == (if is_scalar_value(code as nat) {
            Some(code as char)
        } else {
            None
        }),
{
    char::from_u32(code)
}

/// The key that `ESC [ code u` names.
pub fn unicode_key_of(code: u32) -> (key: Option<BareKey>)
    ensures
        key == unicode_key(code as nat),
{
    if code == 27 {
        Some(BareKey::Esc)
    } else if code == 13 || code == 57414 {
        Some(BareKey::Enter)
    } else if code == 9 {
        Some(BareKey::Tab)
    } else if code == 127 {
        Some(BareKey::Backspace)
    } else if code == 57358 {
        Some(BareKey::CapsLock)
    } else if code == 57359 {
        Some(BareKey::ScrollLock)
    } else if code == 57360 {
        Some(BareKey::NumLock)
    } else if code == 57361 {
        Some(BareKey::PrintScreen)
    } else if code == 57362 {
        Some(BareKey::Pause)
    } else if code == 57363 {
        Some(BareKey::Menu)
    } else if 57399 <= code && code <= 57408 {
        let digit: u8 = (code - 57399 + 0x30) as u8;
        Some(BareKey::Char(digit as char))
    } else if code == 57409 {
        Some(BareKey::Char('.'))
    } else if code == 57410 {
        Some(BareKey::Char('/'))
    } else if code == 57411 {
        Some(BareKey::Char('*'))
    } else if code == 57412 {
        Some(BareKey::Char('-'))
    } else if code == 57413 {
        Some(BareKey::Char('+'))
    } else if code == 57415 {
        Some(BareKey::Char('='))
    } else if code == 57417 {
        Some(BareKey::Left)
    } else if code == 57418 {
        Some(BareKey::Right)
    } else if code == 57419 {
        Some(BareKey::Up)
    } else if code == 57420 {
        Some(BareKey::Down)
    } else if code == 57421 {
        Some(BareKey::PageUp)
    } else if code == 57422 {
        Some(BareKey::PageDown)
    } else if code == 57423 {
        Some(BareKey::Home)
    } else if code == 57424 {
        Some(BareKey::End)
    } else if code == 57425 {
        Some(BareKey::Insert)
    } else if code == 57426 {
        Some(BareKey::Delete)
    } else if 0xE000 <= code && code <= 0xF8FF {
        None
    } else {
        match scalar_char(code) {
            Some(c) => Some(BareKey::Char(c)),
            None => None,
        }
    }
}

/// The key that `ESC [ code ~` names.
pub fn tilde_key_of(code: u32) -> (key: Option<BareKey>)
    ensures
        key == tilde_key(code as nat),
{
    if code == 2 {
        Some(BareKey::Insert)
    } else if code == 3 {
        Some(BareKey::Delete)
    } else if code == 5 {
        Some(BareKey::PageUp)
    } else if code == 6 {
        Some(BareKey::PageDown)
    } else if code == 7 {
        Some(BareKey::Home)
    } else if code == 8 {
        Some(BareKey::End)
    } else if 11 <= code && code <= 15 {
        Some(BareKey::F((code - 10) as u8))
    } else if 17 <= code && code <= 21 {
        Some(BareKey::F((code - 11) as u8))
    } else if 23 <= code && code <= 24 {
        Some(BareKey::F((code - 12) as u8))
    } else {
        None
    }
}

/// The key that the final letter of `ESC [ letter` names.
pub fn letter_key_of(letter: u8) -> (key: Option<BareKey>)
    ensures
        key == letter_key(letter),
{
    if letter == 0x41 {
        Some(BareKey::Up)
    } else if letter == 0x42 {
        Some(BareKey::Down)
    } else if letter == 0x43 {
        Some(BareKey::Right)
    } else if letter == 0x44 {
        Some(BareKey::Left)
    } else if letter == 0x48 {
        Some(BareKey::Home)
    } else if letter == 0x46 {
        Some(BareKey::End)
    } else if letter == 0x50 {
        Some(BareKey::F(1))
    } else if letter == 0x51 {
        Some(BareKey::F(2))
    } else if letter == 0x53 {
        Some(BareKey::F(4))
    } else {
        None
    }
}

/// The modifiers that a bit mask stands for.
pub fn modifier_flags_of(mask: u32) -> (modifiers: KeyModifiers)
    ensures
        modifiers == modifier_flags(mask as nat),
{
    KeyModifiers {
        shift: mask % 2 == 1,
        alt: (mask / 2) % 2 == 1,
        ctrl: (mask / 4) % 2 == 1,
        super_key: (mask / 8) % 2 == 1,
    }
}

/// Reads a whole buffer as one report of the extended keyboard protocol.
#[verifier::loop_isolation(false)]
pub fn parse_extended_key(buf: &[u8]) -> (key: Option<KeyWithModifier>)
    ensures
        key == extended_key(buf@),
{
    let len = buf.len();
    if len < 3 || buf[0] != 0x1b || buf[1] != 0x5b {
        return None;
    }
    let end: usize = len - 1;
    let final_byte = buf[end];
    let ghost params = buf@.subrange(2, end as int);
    // The number field: the digits that follow `ESC [`.
    let mut sep: usize = 2;
    while sep < end && 0x30 <= buf[sep] && buf[sep] <= 0x39
        invariant
            2 <= sep <= end,
            end == buf@.len() - 1,
            forall|j: int| 2 <= j < sep ==> is_digit(#[trigger] buf@[j]),
        decreases end - sep,
    {
        sep = sep + 1;
    }
    proof {
        assert forall|j: int| 0 <= j < sep - 2 implies is_digit(#[trigger] params[j]) by {
            assert(params[j] == buf@[j + 2]);
        }
        lemma_digit_run_ends(params, sep - 2);
        assert(params.subrange(0, sep - 2) == buf@.subrange(2, sep as int));
        assert(params.subrange(sep - 2, params.len() as int) == buf@.subrange(
            sep as int,
            end as int,
        ));
    }
    let ghost number = buf@.subrange(2, sep as int);
    let ghost rest = buf@.subrange(sep as int, end as int);
    assert(all_digits(number));
    // The modifiers field: what follows a `;`, all of it digits.
    let mut modifiers = KeyModifiers::none();
    let ghost field: Option<Seq<u8>> = None;
    if sep < end {
        if buf[sep] != 0x3b || sep + 1 == end {
            return None;
        }
        let mut i: usize = sep + 1;
        while i < end
            invariant
                sep + 1 <= i <= end,
                end == buf@.len() - 1,
                forall|j: int| sep + 1 <= j < i ==> is_digit(#[trigger] buf@[j]),
            decreases end - i,
        {
            if !(0x30 <= buf[i] && buf[i] <= 0x39) {
                proof {
                    let tail = rest.subrange(1, rest.len() as int);
                    assert(tail[i - sep - 1] == buf@[i as int]);
                }
                return None;
            }
            i = i + 1;
        }
        proof {
            let tail = rest.subrange(1, rest.len() as int);
            assert(tail == buf@.subrange(sep + 1, end as int));
            assert(all_digits(tail));
            field = Some(tail);
        }
        match read_decimal(buf, sep + 1, end, 256) {
            Some(value) => {
                if value == 0 {
                    return None;
                }
                modifiers = modifier_flags_of(value - 1);
            },
            None => {
                return None;
            },
        }
    }
    assert(report_modifiers(field) == Some(modifiers));
    // The key: from the number and the final byte.
    let bare_key = if final_byte == 0x75 || final_byte == 0x7e {
        if sep == 2 {
            None
        } else {
            match read_decimal(buf, 2, sep, 0x10FFFF) {
                Some(code) => if final_byte == 0x75 {
                    unicode_key_of(code)
                } else {
                    tilde_key_of(code)
                },
                None => None,
            }
        }
    } else if sep == 2 || (sep == 3 && buf[2] == 0x31) {
        letter_key_of(final_byte)
    } else {
        None
    };
    proof {
        if sep == 3 && buf[2] == 0x31 {
            assert(number == seq![0x31u8]);
        }
        if number == seq![0x31u8] {
            assert(number.len() == 1);
            assert(number[0] == 0x31u8);
        }
        assert(bare_key == report_key(number, final_byte));
    }
    match bare_key {
        Some(bare_key) => Some(KeyWithModifier { bare_key, modifiers }),
        None => None,
    }
}

} // verus!
