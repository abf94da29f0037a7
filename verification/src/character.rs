//! Resolving the printable character of a key.
//!
//! The layout-dependent step in the middle is the system's `ToUnicode`, which
//! reads the active keyboard layout. What it is asked, and what its answer
//! means, is decided here.

use vstd::prelude::*;
use vstd::slice::slice_subrange;

use crate::win32::{VK_CONTROL, VK_MENU, VK_SHIFT};

verus! {

/// Mark of a pressed key in a keyboard-state buffer.
pub const KEY_DOWN: u8 = 0x80;

/// Room for the UTF-16 units of one key.
pub const UNITS_PER_KEY: usize = 8;

/// The arguments of one `ToUnicode` call.
#[derive(Debug, PartialEq, Eq)]
pub struct ToUnicodeCall {
    pub vk: u32,
    pub scancode: u32,
    pub state: [u8; 256],
    pub flags: u32,
}

impl ToUnicodeCall {
    /// The call asks for the character of the key under a modifier snapshot.
    pub open spec fn asks_for(
        self,
        vk: u32,
        scancode: u32,
        shift: bool,
        ctrl: bool,
        alt: bool,
    ) -> bool {
        &&& self.vk == vk
        &&& self.scancode == scancode
        &&& self.flags == 0
        &&& forall|i: int|
            0 <= i < 256 ==> #[trigger] self.state@[i] == state_byte(shift, ctrl, alt, i)
    }
}

/// The byte at index `vk` of a keyboard-state buffer for a modifier snapshot.
pub open spec fn state_byte(shift: bool, ctrl: bool, alt: bool, vk: int) -> u8 {
    if (shift && vk == VK_SHIFT) || (ctrl && vk == VK_CONTROL) || (alt && vk == VK_MENU) {
        KEY_DOWN
    } else {
        0
    }
}

/// Ctrl without Alt makes command keys, not text.
pub open spec fn is_command(ctrl: bool, alt: bool) -> bool {
    ctrl && !alt
}

/// A UTF-16 code unit that is half of a surrogate pair.
pub open spec fn is_surrogate(unit: u16) -> bool {
    0xD800 <= unit <= 0xDFFF
}

/// The two units are the first and the second half of a surrogate pair.
pub open spec fn is_pair(first: u16, second: u16) -> bool {
    0xD800 <= first <= 0xDBFF && 0xDC00 <= second <= 0xDFFF
}

/// The text that UTF-16 code units encode, with U+FFFD in place of every
/// unpaired surrogate.
pub open spec fn utf16_text(units: Seq<u16>) -> Seq<char>
    decreases units.len(),
{
    if units.len() == 0 {
        Seq::empty()
    } else if !is_surrogate(units[0]) {
        seq![units[0] as char] + utf16_text(units.skip(1))
    } else if units.len() >= 2 && is_pair(units[0], units[1]) {
        let code = 0x10000 + (units[0] - 0xD800) * 0x400 + (units[1] - 0xDC00);
        seq![code as char] + utf16_text(units.skip(2))
    } else {
        seq!['\u{FFFD}'] + utf16_text(units.skip(1))
    }
}

/// A code point that stands for a control function, such as Esc, Backspace or
/// Enter, and not for anything printable.
pub open spec fn is_control(code: int) -> bool {
    0 <= code <= 0x1F || 0x7F <= code <= 0x9F
}

/// Some unit is a control character.
pub open spec fn has_control(units: Seq<u16>) -> bool {
    exists|i: int| 0 <= i < units.len() && is_control(#[trigger] units[i] as int)
}

/// The text of a key for which `ToUnicode` answered `count` and filled
/// `units`: none if it wrote nothing, or anything that cannot be printed.
pub open spec fn translated_text(count: i32, units: Seq<u16>) -> Option<Seq<char>> {
    if count <= 0 || has_control(units.take(count as int)) {
        None
    } else {
        Some(utf16_text(units.take(count as int)))
    }
}

/// `String::from_utf16_lossy`: decodes UTF-16, pairing surrogates, and puts
/// U+FFFD where a surrogate has no partner.
#[verifier::external_body]
fn from_utf16_lossy(units: &[u16]) -> (r: String)
    ensures
        r@ == utf16_text(units@),
{
    String::from_utf16_lossy(units)
}

/// What to ask `ToUnicode` for the character of a key, given a snapshot of the
/// modifiers. `None` for command keys: there the answer would be a control
/// character, and the receiver goes by the virtual key instead.
pub fn translation_call(
    vk: u32,
    scancode: u32,
    shift: bool,
    ctrl: bool,
    alt: bool,
) -> (r: Option<ToUnicodeCall>)
    ensures
        r is None <==> is_command(ctrl, alt),
        r matches Some(call) ==> call.asks_for(vk, scancode, shift, ctrl, alt),
{
    let mut state: [u8; 256] = [0;256];
    if shift {
        state[VK_SHIFT as usize] = KEY_DOWN;
    }
    if ctrl {
        state[VK_CONTROL as usize] = KEY_DOWN;
    }
    if alt {
        state[VK_MENU as usize] = KEY_DOWN;
    }
    if ctrl && !alt {
        return None;
    }
    Some(ToUnicodeCall { vk, scancode, state, flags: 0 })
}

/// Whether some unit is a control character.
fn contains_control(units: &[u16]) -> (r: bool)
    ensures
        r == has_control(units@),
{
    let mut i: usize = 0;
    while i < units.len()
        invariant
            i <= units.len(),
            forall|j: int| 0 <= j < i ==> !is_control(#[trigger] units@[j] as int),
        decreases units.len() - i,
    {
        let unit: u16 = units[i];
        if unit <= 0x1F || (0x7F <= unit && unit <= 0x9F) {
            assert(is_control(units@[i as int] as int));
            return true;
        }
        i = i + 1;
    }
    false
}

/// The character that `ToUnicode`'s answer stands for: none where it found no
/// translation (0) or only a dead key (negative), none where it wrote a control
/// character (Esc, Backspace, Enter: the receiver goes by the virtual key),
/// else the text of the units that it wrote.
pub fn translated_character(count: i32, units: &[u16; 8]) -> (r: Option<String>)
    requires
        count <= UNITS_PER_KEY,
    ensures
        match translated_text(count, units@) {
            Some(text) => r matches Some(s) && s@ == text,
            None => r is None,
        },
{
    if count <= 0 {
        return None;
    }
    let written = slice_subrange(units.as_slice(), 0, count as usize);
    proof {
        law_text_of_units_is_not_empty(units@.take(count as int));
        assert(written@ =~= units@.take(count as int));
    }
    if contains_control(written) {
        return None;
    }
    let s = from_utf16_lossy(written);
    if s.as_str().is_empty() {
        return None;
    }
    Some(s)
}

/// Any UTF-16 code unit yields text: a key whose translation has units never
/// has an empty character.
pub proof fn law_text_of_units_is_not_empty(units: Seq<u16>)
    requires
        units.len() > 0,
    ensures
        utf16_text(units).len() > 0,
{
}

/// Units without a control character encode text without one: what a key
/// yields can always be shown.
pub proof fn law_text_holds_no_control_characters(units: Seq<u16>)
    requires
        !has_control(units),
    ensures
        forall|i: int|
            0 <= i < utf16_text(units).len() ==> !is_control(
                #[trigger] utf16_text(units)[i] as int,
            ),
    decreases units.len(),
{
    if units.len() > 0 {
        let n: int = if is_surrogate(units[0]) && units.len() >= 2 && is_pair(
            units[0],
            units[1],
        ) {
            2
        } else {
            1
        };
        let rest = units.skip(n);
        assert forall|i: int| 0 <= i < rest.len() implies !is_control(
            #[trigger] rest[i] as int,
        ) by {
            assert(rest[i] == units[i + n]);
        }
        law_text_holds_no_control_characters(rest);
        assert(!is_control(units[0] as int));
        assert forall|i: int| 0 <= i < utf16_text(units).len() implies !is_control(
            #[trigger] utf16_text(units)[i] as int,
        ) by {
            if i > 0 {
                assert(utf16_text(units)[i] == utf16_text(rest)[i - 1]);
            }
        }
    }
}

} // verus!
