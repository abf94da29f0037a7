//! What becomes of a key, said in the system's codes and in the fields of
//! events and sessions, of any call of the functions that handle it.

use vstd::prelude::*;

use crate::character::{translated_character, translation_call, utf16_text, ToUnicodeCall};
use crate::event::KeyEvent;
use crate::modifiers::Modifiers;
use crate::raw_input::{
    handle_raw_input, window_proc, window_reply, ObserverSession, RawKeyboard, WindowReply,
    WindowStep,
};
use crate::win_hook::{
    complete_key, conclude, key_reply, low_level_keyboard_proc, process_key, HookReply,
    HookSession, KeyStep, KeyboardInput,
};

verus! {

/// The low half of a message parameter, as a number.
pub(crate) proof fn lemma_low_half(wparam: usize)
    ensures
        (wparam as u32) as int == wparam as int % 0x1_0000_0000,
{
    assert((wparam as u32) as u64 == (wparam as u64) % 0x1_0000_0000u64) by (bit_vector);
}

/// Recording a transition says that the key is a modifier for exactly eleven
/// codes, and changes one flag at most: that of the key's own modifier, which
/// a press sets and a release clears. Any other key leaves all flags alone.
pub proof fn law_transition_of_a_key(
    modifiers: &mut Modifiers,
    vk: u32,
    down: bool,
    up: bool,
    r: bool,
)
    requires
        call_ensures(Modifiers::update_modifier_state, (modifiers, vk, down, up), r),
    ensures
        r <==> (0x10 <= vk <= 0x12 || 0x5B <= vk <= 0x5C || 0xA0 <= vk <= 0xA5),
        !r ==> *final(modifiers) == *old(modifiers),
        !down && !up ==> *final(modifiers) == *old(modifiers),
        vk == 0x10 || vk == 0xA0 || vk == 0xA1 ==> (down || up ==> final(modifiers).shift == !up),
        vk == 0x11 || vk == 0xA2 || vk == 0xA3 ==> (down || up ==> final(modifiers).ctrl == !up),
        vk == 0x12 || vk == 0xA4 || vk == 0xA5 ==> (down || up ==> final(modifiers).alt == !up),
        vk == 0x5B || vk == 0x5C ==> (down || up ==> final(modifiers).win == !up),
        vk != 0x10 && vk != 0xA0 && vk != 0xA1 ==> final(modifiers).shift == old(modifiers).shift,
        vk != 0x11 && vk != 0xA2 && vk != 0xA3 ==> final(modifiers).ctrl == old(modifiers).ctrl,
        vk != 0x12 && vk != 0xA4 && vk != 0xA5 ==> final(modifiers).alt == old(modifiers).alt,
        vk != 0x5B && vk != 0x5C ==> final(modifiers).win == old(modifiers).win,
{
}

/// Fresh flags and flags that were reset have no modifier down.
pub proof fn law_no_modifier_is_down_at_first(fresh: Modifiers, modifiers: &mut Modifiers)
    requires
        call_ensures(Modifiers::released, (), fresh),
        call_ensures(Modifiers::reset, (modifiers,), ()),
    ensures
        !fresh.shift && !fresh.ctrl && !fresh.alt && !fresh.win,
        *final(modifiers) == fresh,
{
}

/// The UTF-16 code units of one character.
pub open spec fn units_of_char(c: char) -> Seq<u16> {
    let code = c as int;
    if code < 0x10000 {
        seq![code as u16]
    } else {
        seq![
            (0xD800 + (code - 0x10000) / 0x400) as u16,
            (0xDC00 + (code - 0x10000) % 0x400) as u16,
        ]
    }
}

/// The UTF-16 code units of a text.
pub open spec fn units_of_text(text: Seq<char>) -> Seq<u16>
    decreases text.len(),
{
    if text.len() == 0 {
        Seq::empty()
    } else {
        units_of_char(text[0]) + units_of_text(text.skip(1))
    }
}

/// The unit at `i` is a surrogate without its other half beside it.
pub open spec fn is_lone(units: Seq<u16>, i: int) -> bool {
    &&& 0xD800 <= units[i] <= 0xDFFF
    &&& !(units[i] <= 0xDBFF && i + 1 < units.len() && 0xDC00 <= units[i + 1] <= 0xDFFF)
    &&& !(0xDC00 <= units[i] && 0 < i && 0xD800 <= units[i - 1] <= 0xDBFF)
}

/// The units with U+FFFD in place of every lone surrogate.
pub open spec fn mended(units: Seq<u16>) -> Seq<u16> {
    Seq::new(
        units.len(),
        |i: int|
            if is_lone(units, i) {
                0xFFFDu16
            } else {
                units[i]
            },
    )
}

/// Encoding UTF-16 undoes decoding it: the text of any code units, encoded
/// again, is those units with their lone surrogates replaced.
pub proof fn law_decoded_text_encodes_back(units: Seq<u16>)
    ensures
        units_of_text(utf16_text(units)) == mended(units),
    decreases units.len(),
{
    let text = utf16_text(units);
    if units.len() == 0 {
        assert(mended(units) =~= Seq::empty());
    } else {
        let n: int = if 0xD800 <= units[0] <= 0xDBFF && units.len() >= 2 && 0xDC00 <= units[1]
            <= 0xDFFF {
            2
        } else {
            1
        };
        let rest = units.skip(n);
        law_decoded_text_encodes_back(rest);
        assert(text.skip(1) =~= utf16_text(rest));
        let first = units_of_char(text[0]);
        assert(first =~= mended(units).take(n)) by {
            if n == 2 {
                let code = 0x10000 + (units[0] - 0xD800) * 0x400 + (units[1] - 0xDC00);
                assert(text[0] as int == code);
                assert((code - 0x10000) / 0x400 == units[0] - 0xD800);
                assert((code - 0x10000) % 0x400 == units[1] - 0xDC00);
            }
        }
        assert(mended(units).skip(n) =~= mended(rest)) by {
            assert forall|i: int| 0 <= i < rest.len() implies mended(units).skip(n)[i] == mended(
                rest,
            )[i] by {
                assert(rest[i] == units[i + n]);
                if i > 0 {
                    assert(rest[i - 1] == units[i + n - 1]);
                }
                if i + 1 < rest.len() {
                    assert(rest[i + 1] == units[i + n + 1]);
                }
            }
        }
        assert(mended(units) =~= mended(units).take(n) + mended(units).skip(n));
    }
}

/// The units of one character are a unit that is no surrogate, or a pair from
/// which the character can be had back.
proof fn lemma_units_of_char(c: char)
    ensures
        ({
            let units = units_of_char(c);
            ||| {
                &&& units.len() == 1
                &&& units[0] == c as int
                &&& !(0xD800 <= units[0] <= 0xDFFF)
            }
            ||| {
                &&& units.len() == 2
                &&& 0xD800 <= units[0] <= 0xDBFF
                &&& 0xDC00 <= units[1] <= 0xDFFF
                &&& 0x10000 + (units[0] - 0xD800) * 0x400 + (units[1] - 0xDC00) == c as int
            }
        }),
{
}

/// Decoding a text undoes encoding it: every text comes back from its code
/// units. So no two texts have the same units.
pub proof fn law_encoded_text_decodes_back(text: Seq<char>)
    ensures
        utf16_text(units_of_text(text)) == text,
    decreases text.len(),
{
    let units = units_of_text(text);
    if text.len() == 0 {
        assert(utf16_text(units) =~= text);
    } else {
        let first = units_of_char(text[0]);
        let rest = units_of_text(text.skip(1));
        law_encoded_text_decodes_back(text.skip(1));
        assert(units.skip(first.len() as int) =~= rest);
        assert(units[0] == first[0]);
        lemma_units_of_char(text[0]);
        if first.len() == 2 {
            assert(units[1] == first[1]);
            assert(utf16_text(units) == seq![text[0]] + utf16_text(units.skip(2)));
        } else {
            assert(utf16_text(units) == seq![text[0]] + utf16_text(units.skip(1)));
        }
        assert(text =~= seq![text[0]] + text.skip(1));
    }
}

/// What to ask for the character of a key: nothing under Ctrl without Alt;
/// else that key, with the buffer marked at Shift, Ctrl and Alt as they are
/// held and nowhere else.
pub proof fn law_question_for_a_character(
    vk: u32,
    scancode: u32,
    shift: bool,
    ctrl: bool,
    alt: bool,
    r: Option<ToUnicodeCall>,
)
    requires
        call_ensures(translation_call, (vk, scancode, shift, ctrl, alt), r),
    ensures
        r is None <==> ctrl && !alt,
        r matches Some(call) ==> {
            &&& call.vk == vk
            &&& call.scancode == scancode
            &&& call.flags == 0
            &&& call.state@[0x10] == (if shift {
                0x80u8
            } else {
                0
            })
            &&& call.state@[0x11] == (if ctrl {
                0x80u8
            } else {
                0
            })
            &&& call.state@[0x12] == (if alt {
                0x80u8
            } else {
                0
            })
            &&& forall|i: int|
                0 <= i < 256 && !(0x10 <= i <= 0x12) ==> #[trigger] call.state@[i] == 0
        },
{
}

/// What an answer means: no character if no units were written or if one of
/// those written is a control character; else the one text that encodes to the
/// written units, lone surrogates replaced. Units beyond the count play no
/// part.
pub proof fn law_answer_for_a_character(count: i32, units: &[u16; 8], r: Option<String>)
    requires
        count <= 8,
        call_ensures(translated_character, (count, units), r),
    ensures
        r is None <==> count <= 0 || exists|i: int|
            0 <= i < count && (#[trigger] units@[i] <= 0x1F || 0x7F <= units@[i] <= 0x9F),
        r matches Some(s) ==> s@.len() > 0 && units_of_text(s@) == mended(
            units@.take(count as int),
        ),
        forall|text: Seq<char>|
            r is Some && #[trigger] units_of_text(text) == mended(units@.take(count as int))
                ==> text == r->0@,
{
    assert forall|text: Seq<char>|
        r is Some && #[trigger] units_of_text(text) == mended(
            units@.take(count as int),
        ) implies text == r->0@ by {
        law_encoded_text_decodes_back(text);
        law_encoded_text_decodes_back(r->0@);
        law_decoded_text_encodes_back(units@.take(count as int));
    }
    if count > 0 {
        let written = units@.take(count as int);
        law_decoded_text_encodes_back(written);
        if r is Some {
            assert(mended(written).len() == count);
            assert(r->0@.len() > 0);
            assert forall|i: int| 0 <= i < count implies !(#[trigger] units@[i] <= 0x1F || 0x7F
                <= units@[i] <= 0x9F) by {
                assert(written[i] == units@[i]);
            }
        } else {
            let i = choose|i: int|
                0 <= i < written.len() && crate::character::is_control(#[trigger] written[i] as int);
            assert(units@[i] == written[i]);
        }
    }
}

/// A keystroke that the hook reads: the event repeats the key, is a press
/// exactly on the two press messages, and carries the flags that the session
/// has after it; those flags are the old ones but for the key's own modifier,
/// set by a press and cleared by a release. A character is asked for exactly
/// on presses of other keys than modifiers, unless Ctrl is held without Alt,
/// and the question describes the key and the held modifiers. Nothing else of
/// the session changes.
pub proof fn law_keystroke_read_by_the_hook<T>(
    session: &mut HookSession<T>,
    wparam: usize,
    input: KeyboardInput,
    r: KeyStep,
)
    requires
        call_ensures(process_key::<T>, (session, wparam, Some(input)), r),
    ensures
        ({
            let message = wparam as int % 0x1_0000_0000;
            let pressed = message == 0x100 || message == 0x104;
            let released = message == 0x101 || message == 0x105;
            let vk = input.vk_code;
            let before = old(session).modifiers;
            let after = final(session).modifiers;
            let event = match r {
                KeyStep::Translate { pending, .. } => pending,
                KeyStep::Deliver { event } => event,
                KeyStep::CallNextHook => arbitrary(),
            };
            &&& !(r is CallNextHook)
            &&& event.vk == vk
            &&& event.scancode == input.scan_code
            &&& event.down == pressed
            &&& event.character is None
            &&& event.shift == after.shift
            &&& event.ctrl == after.ctrl
            &&& event.alt == after.alt
            &&& event.win == after.win
            &&& after.shift == (if vk == 0x10 || vk == 0xA0 || vk == 0xA1 {
                pressed || (before.shift && !released)
            } else {
                before.shift
            })
            &&& after.ctrl == (if vk == 0x11 || vk == 0xA2 || vk == 0xA3 {
                pressed || (before.ctrl && !released)
            } else {
                before.ctrl
            })
            &&& after.alt == (if vk == 0x12 || vk == 0xA4 || vk == 0xA5 {
                pressed || (before.alt && !released)
            } else {
                before.alt
            })
            &&& after.win == (if vk == 0x5B || vk == 0x5C {
                pressed || (before.win && !released)
            } else {
                before.win
            })
            &&& final(session).running == old(session).running
            &&& final(session).thread_id == old(session).thread_id
            &&& final(session).slot == old(session).slot
            &&& r is Translate <==> {
                &&& pressed
                &&& !(0x10 <= vk <= 0x12 || 0x5B <= vk <= 0x5C || 0xA0 <= vk <= 0xA5)
                &&& after.ctrl ==> after.alt
            }
            &&& r matches KeyStep::Translate { call, .. } ==> {
                &&& call.vk == vk
                &&& call.scancode == input.scan_code
                &&& call.flags == 0
                &&& call.state@[0x10] == (if after.shift {
                    0x80u8
                } else {
                    0
                })
                &&& call.state@[0x11] == (if after.ctrl {
                    0x80u8
                } else {
                    0
                })
                &&& call.state@[0x12] == (if after.alt {
                    0x80u8
                } else {
                    0
                })
                &&& forall|i: int|
                    0 <= i < 256 && !(0x10 <= i <= 0x12) ==> #[trigger] call.state@[i] == 0
            }
        }),
{
    lemma_low_half(wparam);
}

/// Without a keystroke to read nothing happens, and the key is passed on.
pub proof fn law_missing_keystroke<T>(session: &mut HookSession<T>, wparam: usize, r: KeyStep)
    requires
        call_ensures(process_key::<T>, (session, wparam, None), r),
    ensures
        r is CallNextHook,
        *final(session) == *old(session),
{
}

/// Tapping a key, a press and then a release by whichever messages, leaves no
/// modifier of that key down, and every other modifier as it was.
pub proof fn law_tapped_key_is_not_held<T>(
    first: &mut HookSession<T>,
    second: &mut HookSession<T>,
    press: usize,
    release: usize,
    input: KeyboardInput,
    r1: KeyStep,
    r2: KeyStep,
)
    requires
        press as int % 0x1_0000_0000 == 0x100 || press as int % 0x1_0000_0000 == 0x104,
        release as int % 0x1_0000_0000 == 0x101 || release as int % 0x1_0000_0000 == 0x105,
        call_ensures(process_key::<T>, (first, press, Some(input)), r1),
        *old(second) == *final(first),
        call_ensures(process_key::<T>, (second, release, Some(input)), r2),
    ensures
        ({
            let vk = input.vk_code;
            let before = old(first).modifiers;
            let after = final(second).modifiers;
            &&& after.shift == (before.shift && vk != 0x10 && vk != 0xA0 && vk != 0xA1)
            &&& after.ctrl == (before.ctrl && vk != 0x11 && vk != 0xA2 && vk != 0xA3)
            &&& after.alt == (before.alt && vk != 0x12 && vk != 0xA4 && vk != 0xA5)
            &&& after.win == (before.win && vk != 0x5B && vk != 0x5C)
        }),
{
    lemma_low_half(press);
    lemma_low_half(release);
}

/// Completing an event changes nothing of it but its character, and that
/// depends on the answer alone: none if no units were written or if one of
/// those written is a control character; else the text that encodes to them.
/// Whichever modifiers are held, they do not stand in the way.
pub proof fn law_completed_event_has_the_text(
    pending: KeyEvent,
    count: i32,
    units: &[u16; 8],
    event: KeyEvent,
)
    requires
        count <= 8,
        call_ensures(complete_key, (pending, count, units), event),
    ensures
        event.vk == pending.vk,
        event.scancode == pending.scancode,
        event.down == pending.down,
        event.alt == pending.alt,
        event.ctrl == pending.ctrl,
        event.shift == pending.shift,
        event.win == pending.win,
        event.character is None <==> count <= 0 || exists|i: int|
            0 <= i < count && (#[trigger] units@[i] <= 0x1F || 0x7F <= units@[i] <= 0x9F),
        event.character matches Some(s) ==> s@.len() > 0 && units_of_text(s@) == mended(
            units@.take(count as int),
        ),
{
    if count > 0 {
        let written = units@.take(count as int);
        law_decoded_text_encodes_back(written);
        if event.character is Some {
            assert(mended(written).len() == count);
            assert(event.character->0@.len() > 0);
            assert forall|i: int| 0 <= i < count implies !(#[trigger] units@[i] <= 0x1F || 0x7F
                <= units@[i] <= 0x9F) by {
                assert(written[i] == units@[i]);
            }
        } else {
            let i = choose|i: int|
                0 <= i < written.len() && crate::character::is_control(#[trigger] written[i] as int);
            assert(units@[i] == written[i]);
        }
    }
}

/// The press of a key that is no modifier, under any Shift and Win and unless
/// Ctrl is held without Alt, delivers the text that the answer to its question
/// encodes, if that is printable; with the flags of the moment.
pub proof fn law_printable_press_delivers_its_text<T>(
    session: &mut HookSession<T>,
    wparam: usize,
    input: KeyboardInput,
    r: KeyStep,
    count: i32,
    units: &[u16; 8],
    event: KeyEvent,
)
    requires
        call_ensures(process_key::<T>, (session, wparam, Some(input)), r),
        wparam as int % 0x1_0000_0000 == 0x100 || wparam as int % 0x1_0000_0000 == 0x104,
        !(0x10 <= input.vk_code <= 0x12 || 0x5B <= input.vk_code <= 0x5C || 0xA0 <= input.vk_code
            <= 0xA5),
        old(session).modifiers.ctrl ==> old(session).modifiers.alt,
        0 < count <= 8,
        forall|i: int|
            0 <= i < count ==> !(#[trigger] units@[i] <= 0x1F || 0x7F <= units@[i] <= 0x9F),
        r matches KeyStep::Translate { pending, .. } ==> call_ensures(
            complete_key,
            (pending, count, units),
            event,
        ),
    ensures
        r is Translate,
        event.vk == input.vk_code,
        event.scancode == input.scan_code,
        event.down,
        event.shift == old(session).modifiers.shift,
        event.ctrl == old(session).modifiers.ctrl,
        event.alt == old(session).modifiers.alt,
        event.win == old(session).modifiers.win,
        event.character matches Some(s) && units_of_text(s@) == mended(
            units@.take(count as int),
        ),
{
    law_keystroke_read_by_the_hook(session, wparam, input, r);
    let pending = r->pending;
    law_completed_event_has_the_text(pending, count, units, event);
}

/// Whatever is made of a keystroke, it is kept from everybody else; only where
/// there is none to read is the call passed on.
pub proof fn law_reply_to_a_keystroke(step: KeyStep, r: HookReply)
    requires
        call_ensures(key_reply, (&step,), r),
    ensures
        step is CallNextHook ==> r == HookReply::CallNextHook,
        !(step is CallNextHook) ==> r == HookReply::Return(1),
{
}

/// A call is passed on unseen exactly on negative codes, and a keystroke whose
/// processing panicked is passed on; else the reply is that of the processing.
pub proof fn law_calls_passed_on(
    code: i32,
    entry: Option<HookReply>,
    processed: Option<HookReply>,
    reply: HookReply,
)
    requires
        call_ensures(low_level_keyboard_proc, (code,), entry),
        call_ensures(conclude, (processed,), reply),
    ensures
        code < 0 ==> entry == Some(HookReply::CallNextHook),
        code >= 0 ==> entry is None,
        processed is None ==> reply == HookReply::CallNextHook,
        processed is Some ==> reply == processed->0,
{
}

/// Raw keyboard input: there is an event exactly if the system delivered data
/// and they come from a keyboard. It repeats key and scan code, is a press
/// exactly if the lowest flag is clear, whatever the other flags and whatever
/// the key, carries the flags that the session has after it, and never a
/// character. The flags are the old ones but for the key's own modifier, and
/// nothing else of the session changes.
pub proof fn law_raw_keyboard_input<T>(
    session: &mut ObserverSession<T>,
    count: u32,
    device_type: u32,
    keyboard: RawKeyboard,
    r: Option<KeyEvent>,
)
    requires
        call_ensures(handle_raw_input::<T>, (session, count, device_type, keyboard), r),
    ensures
        r is Some <==> 0 < count < 0x8000_0000 && device_type == 1,
        r is None ==> *final(session) == *old(session),
        final(session).running == old(session).running,
        final(session).hwnd == old(session).hwnd,
        final(session).thread_id == old(session).thread_id,
        final(session).slot == old(session).slot,
        r matches Some(event) ==> {
            let vk = keyboard.vkey;
            let before = old(session).modifiers;
            let after = final(session).modifiers;
            let pressed = keyboard.flags & 1 == 0;
            &&& event.vk == vk
            &&& event.scancode == keyboard.make_code
            &&& event.down == pressed
            &&& event.character is None
            &&& event.shift == after.shift
            &&& event.ctrl == after.ctrl
            &&& event.alt == after.alt
            &&& event.win == after.win
            &&& after.shift == (if vk == 0x10 || vk == 0xA0 || vk == 0xA1 {
                pressed
            } else {
                before.shift
            })
            &&& after.ctrl == (if vk == 0x11 || vk == 0xA2 || vk == 0xA3 {
                pressed
            } else {
                before.ctrl
            })
            &&& after.alt == (if vk == 0x12 || vk == 0xA4 || vk == 0xA5 {
                pressed
            } else {
                before.alt
            })
            &&& after.win == (if vk == 0x5B || vk == 0x5C {
                pressed
            } else {
                before.win
            })
        },
{
    let flags = keyboard.flags;
    assert(flags & 1 == flags % 2) by (bit_vector);
}

/// Two keyboard inputs with the same lowest flag are both presses or both
/// releases, whatever keys, scan codes, sessions and other flags they have.
pub proof fn law_lowest_flag_decides_the_direction<T, U>(
    first: &mut ObserverSession<T>,
    second: &mut ObserverSession<U>,
    count1: u32,
    count2: u32,
    device1: u32,
    device2: u32,
    keyboard1: RawKeyboard,
    keyboard2: RawKeyboard,
    event1: KeyEvent,
    event2: KeyEvent,
)
    requires
        call_ensures(
            handle_raw_input::<T>,
            (first, count1, device1, keyboard1),
            Some(event1),
        ),
        call_ensures(
            handle_raw_input::<U>,
            (second, count2, device2, keyboard2),
            Some(event2),
        ),
    ensures
        keyboard1.flags & 1 == keyboard2.flags & 1 <==> event1.down == event2.down,
{
    law_raw_keyboard_input(first, count1, device1, keyboard1, Some(event1));
    law_raw_keyboard_input(second, count2, device2, keyboard2, Some(event2));
    let flags1 = keyboard1.flags;
    let flags2 = keyboard2.flags;
    assert(flags1 & 1 == 0 || flags1 & 1 == 1) by (bit_vector);
    assert(flags2 & 1 == 0 || flags2 & 1 == 1) by (bit_vector);
}

/// The observer's window looks at raw input, stops the pump with 0 when it is
/// destroyed, and does nothing of its own otherwise; and whatever the message,
/// only that of its destruction is kept from the default handling.
pub proof fn law_window_messages(message: u32, step: WindowStep, reply: WindowReply)
    requires
        call_ensures(window_proc, (message,), step),
        call_ensures(window_reply, (step,), reply),
    ensures
        step is HandleInput <==> message == 0xFF,
        step is Quit <==> message == 0x02,
        step matches WindowStep::Quit { exit_code } ==> exit_code == 0,
        reply == (if message == 0x02 {
            WindowReply::Return(0)
        } else {
            WindowReply::Default
        }),
{
}

} // verus!
