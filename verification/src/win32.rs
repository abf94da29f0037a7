//! Numeric codes that Windows assigns to virtual keys, window messages and
//! raw-input options, as far as the keyboard pipeline tells them apart, and
//! how Windows writes truth values.

use vstd::prelude::*;

verus! {

/// Either Shift key.
pub const VK_SHIFT: u32 = 0x10;

/// Either Ctrl key.
pub const VK_CONTROL: u32 = 0x11;

/// Either Alt key.
pub const VK_MENU: u32 = 0x12;

/// Left Windows key.
pub const VK_LWIN: u32 = 0x5B;

/// Right Windows key.
pub const VK_RWIN: u32 = 0x5C;

/// Left Shift key.
pub const VK_LSHIFT: u32 = 0xA0;

/// Right Shift key.
pub const VK_RSHIFT: u32 = 0xA1;

/// Left Ctrl key.
pub const VK_LCONTROL: u32 = 0xA2;

/// Right Ctrl key.
pub const VK_RCONTROL: u32 = 0xA3;

/// Left Alt key.
pub const VK_LMENU: u32 = 0xA4;

/// Right Alt key.
pub const VK_RMENU: u32 = 0xA5;

/// A window has been destroyed.
pub const WM_DESTROY: u32 = 0x0002;

/// A window is asked to close.
pub const WM_CLOSE: u32 = 0x0010;

/// A message pump is asked to stop.
pub const WM_QUIT: u32 = 0x0012;

/// Raw input is available.
pub const WM_INPUT: u32 = 0x00FF;

/// A key went down.
pub const WM_KEYDOWN: u32 = 0x0100;

/// A key went up.
pub const WM_KEYUP: u32 = 0x0101;

/// A key went down while Alt was held.
pub const WM_SYSKEYDOWN: u32 = 0x0104;

/// A key went up that had gone down while Alt was held.
pub const WM_SYSKEYUP: u32 = 0x0105;

/// Raw input that comes from a keyboard.
pub const RIM_TYPEKEYBOARD: u32 = 1;

/// Raw-input registration: stop receiving from the device class.
pub const RIDEV_REMOVE: u32 = 0x0001;

/// Raw-input registration: receive input without having the foreground.
pub const RIDEV_INPUTSINK: u32 = 0x0100;

/// Hook that sees keyboard input before it is posted to anybody.
pub const WH_KEYBOARD_LL: i32 = 13;

/// Parent of windows that only receive messages and are never shown.
pub const HWND_MESSAGE: isize = -3;

/// A position or size that the system may choose.
pub const CW_USEDEFAULT: i32 = -0x8000_0000;

/// HID usage page of generic desktop controls.
pub const USAGE_PAGE_GENERIC: u16 = 0x01;

/// HID usage of a keyboard on the generic desktop page.
pub const USAGE_KEYBOARD: u16 = 0x06;

/// `windows::Win32::Foundation::BOOL::as_bool`: a Win32 truth value is true
/// unless it is 0.
#[verifier::external_body]
pub(crate) fn as_bool(value: i32) -> (r: bool)
    ensures
        r == (value != 0),
{
    windows::Win32::Foundation::BOOL(value).as_bool()
}

} // verus!
