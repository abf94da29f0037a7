use native_keyboard::raw_input::window_class_name;
use native_keyboard::win32;
use windows::Win32::UI::Input::KeyboardAndMouse as keys;
use windows::Win32::UI::Input as input;
use windows::Win32::UI::WindowsAndMessaging as messages;

#[test]
fn virtual_keys_have_the_system_codes() {
    assert_eq!(win32::VK_SHIFT, keys::VK_SHIFT.0 as u32);
    assert_eq!(win32::VK_LSHIFT, keys::VK_LSHIFT.0 as u32);
    assert_eq!(win32::VK_RSHIFT, keys::VK_RSHIFT.0 as u32);
    assert_eq!(win32::VK_CONTROL, keys::VK_CONTROL.0 as u32);
    assert_eq!(win32::VK_LCONTROL, keys::VK_LCONTROL.0 as u32);
    assert_eq!(win32::VK_RCONTROL, keys::VK_RCONTROL.0 as u32);
    assert_eq!(win32::VK_MENU, keys::VK_MENU.0 as u32);
    assert_eq!(win32::VK_LMENU, keys::VK_LMENU.0 as u32);
    assert_eq!(win32::VK_RMENU, keys::VK_RMENU.0 as u32);
    assert_eq!(win32::VK_LWIN, keys::VK_LWIN.0 as u32);
    assert_eq!(win32::VK_RWIN, keys::VK_RWIN.0 as u32);
}

#[test]
fn messages_have_the_system_codes() {
    assert_eq!(win32::WM_KEYDOWN, messages::WM_KEYDOWN);
    assert_eq!(win32::WM_KEYUP, messages::WM_KEYUP);
    assert_eq!(win32::WM_SYSKEYDOWN, messages::WM_SYSKEYDOWN);
    assert_eq!(win32::WM_SYSKEYUP, messages::WM_SYSKEYUP);
    assert_eq!(win32::WM_QUIT, messages::WM_QUIT);
    assert_eq!(win32::WM_CLOSE, messages::WM_CLOSE);
    assert_eq!(win32::WM_DESTROY, messages::WM_DESTROY);
    assert_eq!(win32::WM_INPUT, messages::WM_INPUT);
}

#[test]
fn hook_window_and_raw_input_options_have_the_system_codes() {
    assert_eq!(win32::RIM_TYPEKEYBOARD, input::RIM_TYPEKEYBOARD.0);
    assert_eq!(win32::RIDEV_INPUTSINK, input::RIDEV_INPUTSINK.0);
    assert_eq!(win32::RIDEV_REMOVE, input::RIDEV_REMOVE.0);
    assert_eq!(win32::WH_KEYBOARD_LL, messages::WH_KEYBOARD_LL.0);
    assert_eq!(win32::HWND_MESSAGE, messages::HWND_MESSAGE.0);
    assert_eq!(win32::CW_USEDEFAULT, messages::CW_USEDEFAULT);
    assert_eq!(win32::USAGE_PAGE_GENERIC, 0x01);
    assert_eq!(win32::USAGE_KEYBOARD, 0x06);
}

#[test]
fn window_class_name_is_nul_terminated_utf16() {
    let mut expected: Vec<u16> = "NativelyRawInput".encode_utf16().collect();
    expected.push(0);
    assert_eq!(window_class_name().to_vec(), expected);
}
