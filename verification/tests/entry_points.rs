use native_keyboard::error::KeyboardError;
use native_keyboard::raw_input::{ObserverAction, ObserverSession, ObserverThread};
use native_keyboard::win_hook::{HookAction, HookSession, HookThread};
use native_keyboard::{
    install_keyboard_hook, start_raw_input_observer, stop_raw_input_observer,
    uninstall_keyboard_hook, Platform,
};

#[test]
fn hook_is_refused_off_windows() {
    let mut session: HookSession<u8> = HookSession::new();
    let result = install_keyboard_hook(Platform::Other, &mut session, 1);
    assert_eq!(result, Err(KeyboardError::HookUnsupported));
    assert_eq!(
        result.unwrap_err().reason(),
        "install_keyboard_hook is only supported on Windows"
    );
    assert_eq!(session, HookSession::new());
    session.running = true;
    session.thread_id = 3;
    let refused = uninstall_keyboard_hook(Platform::Other, &session);
    assert_eq!(refused, Err(KeyboardError::UninstallUnsupported));
    assert_eq!(
        refused.unwrap_err().reason(),
        "uninstall_keyboard_hook is only supported on Windows"
    );
}

#[test]
fn hook_is_installed_once_on_windows() {
    let mut session: HookSession<u8> = HookSession::new();
    assert_eq!(
        install_keyboard_hook(Platform::Windows, &mut session, 1),
        Ok((HookThread::Loading, HookAction::GetModuleHandle))
    );
    let again = install_keyboard_hook(Platform::Windows, &mut session, 2);
    assert_eq!(again.unwrap_err().reason(), "keyboard hook is already installed");
    assert_eq!(session.slot.tsfn, Some(1));
    assert_eq!(uninstall_keyboard_hook(Platform::Windows, &session), Ok(None));
    session.thread_id = 3;
    let message = uninstall_keyboard_hook(Platform::Windows, &session).unwrap().unwrap();
    assert_eq!((message.thread_id, message.message), (3, 0x12));
}

#[test]
fn observer_is_refused_off_windows() {
    let mut session: ObserverSession<u8> = ObserverSession::new();
    let result = start_raw_input_observer(Platform::Other, &mut session, 1);
    assert_eq!(result, Err(KeyboardError::ObserverUnsupported));
    assert_eq!(
        result.unwrap_err().reason(),
        "start_raw_input_observer is only supported on Windows"
    );
    assert_eq!(session, ObserverSession::new());
    session.running = true;
    session.hwnd = 3;
    let refused = stop_raw_input_observer(Platform::Other, &session);
    assert_eq!(refused, Err(KeyboardError::StopUnsupported));
    assert_eq!(
        refused.unwrap_err().reason(),
        "stop_raw_input_observer is only supported on Windows"
    );
}

#[test]
fn observer_is_started_once_on_windows() {
    let mut session: ObserverSession<u8> = ObserverSession::new();
    assert_eq!(
        start_raw_input_observer(Platform::Windows, &mut session, 1),
        Ok((ObserverThread::Loading, ObserverAction::GetModuleHandle))
    );
    let again = start_raw_input_observer(Platform::Windows, &mut session, 2);
    assert_eq!(again.unwrap_err().reason(), "raw input observer is already running");
    assert_eq!(stop_raw_input_observer(Platform::Windows, &session), Ok(None));
    session.hwnd = 8;
    let message = stop_raw_input_observer(Platform::Windows, &session).unwrap().unwrap();
    assert_eq!((message.hwnd, message.message), (8, 0x10));
}
