use native_keyboard::error::KeyboardError;
use native_keyboard::modifiers::Modifiers;
use native_keyboard::raw_input::{
    cleanup, finish_start, handle_raw_input, start, stop, window_proc, window_reply,
    DeviceRegistration, ObserverAction, ObserverOutcome, ObserverSession, ObserverThread,
    RawKeyboard, WindowMessage, WindowReply, WindowRequest, WindowStep,
};
use native_keyboard::win32::{
    RIDEV_INPUTSINK, RIDEV_REMOVE, RIM_TYPEKEYBOARD, VK_LSHIFT, WM_CLOSE, WM_DESTROY, WM_INPUT,
    WM_KEYDOWN, WM_KEYUP,
};
use native_keyboard::win_hook::{process_key, HookSession, KeyStep, KeyboardInput};
use native_keyboard::KeyEvent;

fn quiet() -> ObserverSession<&'static str> {
    ObserverSession::new()
}

fn creating() -> (ObserverSession<&'static str>, ObserverThread) {
    let mut session = quiet();
    let (thread, action) = start(&mut session, "callback").unwrap();
    assert_eq!(action, ObserverAction::GetModuleHandle);
    let (thread, action) = thread.advance(&mut session, ObserverOutcome::ModuleHandle(Ok(())));
    assert_eq!(
        action,
        Some(ObserverAction::CreateWindow(WindowRequest {
            ex_style: 0,
            style: 0,
            x: i32::MIN,
            y: i32::MIN,
            width: i32::MIN,
            height: i32::MIN,
            parent: -3,
        }))
    );
    (session, thread)
}

fn subscribing(hwnd: isize) -> (ObserverSession<&'static str>, ObserverThread) {
    let (mut session, thread) = creating();
    let (thread, action) = thread.advance(&mut session, ObserverOutcome::Window(hwnd));
    assert_eq!(
        action,
        Some(ObserverAction::RegisterDevices(DeviceRegistration {
            usage_page: 1,
            usage: 6,
            flags: RIDEV_INPUTSINK,
            target: hwnd,
        }))
    );
    (session, thread)
}

fn observing(hwnd: isize, id: u32) -> (ObserverSession<&'static str>, ObserverThread) {
    let (mut session, thread) = subscribing(hwnd);
    let (thread, action) = thread.advance(&mut session, ObserverOutcome::Registered(Ok(id)));
    assert_eq!(action, Some(ObserverAction::Report(Ok(()))));
    assert_eq!(finish_start(&mut session, Ok(Ok(()))), Ok(()));
    let (thread, action) = thread.advance(&mut session, ObserverOutcome::Reported);
    assert_eq!(action, Some(ObserverAction::GetMessage));
    (session, thread)
}

fn raw(vkey: u16, flags: u16) -> RawKeyboard {
    RawKeyboard { make_code: 0x2A, flags, vkey }
}

#[test]
fn observer_runs_from_start_to_stop() {
    let (mut session, thread) = observing(-77, 9);
    assert!(session.running);
    assert_eq!((session.hwnd, session.thread_id), (-77, 9));
    let (thread, action) = thread.advance(&mut session, ObserverOutcome::Message(1));
    assert_eq!(action, Some(ObserverAction::DispatchMessage));
    let (thread, action) = thread.advance(&mut session, ObserverOutcome::Dispatched);
    assert_eq!(action, Some(ObserverAction::GetMessage));
    assert_eq!(
        stop(&session),
        Some(WindowMessage { hwnd: -77, message: WM_CLOSE, wparam: 0, lparam: 0 })
    );
    let (thread, action) = thread.advance(&mut session, ObserverOutcome::Message(0));
    assert_eq!(
        action,
        Some(ObserverAction::RegisterDevices(DeviceRegistration {
            usage_page: 1,
            usage: 6,
            flags: RIDEV_REMOVE,
            target: 0,
        }))
    );
    let (thread, action) = thread.advance(
        &mut session,
        ObserverOutcome::Registered(Err("ignored".to_string())),
    );
    assert_eq!(action, Some(ObserverAction::DestroyWindow(-77)));
    assert!(session.running);
    let (thread, action) = thread.advance(&mut session, ObserverOutcome::Destroyed);
    assert_eq!(action, Some(ObserverAction::Exit));
    assert_eq!(thread, ObserverThread::Finished);
    assert_eq!(session, quiet());
    assert_eq!(stop(&session), None);
    assert!(start(&mut session, "again").is_ok());
}

#[test]
fn any_nonzero_wait_keeps_the_observer_pumping() {
    let (mut session, mut thread) = observing(1, 2);
    for returned in [1, 2, -1, i32::MIN, i32::MAX] {
        let (next, action) = thread.advance(&mut session, ObserverOutcome::Message(returned));
        assert_eq!(action, Some(ObserverAction::DispatchMessage));
        let (next, action) = next.advance(&mut session, ObserverOutcome::Dispatched);
        assert_eq!(action, Some(ObserverAction::GetMessage));
        thread = next;
    }
    assert_eq!(thread, ObserverThread::Pumping { hwnd: 1 });
}

#[test]
fn second_start_is_refused_and_changes_nothing() {
    let (mut session, _) = observing(3, 4);
    session.modifiers.alt = true;
    let refused = start(&mut session, "other");
    assert_eq!(refused, Err(KeyboardError::ObserverAlreadyRunning));
    assert!(session.modifiers.alt);
    assert_eq!(session.slot.tsfn, Some("callback"));
    assert_eq!((session.hwnd, session.thread_id), (3, 4));
}

#[test]
fn start_forgets_modifiers_of_an_earlier_run() {
    let mut session = quiet();
    session.modifiers = Modifiers { shift: true, ctrl: true, alt: true, win: true };
    assert!(start(&mut session, "callback").is_ok());
    assert_eq!(session.modifiers, Modifiers::released());
    assert!(session.running);
}

#[test]
fn failed_module_handle_is_reported_and_frees_the_observer_session() {
    let mut session = quiet();
    let (thread, _) = start(&mut session, "callback").unwrap();
    let (thread, action) =
        thread.advance(&mut session, ObserverOutcome::ModuleHandle(Err("gone".to_string())));
    assert_eq!(
        action,
        Some(ObserverAction::Report(Err(KeyboardError::ModuleHandle("gone".to_string()))))
    );
    assert!(session.running);
    let (_, action) = thread.advance(&mut session, ObserverOutcome::Reported);
    assert_eq!(action, Some(ObserverAction::Exit));
    assert_eq!(session, quiet());
}

#[test]
fn missing_window_is_reported_and_frees_the_session() {
    let (mut session, thread) = creating();
    let (thread, action) = thread.advance(&mut session, ObserverOutcome::Window(0));
    assert_eq!(action, Some(ObserverAction::Report(Err(KeyboardError::CreateWindow))));
    assert_eq!(
        KeyboardError::CreateWindow.reason(),
        "CreateWindowExW failed for HWND_MESSAGE"
    );
    let (_, action) = thread.advance(&mut session, ObserverOutcome::Reported);
    assert_eq!(action, Some(ObserverAction::Exit));
    assert_eq!(session, quiet());
}

#[test]
fn refused_subscription_destroys_the_window_before_it_is_reported() {
    let (mut session, thread) = subscribing(12);
    let (thread, action) =
        thread.advance(&mut session, ObserverOutcome::Registered(Err("denied".to_string())));
    assert_eq!(action, Some(ObserverAction::DestroyWindow(12)));
    let (thread, action) = thread.advance(&mut session, ObserverOutcome::Destroyed);
    match action {
        Some(ObserverAction::Report(Err(e))) => {
            assert_eq!(e, KeyboardError::RegisterDevices("denied".to_string()));
            assert_eq!(e.reason(), "RegisterRawInputDevices failed: denied");
        }
        _ => panic!("no report"),
    }
    assert_eq!(session.hwnd, 0);
    let (_, action) = thread.advance(&mut session, ObserverOutcome::Reported);
    assert_eq!(action, Some(ObserverAction::Exit));
    assert_eq!(session, quiet());
}

#[test]
fn lost_observer_thread_frees_the_session() {
    let (mut session, _) = subscribing(12);
    let result = finish_start(&mut session, Err("closed".to_string()));
    assert_eq!(result, Err(KeyboardError::ObserverThreadLost("closed".to_string())));
    assert_eq!(
        result.unwrap_err().reason(),
        "raw input observer thread terminated before reporting status: closed"
    );
    assert_eq!(session, quiet());
}

#[test]
fn reported_failure_is_handed_on() {
    let mut session = quiet();
    assert_eq!(
        finish_start(&mut session, Ok(Err(KeyboardError::CreateWindow))),
        Err(KeyboardError::CreateWindow)
    );
    assert_eq!(session, quiet());
}

#[test]
fn outcome_of_another_observer_action_is_ignored() {
    let (mut session, thread) = subscribing(5);
    let (thread, action) = thread.advance(&mut session, ObserverOutcome::Reported);
    assert_eq!(action, None);
    assert_eq!(thread, ObserverThread::Subscribing { hwnd: 5 });
    let (thread, action) = thread.advance(&mut session, ObserverOutcome::Window(6));
    assert_eq!(action, None);
    assert_eq!(thread, ObserverThread::Subscribing { hwnd: 5 });
    assert!(session.running);
    assert_eq!(session.hwnd, 0);
}

#[test]
fn stop_needs_a_running_window() {
    let mut session = quiet();
    assert_eq!(stop(&session), None);
    session.running = true;
    assert_eq!(stop(&session), None);
    session.hwnd = 1;
    assert!(stop(&session).is_some());
    session.running = false;
    assert_eq!(stop(&session), None);
}

#[test]
fn cleanup_keeps_only_the_modifiers() {
    let (mut session, _) = observing(3, 4);
    session.modifiers.win = true;
    cleanup(&mut session);
    assert!(!session.running);
    assert_eq!((session.hwnd, session.thread_id), (0, 0));
    assert_eq!(session.slot.tsfn, None);
    assert!(session.modifiers.win);
}

#[test]
fn window_messages_are_told_apart() {
    assert_eq!(window_proc(WM_INPUT), WindowStep::HandleInput);
    assert_eq!(window_proc(WM_DESTROY), WindowStep::Quit { exit_code: 0 });
    assert_eq!(window_proc(WM_CLOSE), WindowStep::Default);
    assert_eq!(window_proc(0), WindowStep::Default);
}

#[test]
fn only_the_end_of_the_window_is_kept_from_default_handling() {
    for message in [WM_INPUT, WM_CLOSE, 0, WM_KEYDOWN, u32::MAX] {
        assert_eq!(window_reply(window_proc(message)), WindowReply::Default);
    }
    assert_eq!(window_reply(window_proc(WM_DESTROY)), WindowReply::Return(0));
}

#[test]
fn keyboard_input_becomes_an_event_without_character() {
    let (mut session, _) = observing(3, 4);
    let event = handle_raw_input(&mut session, 40, RIM_TYPEKEYBOARD, raw(0x41, 0));
    assert_eq!(
        event,
        Some(KeyEvent {
            vk: 0x41,
            scancode: 0x2A,
            down: true,
            alt: false,
            ctrl: false,
            shift: false,
            win: false,
            character: None,
        })
    );
}

#[test]
fn lowest_flag_marks_a_release() {
    let (mut session, _) = observing(3, 4);
    for (flags, down) in [(0u16, true), (1, false), (2, true), (3, false), (0xFFFE, true)] {
        let input = raw(VK_LSHIFT as u16, flags);
        let event = handle_raw_input(&mut session, 1, RIM_TYPEKEYBOARD, input).unwrap();
        assert_eq!((event.down, event.shift), (down, down));
    }
}

#[test]
fn anything_but_keyboard_input_is_ignored() {
    let (mut session, _) = observing(3, 4);
    let press = raw(VK_LSHIFT as u16, 0);
    assert_eq!(handle_raw_input(&mut session, 0, RIM_TYPEKEYBOARD, press), None);
    assert_eq!(handle_raw_input(&mut session, u32::MAX, RIM_TYPEKEYBOARD, press), None);
    assert_eq!(handle_raw_input(&mut session, 0x8000_0000, RIM_TYPEKEYBOARD, press), None);
    assert_eq!(handle_raw_input(&mut session, 40, 0, press), None);
    assert_eq!(handle_raw_input(&mut session, 40, 2, press), None);
    assert_eq!(session.modifiers, Modifiers::released());
    assert!(handle_raw_input(&mut session, 0x7FFF_FFFF, RIM_TYPEKEYBOARD, press).is_some());
    assert!(session.modifiers.shift);
}

#[test]
fn hook_and_observer_report_the_same_key_alike() {
    let (mut session, _) = observing(3, 4);
    let mut hook: HookSession<u8> = HookSession::new();
    for (vk, down) in [(VK_LSHIFT, true), (0x41, true), (0x41, false), (VK_LSHIFT, false)] {
        let message = if down { WM_KEYDOWN } else { WM_KEYUP };
        let input = KeyboardInput { vk_code: vk, scan_code: 0x2A };
        let hooked = match process_key(&mut hook, message as usize, Some(input)) {
            KeyStep::Deliver { event } => event,
            KeyStep::Translate { pending, .. } => pending,
            KeyStep::CallNextHook => panic!("no event"),
        };
        let flags = if down { 0 } else { 1 };
        let seen = handle_raw_input(&mut session, 1, RIM_TYPEKEYBOARD, raw(vk as u16, flags));
        assert_eq!(Some(hooked), seen);
        assert_eq!(hook.modifiers, session.modifiers);
    }
}
