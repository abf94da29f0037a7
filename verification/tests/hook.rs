use native_keyboard::error::KeyboardError;
use native_keyboard::modifiers::Modifiers;
use native_keyboard::tsfn::TsfnSlot;
use native_keyboard::win32::{
    VK_LCONTROL, VK_LSHIFT, VK_LWIN, VK_MENU, WM_KEYDOWN, WM_KEYUP, WM_QUIT, WM_SYSKEYDOWN,
    WM_SYSKEYUP,
};
use native_keyboard::win_hook::{
    complete_key, conclude, finish_install, finish_uninstall, install, key_reply,
    low_level_keyboard_proc, may_wait, process_key, uninstall, HookAction, HookOutcome,
    HookReply, HookRequest, HookSession, HookThread, KeyStep, KeyboardInput, ThreadMessage,
};
use native_keyboard::KeyEvent;

const DOWN: usize = WM_KEYDOWN as usize;
const UP: usize = WM_KEYUP as usize;

fn idle() -> HookSession<&'static str> {
    HookSession::new()
}

fn pumping(id: u32) -> (HookSession<&'static str>, HookThread) {
    let mut session = idle();
    let (mut thread, action) = install(&mut session, "callback").unwrap();
    assert_eq!(action, HookAction::GetModuleHandle);
    assert_eq!(
        thread.advance(&mut session, HookOutcome::ModuleHandle(Ok(()))),
        Some(HookAction::SetHook(HookRequest { kind: 13, thread_id: 0 }))
    );
    assert_eq!(
        thread.advance(&mut session, HookOutcome::Hook(Ok(id))),
        Some(HookAction::Report(Ok(id)))
    );
    assert_eq!(finish_install(&mut session, Ok(Ok(id))), Ok(()));
    assert_eq!(
        thread.advance(&mut session, HookOutcome::Reported),
        Some(HookAction::GetMessage)
    );
    (session, thread)
}

fn key(vk_code: u32) -> Option<KeyboardInput> {
    Some(KeyboardInput { vk_code, scan_code: 0x1E })
}

fn event_of(step: KeyStep) -> KeyEvent {
    match step {
        KeyStep::Deliver { event } => event,
        KeyStep::Translate { pending, .. } => pending,
        KeyStep::CallNextHook => panic!("no event"),
    }
}

#[test]
fn new_hook_session_is_idle() {
    let session = idle();
    assert!(!session.running);
    assert_eq!(session.thread_id, 0);
    assert_eq!(session.modifiers, Modifiers::released());
    assert_eq!(session.slot.tsfn, None);
}

#[test]
fn hook_runs_from_install_to_quit() {
    let (mut session, mut thread) = pumping(42);
    assert!(session.running);
    assert_eq!(session.thread_id, 42);
    assert_eq!(session.slot.tsfn, Some("callback"));
    assert_eq!(
        thread.advance(&mut session, HookOutcome::Message(1)),
        Some(HookAction::GetMessage)
    );
    assert_eq!(
        uninstall(&session),
        Some(ThreadMessage { thread_id: 42, message: WM_QUIT, wparam: 0, lparam: 0 })
    );
    assert_eq!(
        thread.advance(&mut session, HookOutcome::Message(0)),
        Some(HookAction::Unhook)
    );
    assert!(session.running);
    assert_eq!(
        thread.advance(&mut session, HookOutcome::Unhooked),
        Some(HookAction::Exit)
    );
    assert_eq!(thread, HookThread::Finished);
    assert_eq!(session, idle());
    assert_eq!(uninstall(&session), None);
    assert!(install(&mut session, "again").is_ok());
}

#[test]
fn any_nonzero_wait_keeps_the_hook_pumping() {
    let (mut session, mut thread) = pumping(8);
    for returned in [1, 2, -1, i32::MIN, i32::MAX] {
        assert_eq!(
            thread.advance(&mut session, HookOutcome::Message(returned)),
            Some(HookAction::GetMessage)
        );
        assert_eq!(thread, HookThread::Pumping);
    }
}

#[test]
fn second_install_is_refused_and_changes_nothing() {
    let (mut session, _) = pumping(7);
    session.modifiers.shift = true;
    assert_eq!(install(&mut session, "other"), Err(KeyboardError::HookAlreadyInstalled));
    assert!(session.running);
    assert_eq!(session.thread_id, 7);
    assert!(session.modifiers.shift);
    assert_eq!(session.slot.tsfn, Some("callback"));
}

#[test]
fn install_forgets_modifiers_of_an_earlier_cycle() {
    let mut session = idle();
    session.modifiers = Modifiers { shift: true, ctrl: true, alt: true, win: true };
    session.slot = TsfnSlot { tsfn: Some("left over") };
    assert!(install(&mut session, "callback").is_ok());
    assert_eq!(session.modifiers, Modifiers::released());
    assert_eq!(session.slot.tsfn, Some("callback"));
}

#[test]
fn failed_module_handle_is_reported_and_frees_the_hook_session() {
    let mut session = idle();
    let (mut thread, _) = install(&mut session, "callback").unwrap();
    let error = KeyboardError::ModuleHandle("no module".to_string());
    assert_eq!(error.reason(), "GetModuleHandleW failed: no module");
    assert_eq!(
        thread.advance(&mut session, HookOutcome::ModuleHandle(Err("no module".to_string()))),
        Some(HookAction::Report(Err(KeyboardError::ModuleHandle("no module".to_string()))))
    );
    // Until the report is out, the session stays claimed.
    assert!(session.running);
    assert_eq!(thread.advance(&mut session, HookOutcome::Reported), Some(HookAction::Exit));
    assert_eq!(session, idle());
    assert_eq!(
        finish_install(&mut session, Ok(Err(KeyboardError::ModuleHandle("x".to_string())))),
        Err(KeyboardError::ModuleHandle("x".to_string()))
    );
}

#[test]
fn refused_hook_is_reported_and_frees_the_session() {
    let mut session = idle();
    let (mut thread, _) = install(&mut session, "callback").unwrap();
    thread.advance(&mut session, HookOutcome::ModuleHandle(Ok(())));
    let report = thread.advance(&mut session, HookOutcome::Hook(Err("denied".to_string())));
    match report {
        Some(HookAction::Report(Err(e))) => {
            assert_eq!(e.reason(), "SetWindowsHookExW failed: denied");
        }
        _ => panic!("no report"),
    }
    assert_eq!(thread.advance(&mut session, HookOutcome::Reported), Some(HookAction::Exit));
    assert_eq!(session, idle());
}

#[test]
fn lost_hook_thread_frees_the_session() {
    let mut session = idle();
    assert!(install(&mut session, "callback").is_ok());
    let result = finish_install(&mut session, Err("channel closed".to_string()));
    assert_eq!(result, Err(KeyboardError::HookThreadLost("channel closed".to_string())));
    assert_eq!(
        result.unwrap_err().reason(),
        "hook thread terminated before reporting status: channel closed"
    );
    assert_eq!(session, idle());
}

#[test]
fn outcome_of_another_hook_action_is_ignored() {
    let mut session = idle();
    let (mut thread, _) = install(&mut session, "callback").unwrap();
    for outcome in [
        HookOutcome::Hook(Ok(1)),
        HookOutcome::Reported,
        HookOutcome::Message(1),
        HookOutcome::Message(0),
        HookOutcome::Unhooked,
    ] {
        assert_eq!(thread.advance(&mut session, outcome), None);
        assert_eq!(thread, HookThread::Loading);
        assert!(session.running);
        assert_eq!(session.thread_id, 0);
    }
    let mut ended = HookThread::Finished;
    assert_eq!(ended.advance(&mut session, HookOutcome::Unhooked), None);
}

#[test]
fn uninstall_needs_a_running_thread() {
    let mut session = idle();
    assert_eq!(uninstall(&session), None);
    session.running = true;
    assert_eq!(uninstall(&session), None);
    session.thread_id = 5;
    assert!(uninstall(&session).is_some());
    session.running = false;
    assert_eq!(uninstall(&session), None);
}

#[test]
fn finished_uninstall_leaves_the_session_idle() {
    let (mut session, mut thread) = pumping(42);
    session.modifiers.ctrl = true;
    assert!(uninstall(&session).is_some());
    thread.advance(&mut session, HookOutcome::Message(0));
    thread.advance(&mut session, HookOutcome::Unhooked);
    finish_uninstall(&mut session);
    assert!(!session.running);
    assert_eq!(session.thread_id, 0);
    assert_eq!(session.slot.tsfn, None);
    assert!(session.modifiers.ctrl);
    assert_eq!(uninstall(&session), None);
    assert!(install(&mut session, "again").is_ok());
}

#[test]
fn finished_uninstall_clears_up_after_a_thread_that_panicked() {
    let (mut session, _) = pumping(42);
    assert!(session.running);
    finish_uninstall(&mut session);
    assert_eq!(session, idle());
    // Once more changes nothing.
    finish_uninstall(&mut session);
    assert_eq!(session, idle());
}

#[test]
fn unreachable_running_thread_is_not_waited_for() {
    assert!(may_wait(true, true));
    assert!(may_wait(true, false));
    assert!(may_wait(false, true));
    assert!(!may_wait(false, false));
}

#[test]
fn thread_lost_while_announcing_leaves_only_its_id() {
    let mut session = idle();
    let (mut thread, _) = install(&mut session, "callback").unwrap();
    thread.advance(&mut session, HookOutcome::ModuleHandle(Ok(())));
    thread.advance(&mut session, HookOutcome::Hook(Ok(11)));
    assert_eq!(thread, HookThread::Announcing);
    assert!(finish_install(&mut session, Err("closed".to_string())).is_err());
    assert!(!session.running);
    assert_eq!(session.slot.tsfn, None);
    assert_eq!(session.thread_id, 11);
    assert_eq!(uninstall(&session), None);
    // The next hook is granted, and its own id replaces the one left behind.
    session.modifiers.alt = true;
    let (mut thread, _) = install(&mut session, "again").unwrap();
    assert_eq!(session.modifiers, Modifiers::released());
    thread.advance(&mut session, HookOutcome::ModuleHandle(Ok(())));
    thread.advance(&mut session, HookOutcome::Hook(Ok(12)));
    assert_eq!(session.thread_id, 12);
}

#[test]
fn uninstall_keeps_the_session_claimed_until_the_thread_ends() {
    let (mut session, _) = pumping(42);
    assert_eq!(uninstall(&session), uninstall(&session));
    assert_eq!(install(&mut session, "other"), Err(KeyboardError::HookAlreadyInstalled));
}

#[test]
fn negative_codes_are_passed_on_unseen() {
    assert_eq!(low_level_keyboard_proc(-1), Some(HookReply::CallNextHook));
    assert_eq!(low_level_keyboard_proc(i32::MIN), Some(HookReply::CallNextHook));
    assert_eq!(low_level_keyboard_proc(0), None);
    assert_eq!(low_level_keyboard_proc(3), None);
}

#[test]
fn missing_keystroke_is_passed_on() {
    let (mut session, _) = pumping(1);
    let step = process_key(&mut session, DOWN, None);
    assert_eq!(step, KeyStep::CallNextHook);
    assert_eq!(key_reply(&step), HookReply::CallNextHook);
    assert_eq!(session.modifiers, Modifiers::released());
}

#[test]
fn plain_press_is_translated_and_swallowed() {
    let (mut session, _) = pumping(1);
    let step = process_key(&mut session, DOWN, key(0x41));
    assert_eq!(key_reply(&step), HookReply::Return(1));
    match step {
        KeyStep::Translate { pending, call } => {
            assert_eq!((call.vk, call.scancode, call.flags), (0x41, 0x1E, 0));
            assert_eq!(call.state, [0u8; 256]);
            let event = complete_key(pending, 1, &[0x61, 0, 0, 0, 0, 0, 0, 0]);
            assert_eq!(
                event,
                KeyEvent {
                    vk: 0x41,
                    scancode: 0x1E,
                    down: true,
                    alt: false,
                    ctrl: false,
                    shift: false,
                    win: false,
                    character: Some("a".to_string()),
                }
            );
        }
        _ => panic!("not translated"),
    }
}

#[test]
fn key_without_translation_has_no_character() {
    let (mut session, _) = pumping(1);
    match process_key(&mut session, DOWN, key(0x1B)) {
        KeyStep::Translate { pending, .. } => {
            assert_eq!(complete_key(pending, 0, &[0; 8]).character, None);
        }
        _ => panic!("not translated"),
    }
}

#[test]
fn esc_has_no_character_although_it_is_translated() {
    let (mut session, _) = pumping(1);
    let input = Some(KeyboardInput { vk_code: 0x1B, scan_code: 0x01 });
    match process_key(&mut session, DOWN, input) {
        KeyStep::Translate { pending, call } => {
            assert_eq!((call.vk, call.scancode), (0x1B, 0x01));
            let event = complete_key(pending, 1, &[0x1B, 0, 0, 0, 0, 0, 0, 0]);
            assert_eq!((event.vk, event.down), (0x1B, true));
            assert_eq!(event.character, None);
        }
        _ => panic!("not translated"),
    }
}

#[test]
fn release_has_no_character_and_is_swallowed() {
    let (mut session, _) = pumping(1);
    for message in [UP, WM_SYSKEYUP as usize] {
        let step = process_key(&mut session, message, key(0x41));
        assert_eq!(key_reply(&step), HookReply::Return(1));
        match step {
            KeyStep::Deliver { event } => {
                assert!(!event.down);
                assert_eq!(event.character, None);
            }
            _ => panic!("not delivered at once"),
        }
    }
}

#[test]
fn modifier_press_shows_itself_and_has_no_character() {
    let (mut session, _) = pumping(1);
    match process_key(&mut session, DOWN, key(VK_LSHIFT)) {
        KeyStep::Deliver { event } => {
            assert!(event.down && event.shift);
            assert_eq!(event.character, None);
        }
        _ => panic!("translated"),
    }
    let event = event_of(process_key(&mut session, UP, key(VK_LSHIFT)));
    assert!(!event.down && !event.shift);
}

#[test]
fn ctrl_without_alt_makes_no_text() {
    let (mut session, _) = pumping(1);
    process_key(&mut session, DOWN, key(VK_LCONTROL));
    match process_key(&mut session, DOWN, key(0x41)) {
        KeyStep::Deliver { event } => {
            assert!(event.down && event.ctrl && !event.alt);
            assert_eq!(event.character, None);
        }
        _ => panic!("translated"),
    }
    process_key(&mut session, WM_SYSKEYDOWN as usize, key(VK_MENU));
    match process_key(&mut session, WM_SYSKEYDOWN as usize, key(0x41)) {
        KeyStep::Translate { pending, call } => {
            assert!(pending.ctrl && pending.alt);
            assert_eq!(call.state[0x11], 0x80);
            assert_eq!(call.state[0x12], 0x80);
            assert_eq!(call.state[0x10], 0);
        }
        _ => panic!("not translated"),
    }
}

#[test]
fn events_carry_every_held_modifier() {
    let (mut session, _) = pumping(1);
    process_key(&mut session, DOWN, key(VK_LSHIFT));
    process_key(&mut session, DOWN, key(VK_LWIN));
    let event = event_of(process_key(&mut session, DOWN, key(0x42)));
    assert!(event.shift && event.win && !event.ctrl && !event.alt);
    assert_eq!(session.thread_id, 1);
    assert_eq!(session.slot.tsfn, Some("callback"));
}

#[test]
fn other_messages_are_reported_but_move_nothing() {
    let (mut session, _) = pumping(1);
    let step = process_key(&mut session, 0x0200, key(VK_LSHIFT));
    assert_eq!(key_reply(&step), HookReply::Return(1));
    let event = event_of(step);
    assert!(!event.down && !event.shift);
    assert_eq!(session.modifiers, Modifiers::released());
}

#[test]
fn only_low_bits_of_the_message_count() {
    let (mut session, _) = pumping(1);
    let message = (1usize << 33) | DOWN;
    assert!(event_of(process_key(&mut session, message, key(VK_LSHIFT))).shift);
}

#[test]
fn panic_while_processing_passes_the_key_on() {
    assert_eq!(conclude(None), HookReply::CallNextHook);
    assert_eq!(conclude(Some(HookReply::Return(1))), HookReply::Return(1));
    assert_eq!(conclude(Some(HookReply::CallNextHook)), HookReply::CallNextHook);
}

#[test]
fn callback_is_lent_while_stored() {
    let mut slot: TsfnSlot<u32> = TsfnSlot::empty();
    assert_eq!(slot.with_tsfn(|t| *t + 1), None);
    slot.store_tsfn(4);
    assert_eq!(slot.with_tsfn(|t| *t + 1), Some(5));
    slot.store_tsfn(6);
    assert_eq!(slot.take_tsfn(), Some(6));
    assert_eq!(slot.take_tsfn(), None);
    assert_eq!(slot.with_tsfn(|t| *t + 1), None);
}
