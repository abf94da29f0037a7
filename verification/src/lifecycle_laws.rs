//! How the pipelines start, run and end, said in the fields of sessions and
//! the values of messages, of any call of the functions that take part.

use vstd::prelude::*;

use crate::error::KeyboardError;
use crate::hook_laws::{HookInput, HookSystem};
use crate::modifiers::Transition;
use crate::observer_laws::{ObserverInput, ObserverSystem};
use crate::raw_input::{
    cleanup, finish_start, start, stop, window_class_name, ObserverAction, ObserverOutcome,
    ObserverSession, ObserverThread, WindowMessage,
};
use crate::tsfn::TsfnSlot;
use crate::win_hook::{
    finish_install, finish_uninstall, install, may_wait, uninstall, HookAction, HookOutcome,
    HookSession, HookThread, ThreadMessage,
};
use crate::{
    install_keyboard_hook, start_raw_input_observer, stop_raw_input_observer,
    uninstall_keyboard_hook, Platform,
};

verus! {

/// Installing is refused exactly while a hook is marked as installed, and then
/// changes nothing. Otherwise the session is marked, holds the new callback
/// and has every modifier up, and the thread begins with the module handle.
pub proof fn law_installing<T>(
    session: &mut HookSession<T>,
    tsfn: T,
    r: Result<(HookThread, HookAction), KeyboardError>,
)
    requires
        call_ensures(install::<T>, (session, tsfn), r),
    ensures
        r is Err <==> old(session).running,
        r matches Err(e) ==> e is HookAlreadyInstalled && *final(session) == *old(session),
        r matches Ok((thread, action)) ==> {
            &&& thread is Loading
            &&& action is GetModuleHandle
            &&& final(session).running
            &&& final(session).slot.tsfn == Some(tsfn)
            &&& final(session).thread_id == old(session).thread_id
            &&& !final(session).modifiers.shift
            &&& !final(session).modifiers.ctrl
            &&& !final(session).modifiers.alt
            &&& !final(session).modifiers.win
        },
{
}

/// Starting the observer is refused exactly while one is marked as running,
/// and then changes nothing. Otherwise the session is marked, holds the new
/// callback and has every modifier up, and the thread begins with the module
/// handle.
pub proof fn law_starting<T>(
    session: &mut ObserverSession<T>,
    tsfn: T,
    r: Result<(ObserverThread, ObserverAction), KeyboardError>,
)
    requires
        call_ensures(start::<T>, (session, tsfn), r),
    ensures
        r is Err <==> old(session).running,
        r matches Err(e) ==> e is ObserverAlreadyRunning && *final(session) == *old(session),
        r matches Ok((thread, action)) ==> {
            &&& thread is Loading
            &&& action is GetModuleHandle
            &&& final(session).running
            &&& final(session).slot.tsfn == Some(tsfn)
            &&& final(session).hwnd == old(session).hwnd
            &&& final(session).thread_id == old(session).thread_id
            &&& !final(session).modifiers.shift
            &&& !final(session).modifiers.ctrl
            &&& !final(session).modifiers.alt
            &&& !final(session).modifiers.win
        },
{
}

/// New sessions are marked as not running, name no thread and no window, hold
/// no callback and have every modifier up.
pub proof fn law_new_sessions<T>(hook: HookSession<T>, observer: ObserverSession<T>)
    requires
        call_ensures(HookSession::<T>::new, (), hook),
        call_ensures(ObserverSession::<T>::new, (), observer),
    ensures
        !hook.running && hook.thread_id == 0 && hook.slot.tsfn is None,
        !hook.modifiers.shift && !hook.modifiers.ctrl && !hook.modifiers.alt
            && !hook.modifiers.win,
        !observer.running && observer.hwnd == 0 && observer.thread_id == 0
            && observer.slot.tsfn is None,
        !observer.modifiers.shift && !observer.modifiers.ctrl && !observer.modifiers.alt
            && !observer.modifiers.win,
{
}

/// What a step of the hook thread may do to the session: no outcome ever
/// touches the modifiers; the thread id changes only when the hook is set, to
/// the id of that thread, and when it is removed, to 0; the mark and the
/// callback change only when the thread is told to exit, and then both go. An
/// outcome that does not belong to the thread's stand does nothing at all.
pub proof fn law_hook_thread_and_session<T>(
    thread: &mut HookThread,
    session: &mut HookSession<T>,
    outcome: HookOutcome,
    r: Option<HookAction>,
)
    requires
        call_ensures(HookThread::advance::<T>, (thread, session, outcome), r),
    ensures
        final(session).modifiers == old(session).modifiers,
        final(session).thread_id == (match (*old(thread), outcome) {
            (HookThread::Hooking, HookOutcome::Hook(Ok(id))) => id,
            (HookThread::Unhooking, HookOutcome::Unhooked) => 0,
            _ => old(session).thread_id,
        }),
        r == Some(HookAction::Exit) ==> {
            &&& !final(session).running
            &&& final(session).slot.tsfn is None
        },
        r != Some(HookAction::Exit) ==> {
            &&& final(session).running == old(session).running
            &&& final(session).slot == old(session).slot
        },
        r is None ==> *final(thread) == *old(thread) && *final(session) == *old(session),
{
}

/// The order of the hook thread's actions. What it is told to do follows from
/// how its present action went: a hook for the keyboard input of all threads
/// after a module handle; a report of success, with the thread's id, after the
/// hook; messages after that report, for as long as waiting returns anything
/// but 0; then the removal of the hook, and the end. A refusal is reported
/// with its own words, and the end follows. Its stand is always that of the
/// action it was told.
pub proof fn law_order_of_hook_actions<T>(
    thread: &mut HookThread,
    session: &mut HookSession<T>,
    outcome: HookOutcome,
    r: Option<HookAction>,
)
    requires
        call_ensures(HookThread::advance::<T>, (thread, session, outcome), r),
    ensures
        r is Some <==> match outcome {
            HookOutcome::ModuleHandle(_) => *old(thread) is Loading,
            HookOutcome::Hook(_) => *old(thread) is Hooking,
            HookOutcome::Reported => *old(thread) is Failing || *old(thread) is Announcing,
            HookOutcome::Message(_) => *old(thread) is Pumping,
            HookOutcome::Unhooked => *old(thread) is Unhooking,
        },
        r matches Some(action) ==> match action {
            HookAction::GetModuleHandle => false,
            HookAction::SetHook(request) => {
                &&& *final(thread) is Hooking
                &&& outcome matches HookOutcome::ModuleHandle(result) && result is Ok
                &&& request.kind == 13
                &&& request.thread_id == 0
            },
            HookAction::Report(Ok(id)) => {
                &&& *final(thread) is Announcing
                &&& outcome == HookOutcome::Hook(Ok(id))
            },
            HookAction::Report(Err(KeyboardError::ModuleHandle(detail))) => {
                &&& *final(thread) is Failing
                &&& outcome == HookOutcome::ModuleHandle(Err(detail))
            },
            HookAction::Report(Err(KeyboardError::SetHook(detail))) => {
                &&& *final(thread) is Failing
                &&& outcome == HookOutcome::Hook(Err(detail))
            },
            HookAction::Report(Err(_)) => false,
            HookAction::GetMessage => {
                &&& *final(thread) is Pumping
                &&& *old(thread) is Announcing || (outcome matches HookOutcome::Message(returned)
                    && returned != 0)
            },
            HookAction::Unhook => {
                &&& *final(thread) is Unhooking
                &&& outcome == HookOutcome::Message(0)
            },
            HookAction::Exit => {
                &&& *final(thread) is Finished
                &&& *old(thread) is Failing || *old(thread) is Unhooking
            },
        },
{
}

/// What a step of the observer thread may do to the session: no outcome ever
/// touches the modifiers; window and thread id are set together when the
/// subscription is granted, and go, with the mark and the callback, when the
/// thread is told to exit. An outcome that does not belong to the thread's
/// stand does nothing at all.
pub proof fn law_observer_thread_and_session<T>(
    thread: ObserverThread,
    session: &mut ObserverSession<T>,
    outcome: ObserverOutcome,
    r: (ObserverThread, Option<ObserverAction>),
)
    requires
        call_ensures(ObserverThread::advance::<T>, (thread, session, outcome), r),
    ensures
        final(session).modifiers == old(session).modifiers,
        r.1 == Some(ObserverAction::Exit) ==> {
            &&& !final(session).running
            &&& final(session).hwnd == 0
            &&& final(session).thread_id == 0
            &&& final(session).slot.tsfn is None
        },
        r.1 != Some(ObserverAction::Exit) ==> {
            &&& final(session).running == old(session).running
            &&& final(session).slot == old(session).slot
            &&& match (thread, outcome) {
                (ObserverThread::Subscribing { hwnd }, ObserverOutcome::Registered(Ok(id))) => {
                    final(session).hwnd == hwnd && final(session).thread_id == id
                },
                _ => {
                    &&& final(session).hwnd == old(session).hwnd
                    &&& final(session).thread_id == old(session).thread_id
                },
            }
        },
        r.1 is None ==> r.0 == thread && *final(session) == *old(session),
{
}

/// The order of the observer thread's actions. What it is told to do follows
/// from how its present action went: a message-only window after a module
/// handle; keyboard input for that window, also in the background, after the
/// window; a report of success after the subscription; messages after that
/// report, each dispatched, for as long as waiting returns anything but 0;
/// then the end of the subscription, of that very window, and of the thread. A
/// refusal is reported with its own words, after the window of a refused
/// subscription was destroyed, and the end follows. Its stand is always that
/// of the action it was told, with the window it owns.
pub proof fn law_order_of_observer_actions<T>(
    thread: ObserverThread,
    session: &mut ObserverSession<T>,
    outcome: ObserverOutcome,
    r: (ObserverThread, Option<ObserverAction>),
)
    requires
        call_ensures(ObserverThread::advance::<T>, (thread, session, outcome), r),
    ensures
        r.1 is Some <==> match outcome {
            ObserverOutcome::ModuleHandle(_) => thread is Loading,
            ObserverOutcome::Window(_) => thread is Creating,
            ObserverOutcome::Registered(_) => thread is Subscribing || thread is Unsubscribing,
            ObserverOutcome::Destroyed => thread is Discarding || thread is Destroying,
            ObserverOutcome::Reported => thread is Failing || thread is Announcing,
            ObserverOutcome::Message(_) => thread is Pumping,
            ObserverOutcome::Dispatched => thread is Dispatching,
        },
        r.1 matches Some(action) ==> match action {
            ObserverAction::GetModuleHandle => false,
            ObserverAction::CreateWindow(request) => {
                &&& r.0 is Creating
                &&& outcome matches ObserverOutcome::ModuleHandle(result) && result is Ok
                &&& request.parent == -3
                &&& request.style == 0 && request.ex_style == 0
                &&& request.x == i32::MIN && request.y == i32::MIN
                &&& request.width == i32::MIN && request.height == i32::MIN
            },
            ObserverAction::RegisterDevices(registration) => {
                &&& registration.usage_page == 1 && registration.usage == 6
                &&& match outcome {
                    ObserverOutcome::Window(hwnd) => {
                        &&& hwnd != 0
                        &&& r.0 == (ObserverThread::Subscribing { hwnd })
                        &&& registration.flags == 0x100
                        &&& registration.target == hwnd
                    },
                    ObserverOutcome::Message(returned) => {
                        &&& returned == 0
                        &&& thread matches ObserverThread::Pumping { hwnd } && r.0 == (
                        ObserverThread::Unsubscribing { hwnd })
                        &&& registration.flags == 1
                        &&& registration.target == 0
                    },
                    _ => false,
                }
            },
            ObserverAction::DestroyWindow(window) => match thread {
                ObserverThread::Subscribing { hwnd } => {
                    &&& window == hwnd
                    &&& r.0 matches ObserverThread::Discarding { hwnd: kept, reason } && kept
                        == hwnd && outcome == ObserverOutcome::Registered(Err(reason))
                },
                ObserverThread::Unsubscribing { hwnd } => {
                    &&& window == hwnd
                    &&& r.0 == (ObserverThread::Destroying { hwnd })
                },
                _ => false,
            },
            ObserverAction::Report(Ok(_)) => {
                &&& thread matches ObserverThread::Subscribing { hwnd } && r.0 == (
                ObserverThread::Announcing { hwnd })
                &&& outcome matches ObserverOutcome::Registered(result) && result is Ok
            },
            ObserverAction::Report(Err(KeyboardError::ModuleHandle(detail))) => {
                &&& r.0 is Failing
                &&& outcome == ObserverOutcome::ModuleHandle(Err(detail))
            },
            ObserverAction::Report(Err(KeyboardError::CreateWindow)) => {
                &&& r.0 is Failing
                &&& outcome == ObserverOutcome::Window(0)
            },
            ObserverAction::Report(Err(KeyboardError::RegisterDevices(detail))) => {
                &&& r.0 is Failing
                &&& thread matches ObserverThread::Discarding { reason, .. } && reason == detail
            },
            ObserverAction::Report(Err(_)) => false,
            ObserverAction::GetMessage => match thread {
                ObserverThread::Announcing { hwnd } => r.0 == (ObserverThread::Pumping { hwnd }),
                ObserverThread::Dispatching { hwnd } => r.0 == (ObserverThread::Pumping { hwnd }),
                _ => false,
            },
            ObserverAction::DispatchMessage => {
                &&& thread matches ObserverThread::Pumping { hwnd } && r.0 == (
                ObserverThread::Dispatching { hwnd })
                &&& outcome matches ObserverOutcome::Message(returned) && returned != 0
            },
            ObserverAction::Exit => {
                &&& r.0 is Finished
                &&& thread is Failing || thread is Destroying
            },
        },
{
}

/// Waiting for the hook thread ends as the thread reported, and touches the
/// session only where no report came: then the mark and the callback go, and
/// nothing else.
pub proof fn law_end_of_installing<T>(
    session: &mut HookSession<T>,
    received: Result<Result<u32, KeyboardError>, String>,
    r: Result<(), KeyboardError>,
)
    requires
        call_ensures(finish_install::<T>, (session, received), r),
    ensures
        r is Ok <==> received is Ok && received->Ok_0 is Ok,
        received matches Ok(Err(e)) ==> r->Err_0 == e,
        received matches Err(detail) ==> r->Err_0 == KeyboardError::HookThreadLost(detail),
        received is Ok ==> *final(session) == *old(session),
        received is Err ==> {
            &&& !final(session).running
            &&& final(session).slot.tsfn is None
            &&& final(session).thread_id == old(session).thread_id
            &&& final(session).modifiers == old(session).modifiers
        },
{
}

/// Waiting for the observer thread ends as the thread reported, and touches
/// the session only where no report came: then all but the modifiers goes.
pub proof fn law_end_of_starting<T>(
    session: &mut ObserverSession<T>,
    received: Result<Result<(), KeyboardError>, String>,
    r: Result<(), KeyboardError>,
)
    requires
        call_ensures(finish_start::<T>, (session, received), r),
    ensures
        r is Ok <==> received is Ok && received->Ok_0 is Ok,
        received matches Ok(Err(e)) ==> r->Err_0 == e,
        received matches Err(detail) ==> r->Err_0 == KeyboardError::ObserverThreadLost(detail),
        received is Ok ==> *final(session) == *old(session),
        received is Err ==> {
            &&& !final(session).running
            &&& final(session).hwnd == 0
            &&& final(session).thread_id == 0
            &&& final(session).slot.tsfn is None
            &&& final(session).modifiers == old(session).modifiers
        },
{
}

/// Giving a session up leaves it without mark, thread, window and callback;
/// the modifiers stay until the next start.
pub proof fn law_giving_up<T>(hook: &mut HookSession<T>, observer: &mut ObserverSession<T>)
    requires
        call_ensures(finish_uninstall::<T>, (hook,), ()),
        call_ensures(cleanup::<T>, (observer,), ()),
    ensures
        !final(hook).running && final(hook).thread_id == 0 && final(hook).slot.tsfn is None,
        final(hook).modifiers == old(hook).modifiers,
        !final(observer).running && final(observer).hwnd == 0 && final(observer).thread_id == 0
            && final(observer).slot.tsfn is None,
        final(observer).modifiers == old(observer).modifiers,
{
}

/// Uninstalling posts a quit message to the session's thread exactly if a hook
/// is marked as installed and its thread is known; and the thread is waited
/// for exactly if it was reached or has ended.
pub proof fn law_uninstalling<T>(
    session: HookSession<T>,
    r: Option<ThreadMessage>,
    posted: bool,
    ended: bool,
    wait: bool,
)
    requires
        call_ensures(uninstall::<T>, (&session,), r),
        call_ensures(may_wait, (posted, ended), wait),
    ensures
        r is Some <==> session.running && session.thread_id != 0,
        r matches Some(m) ==> m.thread_id == session.thread_id && m.message == 0x12 && m.wparam
            == 0 && m.lparam == 0,
        !wait <==> !posted && !ended,
{
}

/// Stopping posts a request to close to the session's window exactly if an
/// observer is marked as running and its window is known.
pub proof fn law_stopping<T>(session: ObserverSession<T>, r: Option<WindowMessage>)
    requires
        call_ensures(stop::<T>, (&session,), r),
    ensures
        r is Some <==> session.running && session.hwnd != 0,
        r matches Some(m) ==> m.hwnd == session.hwnd && m.message == 0x10 && m.wparam == 0
            && m.lparam == 0,
{
}

/// Off Windows every entry point refuses with its own error and changes
/// nothing.
pub proof fn law_entry_points_off_windows<T>(
    hook: &mut HookSession<T>,
    observer: &mut ObserverSession<T>,
    tsfn: T,
    idle_hook: HookSession<T>,
    idle_observer: ObserverSession<T>,
    installed: Result<(HookThread, HookAction), KeyboardError>,
    started: Result<(ObserverThread, ObserverAction), KeyboardError>,
    uninstalled: Result<Option<ThreadMessage>, KeyboardError>,
    stopped: Result<Option<WindowMessage>, KeyboardError>,
)
    requires
        call_ensures(install_keyboard_hook::<T>, (Platform::Other, hook, tsfn), installed),
        call_ensures(start_raw_input_observer::<T>, (Platform::Other, observer, tsfn), started),
        call_ensures(uninstall_keyboard_hook::<T>, (Platform::Other, &idle_hook), uninstalled),
        call_ensures(stop_raw_input_observer::<T>, (Platform::Other, &idle_observer), stopped),
    ensures
        installed matches Err(e) && e is HookUnsupported,
        started matches Err(e) && e is ObserverUnsupported,
        uninstalled matches Err(e) && e is UninstallUnsupported,
        stopped matches Err(e) && e is StopUnsupported,
        *final(hook) == *old(hook),
        *final(observer) == *old(observer),
{
}

/// On Windows the entry points grant, refuse and post as the pipelines do.
pub proof fn law_entry_points_on_windows<T>(
    hook: &mut HookSession<T>,
    observer: &mut ObserverSession<T>,
    tsfn: T,
    other_hook: HookSession<T>,
    other_observer: ObserverSession<T>,
    installed: Result<(HookThread, HookAction), KeyboardError>,
    started: Result<(ObserverThread, ObserverAction), KeyboardError>,
    uninstalled: Result<Option<ThreadMessage>, KeyboardError>,
    stopped: Result<Option<WindowMessage>, KeyboardError>,
)
    requires
        call_ensures(install_keyboard_hook::<T>, (Platform::Windows, hook, tsfn), installed),
        call_ensures(start_raw_input_observer::<T>, (Platform::Windows, observer, tsfn), started),
        call_ensures(
            uninstall_keyboard_hook::<T>,
            (Platform::Windows, &other_hook),
            uninstalled,
        ),
        call_ensures(
            stop_raw_input_observer::<T>,
            (Platform::Windows, &other_observer),
            stopped,
        ),
    ensures
        installed is Err <==> old(hook).running,
        installed matches Err(e) ==> e is HookAlreadyInstalled && *final(hook) == *old(hook),
        installed matches Ok((thread, action)) ==> {
            &&& thread is Loading && action is GetModuleHandle
            &&& final(hook).running && final(hook).slot.tsfn == Some(tsfn)
            &&& final(hook).thread_id == old(hook).thread_id
            &&& !final(hook).modifiers.shift && !final(hook).modifiers.ctrl
            &&& !final(hook).modifiers.alt && !final(hook).modifiers.win
        },
        started is Err <==> old(observer).running,
        started matches Err(e) ==> {
            &&& e is ObserverAlreadyRunning
            &&& *final(observer) == *old(observer)
        },
        started matches Ok((thread, action)) ==> {
            &&& thread is Loading && action is GetModuleHandle
            &&& final(observer).running && final(observer).slot.tsfn == Some(tsfn)
            &&& final(observer).hwnd == old(observer).hwnd
            &&& final(observer).thread_id == old(observer).thread_id
            &&& !final(observer).modifiers.shift && !final(observer).modifiers.ctrl
            &&& !final(observer).modifiers.alt && !final(observer).modifiers.win
        },
        uninstalled is Ok && stopped is Ok,
        uninstalled->Ok_0 is Some <==> other_hook.running && other_hook.thread_id != 0,
        uninstalled->Ok_0 matches Some(m) ==> m.thread_id == other_hook.thread_id && m.message
            == 0x12 && m.wparam == 0 && m.lparam == 0,
        stopped->Ok_0 is Some <==> other_observer.running && other_observer.hwnd != 0,
        stopped->Ok_0 matches Some(m) ==> m.hwnd == other_observer.hwnd && m.message == 0x10
            && m.wparam == 0 && m.lparam == 0,
{
}

/// A callback that was stored is what is handed out next, once; what was there
/// before it is not.
pub proof fn law_stored_callback_is_taken_once<T>(
    stored: &mut TsfnSlot<T>,
    taken: &mut TsfnSlot<T>,
    again: &mut TsfnSlot<T>,
    empty: TsfnSlot<T>,
    tsfn: T,
    first: Option<T>,
    second: Option<T>,
)
    requires
        call_ensures(TsfnSlot::<T>::empty, (), empty),
        call_ensures(TsfnSlot::<T>::store_tsfn, (stored, tsfn), ()),
        *old(taken) == *final(stored),
        call_ensures(TsfnSlot::<T>::take_tsfn, (taken,), first),
        *old(again) == *final(taken),
        call_ensures(TsfnSlot::<T>::take_tsfn, (again,), second),
    ensures
        first == Some(tsfn),
        second is None,
        *final(taken) == empty,
        *final(again) == empty,
        empty.tsfn is None,
{
}

/// Lending a stored callback hands it to the borrower and gives back what the
/// borrower made of it; without one the borrower is not called.
pub proof fn law_lent_callback_reaches_the_borrower<T, R, F: FnOnce(&T) -> R>(
    slot: TsfnSlot<T>,
    f: F,
    r: Option<R>,
)
    requires
        call_ensures(TsfnSlot::<T>::with_tsfn::<R, F>, (&slot, f), r),
    ensures
        r is Some <==> slot.tsfn is Some,
        r matches Some(out) ==> call_ensures(f, (&slot.tsfn->0,), out),
{
}

/// What each error tells, with the words of the failing call at its end.
pub proof fn law_reasons(error: KeyboardError, r: String)
    requires
        call_ensures(KeyboardError::reason, (&error,), r),
    ensures
        r@ == match error {
            KeyboardError::HookUnsupported =>
                "install_keyboard_hook is only supported on Windows"@,
            KeyboardError::ObserverUnsupported =>
                "start_raw_input_observer is only supported on Windows"@,
            KeyboardError::UninstallUnsupported =>
                "uninstall_keyboard_hook is only supported on Windows"@,
            KeyboardError::StopUnsupported =>
                "stop_raw_input_observer is only supported on Windows"@,
            KeyboardError::HookAlreadyInstalled => "keyboard hook is already installed"@,
            KeyboardError::ObserverAlreadyRunning => "raw input observer is already running"@,
            KeyboardError::ModuleHandle(detail) => "GetModuleHandleW failed: "@ + detail@,
            KeyboardError::SetHook(detail) => "SetWindowsHookExW failed: "@ + detail@,
            KeyboardError::CreateWindow => "CreateWindowExW failed for HWND_MESSAGE"@,
            KeyboardError::RegisterDevices(detail) => "RegisterRawInputDevices failed: "@
                + detail@,
            KeyboardError::HookThreadLost(detail) =>
                "hook thread terminated before reporting status: "@ + detail@,
            KeyboardError::ObserverThreadLost(detail) =>
                "raw input observer thread terminated before reporting status: "@ + detail@,
        },
{
}

/// The observer's window class has a fixed name, ended by a zero.
pub proof fn law_window_class_name(r: [u16; 17])
    requires
        call_ensures(window_class_name, (), r),
    ensures
        r@[16] == 0,
        forall|i: int| 0 <= i < 16 ==> #[trigger] r@[i] == "NativelyRawInput"@[i] as u16,
{
    reveal_strlit("NativelyRawInput");
}

/// The transitions among the inputs of a hook: its keystrokes, by message and
/// code.
pub open spec fn hook_transitions<T>(inputs: Seq<HookInput<T>>) -> Seq<Transition>
    decreases inputs.len(),
{
    if inputs.len() == 0 {
        Seq::empty()
    } else {
        let init = hook_transitions(inputs.drop_last());
        match inputs.last() {
            HookInput::Key(wparam, Some(k)) => {
                let message = wparam as int % 0x1_0000_0000;
                init.push(
                    Transition {
                        vk: k.vk_code,
                        down: message == 0x100 || message == 0x104,
                        up: message == 0x101 || message == 0x105,
                    },
                )
            },
            _ => init,
        }
    }
}

/// Over any mix of thread outcomes, losses, ends and keystrokes without an
/// installation among them, the modifiers are those of the keystrokes alone.
pub proof fn law_only_keystrokes_move_hook_modifiers<T>(
    system: HookSystem<T>,
    inputs: Seq<HookInput<T>>,
)
    requires
        forall|i: int| 0 <= i < inputs.len() ==> !(#[trigger] inputs[i] is Install),
    ensures
        system.after_all(inputs).session.modifiers == system.session.modifiers.after_all(
            hook_transitions(inputs),
        ),
    decreases inputs.len(),
{
    if inputs.len() > 0 {
        let init = inputs.drop_last();
        assert forall|i: int| 0 <= i < init.len() implies !(#[trigger] init[i] is Install) by {
            assert(init[i] == inputs[i]);
        }
        law_only_keystrokes_move_hook_modifiers(system, init);
        assert(!(inputs[inputs.len() - 1] is Install));
        if let HookInput::Key(wparam, Some(k)) = inputs.last() {
            crate::key_laws::lemma_low_half(wparam);
            let all = hook_transitions(inputs);
            assert(all.drop_last() =~= hook_transitions(init));
        }
    }
}

/// The transitions among the inputs of an observer: its keyboard inputs, by
/// flags and code.
pub open spec fn observer_transitions<T>(inputs: Seq<ObserverInput<T>>) -> Seq<Transition>
    decreases inputs.len(),
{
    if inputs.len() == 0 {
        Seq::empty()
    } else {
        let init = observer_transitions(inputs.drop_last());
        match inputs.last() {
            ObserverInput::Key(keyboard) => init.push(
                Transition {
                    vk: keyboard.vkey as u32,
                    down: keyboard.flags & 1 == 0,
                    up: keyboard.flags & 1 != 0,
                },
            ),
            _ => init,
        }
    }
}

/// Over any mix of thread outcomes, losses and keyboard inputs without a start
/// among them, the modifiers are those of the keyboard inputs alone: a held
/// modifier is still seen on the next key, whatever was dispatched between.
pub proof fn law_only_inputs_move_observer_modifiers<T>(
    system: ObserverSystem<T>,
    inputs: Seq<ObserverInput<T>>,
)
    requires
        forall|i: int| 0 <= i < inputs.len() ==> !(#[trigger] inputs[i] is Start),
    ensures
        system.after_all(inputs).session.modifiers == system.session.modifiers.after_all(
            observer_transitions(inputs),
        ),
    decreases inputs.len(),
{
    if inputs.len() > 0 {
        let init = inputs.drop_last();
        assert forall|i: int| 0 <= i < init.len() implies !(#[trigger] init[i] is Start) by {
            assert(init[i] == inputs[i]);
        }
        law_only_inputs_move_observer_modifiers(system, init);
        assert(!(inputs[inputs.len() - 1] is Start));
        if let ObserverInput::Key(keyboard) = inputs.last() {
            let flags = keyboard.flags;
            assert(flags & 1 == flags % 2) by (bit_vector);
            let all = observer_transitions(inputs);
            assert(all.drop_last() =~= observer_transitions(init));
        }
    }
}

} // verus!
