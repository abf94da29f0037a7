//! The passive raw-input observer, which sees every keystroke and swallows
//! none.
//!
//! An observer lives on a thread of its own, with a message-only window that
//! subscribes to keyboard input. `start` claims the session and gives the
//! thread's state machine with its first action; the thread performs each
//! action and hands the outcome to `ObserverThread::advance`, which says what
//! to do next. Meanwhile the starting side waits for the thread's report and
//! passes it to `finish_start`.
//!
//! The window procedure asks `window_proc` what to do with a message, hands
//! raw input to `handle_raw_input`, and asks `window_reply` what to answer.

use vstd::prelude::*;

use crate::error::KeyboardError;
use crate::event::KeyEvent;
use crate::modifiers::Modifiers;
use crate::tsfn::TsfnSlot;
use crate::win32::{
    as_bool, CW_USEDEFAULT, HWND_MESSAGE, RIDEV_INPUTSINK, RIDEV_REMOVE, RIM_TYPEKEYBOARD, USAGE_KEYBOARD, USAGE_PAGE_GENERIC, WM_CLOSE,
    WM_DESTROY, WM_INPUT,
};

verus! {

/// What the observer and its clients share. At most one observer runs at a
/// time; `hwnd` is 0 while there is no window to close.
#[derive(Debug, PartialEq, Eq)]
pub struct ObserverSession<T> {
    pub running: bool,
    pub hwnd: isize,
    pub thread_id: u32,
    pub modifiers: Modifiers,
    pub slot: TsfnSlot<T>,
}

/// Where the observer thread stands: which action it was last told to perform,
/// and the window it owns.
#[derive(Debug, PartialEq, Eq)]
pub enum ObserverThread {
    /// Getting the module handle.
    Loading,
    /// Making the window.
    Creating,
    /// Subscribing the window to keyboard input.
    Subscribing { hwnd: isize },
    /// Destroying the window of a subscription that was refused for `reason`.
    Discarding { hwnd: isize, reason: String },
    /// Reporting a failure.
    Failing,
    /// Reporting success.
    Announcing { hwnd: isize },
    /// Waiting for a message.
    Pumping { hwnd: isize },
    /// Handing a message to the window procedure.
    Dispatching { hwnd: isize },
    /// Cancelling the subscription.
    Unsubscribing { hwnd: isize },
    /// Destroying the window.
    Destroying { hwnd: isize },
    /// Nothing is left to do.
    Finished,
}

/// A raw-input registration for one class of devices.
#[derive(Clone, Copy, Debug, PartialEq, Eq, Structural)]
pub struct DeviceRegistration {
    pub usage_page: u16,
    pub usage: u16,
    pub flags: u32,
    pub target: isize,
}

/// The window to ask the system for, of the class `window_class_name`.
#[derive(Clone, Copy, Debug, PartialEq, Eq, Structural)]
pub struct WindowRequest {
    pub ex_style: u32,
    pub style: u32,
    /// Horizontal and vertical position, width and height.
    pub x: i32,
    pub y: i32,
    pub width: i32,
    pub height: i32,
    pub parent: isize,
}

/// What the observer thread is to do.
#[derive(Debug, PartialEq, Eq)]
pub enum ObserverAction {
    GetModuleHandle,
    /// Register the window class and make a window of it.
    CreateWindow(WindowRequest),
    RegisterDevices(DeviceRegistration),
    DestroyWindow(isize),
    /// Send this to the side that waits for the start.
    Report(Result<(), KeyboardError>),
    GetMessage,
    DispatchMessage,
    Exit,
}

/// How an action of the observer thread went.
#[derive(Debug, PartialEq, Eq)]
pub enum ObserverOutcome {
    ModuleHandle(Result<(), String>),
    /// The new window, or 0.
    Window(isize),
    /// The devices are registered, by the thread with this id, or why not.
    Registered(Result<u32, String>),
    Destroyed,
    Reported,
    /// What waiting for a message returned: 0 once the pump has been told to
    /// quit, anything else, also the negative value of an error, if it goes on.
    Message(i32),
    Dispatched,
}

/// A message to post to a window.
#[derive(Clone, Copy, Debug, PartialEq, Eq, Structural)]
pub struct WindowMessage {
    pub hwnd: isize,
    pub message: u32,
    pub wparam: usize,
    pub lparam: isize,
}

/// What the window procedure does with a message.
#[derive(Clone, Copy, Debug, PartialEq, Eq, Structural)]
pub enum WindowStep {
    /// Handle raw input.
    HandleInput,
    /// Nothing of its own.
    Default,
    /// Stop the message pump with `exit_code`.
    Quit { exit_code: i32 },
}

/// What the window procedure answers the system.
#[derive(Clone, Copy, Debug, PartialEq, Eq, Structural)]
pub enum WindowReply {
    /// Whatever the default handling of the message answers.
    Default,
    /// This value, without the default handling.
    Return(isize),
}

/// What the observer reads of raw keyboard input.
#[derive(Clone, Copy, Debug, PartialEq, Eq, Structural)]
pub struct RawKeyboard {
    pub make_code: u16,
    pub flags: u16,
    pub vkey: u16,
}

/// The registration that subscribes a window to keyboard input, also while
/// another window has the foreground.
pub open spec fn subscription_of(hwnd: isize) -> DeviceRegistration {
    DeviceRegistration {
        usage_page: USAGE_PAGE_GENERIC,
        usage: USAGE_KEYBOARD,
        flags: RIDEV_INPUTSINK,
        target: hwnd,
    }
}

/// The registration that cancels the subscription. It must name no window.
pub open spec fn removal_registration() -> DeviceRegistration {
    DeviceRegistration {
        usage_page: USAGE_PAGE_GENERIC,
        usage: USAGE_KEYBOARD,
        flags: RIDEV_REMOVE,
        target: 0,
    }
}

/// A message-only window: never shown, and free of any style.
pub open spec fn message_window() -> WindowRequest {
    WindowRequest {
        ex_style: 0,
        style: 0,
        x: CW_USEDEFAULT,
        y: CW_USEDEFAULT,
        width: CW_USEDEFAULT,
        height: CW_USEDEFAULT,
        parent: HWND_MESSAGE,
    }
}

fn window_request() -> (r: WindowRequest)
    ensures
        r == message_window(),
{
    WindowRequest {
        ex_style: 0,
        style: 0,
        x: CW_USEDEFAULT,
        y: CW_USEDEFAULT,
        width: CW_USEDEFAULT,
        height: CW_USEDEFAULT,
        parent: HWND_MESSAGE,
    }
}

fn subscription(hwnd: isize) -> (r: DeviceRegistration)
    ensures
        r == subscription_of(hwnd),
{
    DeviceRegistration {
        usage_page: USAGE_PAGE_GENERIC,
        usage: USAGE_KEYBOARD,
        flags: RIDEV_INPUTSINK,
        target: hwnd,
    }
}

fn removal() -> (r: DeviceRegistration)
    ensures
        r == removal_registration(),
{
    DeviceRegistration {
        usage_page: USAGE_PAGE_GENERIC,
        usage: USAGE_KEYBOARD,
        flags: RIDEV_REMOVE,
        target: 0,
    }
}

/// The name of the observer's window class as NUL-terminated UTF-16.
pub fn window_class_name() -> (r: [u16; 17])
    ensures
        r@ == "NativelyRawInput"@.map_values(|c: char| c as u16).push(0),
{
    let name: [u16; 17] = [
        0x4E, 0x61, 0x74, 0x69, 0x76, 0x65, 0x6C, 0x79, 0x52, 0x61, 0x77, 0x49, 0x6E, 0x70, 0x75,
        0x74, 0,
    ];
    proof {
        reveal_strlit("NativelyRawInput");
        assert(name@ =~= "NativelyRawInput"@.map_values(|c: char| c as u16).push(0));
    }
    name
}

impl<T> ObserverSession<T> {
    /// No observer runs and nothing of an earlier one is left.
    pub open spec fn is_idle(self) -> bool {
        &&& !self.running
        &&& self.hwnd == 0
        &&& self.thread_id == 0
        &&& self.slot.tsfn is None
    }

    /// The session as claimed for a new observer.
    pub open spec fn claimed(self, tsfn: T) -> Self {
        ObserverSession {
            running: true,
            modifiers: Modifiers::none_down(),
            slot: TsfnSlot { tsfn: Some(tsfn) },
            ..self
        }
    }

    /// The session given up by its observer.
    pub open spec fn cleaned(self) -> Self {
        ObserverSession {
            running: false,
            hwnd: 0,
            thread_id: 0,
            slot: TsfnSlot { tsfn: None },
            ..self
        }
    }

    /// The session after raw keyboard input.
    pub open spec fn after_input(self, input: RawKeyboard) -> Self {
        ObserverSession {
            modifiers: self.modifiers.after(input.vkey as u32, input.is_down(), !input.is_down()),
            ..self
        }
    }

    /// A session before any observer.
    pub fn new() -> (r: Self)
        ensures
            r.is_idle(),
            r.modifiers == Modifiers::none_down(),
    {
        ObserverSession {
            running: false,
            hwnd: 0,
            thread_id: 0,
            modifiers: Modifiers::released(),
            slot: TsfnSlot::empty(),
        }
    }
}

impl RawKeyboard {
    /// The key went down: the lowest flag, which marks a release, is clear.
    pub open spec fn is_down(self) -> bool {
        self.flags % 2 == 0
    }
}

/// What the observer thread does on an outcome: its next stand, the session
/// after it, and the next action. `None` where the outcome does not belong to
/// the action that is under way.
pub open spec fn observer_step<T>(
    thread: ObserverThread,
    session: ObserverSession<T>,
    outcome: ObserverOutcome,
) -> Option<(ObserverThread, ObserverSession<T>, ObserverAction)> {
    match (thread, outcome) {
        (ObserverThread::Loading, ObserverOutcome::ModuleHandle(Ok(_))) => Some(
            (ObserverThread::Creating, session, ObserverAction::CreateWindow(message_window())),
        ),
        (ObserverThread::Loading, ObserverOutcome::ModuleHandle(Err(e))) => Some(
            (
                ObserverThread::Failing,
                session,
                ObserverAction::Report(Err(KeyboardError::ModuleHandle(e))),
            ),
        ),
        (ObserverThread::Creating, ObserverOutcome::Window(hwnd)) => if hwnd == 0 {
            Some(
                (
                    ObserverThread::Failing,
                    session,
                    ObserverAction::Report(Err(KeyboardError::CreateWindow)),
                ),
            )
        } else {
            Some(
                (
                    ObserverThread::Subscribing { hwnd },
                    session,
                    ObserverAction::RegisterDevices(subscription_of(hwnd)),
                ),
            )
        },
        (ObserverThread::Subscribing { hwnd }, ObserverOutcome::Registered(Ok(id))) => Some(
            (
                ObserverThread::Announcing { hwnd },
                ObserverSession { hwnd, thread_id: id, ..session },
                ObserverAction::Report(Ok(())),
            ),
        ),
        (ObserverThread::Subscribing { hwnd }, ObserverOutcome::Registered(Err(reason))) => Some(
            (
                ObserverThread::Discarding { hwnd, reason },
                session,
                ObserverAction::DestroyWindow(hwnd),
            ),
        ),
        (ObserverThread::Discarding { reason, .. }, ObserverOutcome::Destroyed) => Some(
            (
                ObserverThread::Failing,
                session,
                ObserverAction::Report(Err(KeyboardError::RegisterDevices(reason))),
            ),
        ),
        (ObserverThread::Failing, ObserverOutcome::Reported) => Some(
            (ObserverThread::Finished, session.cleaned(), ObserverAction::Exit),
        ),
        (ObserverThread::Announcing { hwnd }, ObserverOutcome::Reported) => Some(
            (ObserverThread::Pumping { hwnd }, session, ObserverAction::GetMessage),
        ),
        (ObserverThread::Pumping { hwnd }, ObserverOutcome::Message(returned)) => if returned
            != 0 {
            Some(
                (ObserverThread::Dispatching { hwnd }, session, ObserverAction::DispatchMessage),
            )
        } else {
            Some(
                (
                    ObserverThread::Unsubscribing { hwnd },
                    session,
                    ObserverAction::RegisterDevices(removal_registration()),
                ),
            )
        },
        (ObserverThread::Dispatching { hwnd }, ObserverOutcome::Dispatched) => Some(
            (ObserverThread::Pumping { hwnd }, session, ObserverAction::GetMessage),
        ),
        (ObserverThread::Unsubscribing { hwnd }, ObserverOutcome::Registered(_)) => Some(
            (
                ObserverThread::Destroying { hwnd },
                session,
                ObserverAction::DestroyWindow(hwnd),
            ),
        ),
        (ObserverThread::Destroying { .. }, ObserverOutcome::Destroyed) => Some(
            (ObserverThread::Finished, session.cleaned(), ObserverAction::Exit),
        ),
        _ => None,
    }
}

/// Claims the session for a new observer, with no modifier held down, and
/// gives the thread to start and its first action. Refused, without any
/// change, while an observer runs.
pub fn start<T>(
    session: &mut ObserverSession<T>,
    tsfn: T,
) -> (r: Result<(ObserverThread, ObserverAction), KeyboardError>)
    ensures
        old(session).running ==> {
            &&& r == Err::<(ObserverThread, ObserverAction), _>(
                KeyboardError::ObserverAlreadyRunning,
            )
            &&& *final(session) == *old(session)
        },
        !old(session).running ==> {
            &&& r == Ok::<_, KeyboardError>(
                (ObserverThread::Loading, ObserverAction::GetModuleHandle),
            )
            &&& *final(session) == old(session).claimed(tsfn)
        },
{
    if session.running {
        return Err(KeyboardError::ObserverAlreadyRunning);
    }
    session.running = true;
    session.modifiers.reset();
    session.slot.store_tsfn(tsfn);
    Ok((ObserverThread::Loading, ObserverAction::GetModuleHandle))
}

impl ObserverThread {
    /// Takes the outcome of the action under way to the next stand and action.
    /// An outcome of another action changes nothing and has no next action.
    pub fn advance<T>(
        self,
        session: &mut ObserverSession<T>,
        outcome: ObserverOutcome,
    ) -> (r: (ObserverThread, Option<ObserverAction>))
        ensures
            match observer_step(self, *old(session), outcome) {
                Some((thread, after, action)) => {
                    &&& r == (thread, Some(action))
                    &&& *final(session) == after
                },
                None => {
                    &&& r == (self, None::<ObserverAction>)
                    &&& *final(session) == *old(session)
                },
            },
    {
        match (self, outcome) {
            (ObserverThread::Loading, ObserverOutcome::ModuleHandle(Ok(_))) => (
                ObserverThread::Creating,
                Some(ObserverAction::CreateWindow(window_request())),
            ),
            (ObserverThread::Loading, ObserverOutcome::ModuleHandle(Err(e))) => (
                ObserverThread::Failing,
                Some(ObserverAction::Report(Err(KeyboardError::ModuleHandle(e)))),
            ),
            (ObserverThread::Creating, ObserverOutcome::Window(hwnd)) => {
                if hwnd == 0 {
                    (
                        ObserverThread::Failing,
                        Some(ObserverAction::Report(Err(KeyboardError::CreateWindow))),
                    )
                } else {
                    (
                        ObserverThread::Subscribing { hwnd },
                        Some(ObserverAction::RegisterDevices(subscription(hwnd))),
                    )
                }
            },
            (ObserverThread::Subscribing { hwnd }, ObserverOutcome::Registered(Ok(id))) => {
                session.hwnd = hwnd;
                session.thread_id = id;
                (ObserverThread::Announcing { hwnd }, Some(ObserverAction::Report(Ok(()))))
            },
            (ObserverThread::Subscribing { hwnd }, ObserverOutcome::Registered(Err(reason))) => (
                ObserverThread::Discarding { hwnd, reason },
                Some(ObserverAction::DestroyWindow(hwnd)),
            ),
            (ObserverThread::Discarding { reason, .. }, ObserverOutcome::Destroyed) => (
                ObserverThread::Failing,
                Some(ObserverAction::Report(Err(KeyboardError::RegisterDevices(reason)))),
            ),
            (ObserverThread::Failing, ObserverOutcome::Reported) => {
                cleanup(session);
                (ObserverThread::Finished, Some(ObserverAction::Exit))
            },
            (ObserverThread::Announcing { hwnd }, ObserverOutcome::Reported) => (
                ObserverThread::Pumping { hwnd },
                Some(ObserverAction::GetMessage),
            ),
            (ObserverThread::Pumping { hwnd }, ObserverOutcome::Message(returned)) => {
                if as_bool(returned) {
                    (ObserverThread::Dispatching { hwnd }, Some(ObserverAction::DispatchMessage))
                } else {
                    (
                        ObserverThread::Unsubscribing { hwnd },
                        Some(ObserverAction::RegisterDevices(removal())),
                    )
                }
            },
            (ObserverThread::Dispatching { hwnd }, ObserverOutcome::Dispatched) => (
                ObserverThread::Pumping { hwnd },
                Some(ObserverAction::GetMessage),
            ),
            (ObserverThread::Unsubscribing { hwnd }, ObserverOutcome::Registered(_)) => (
                ObserverThread::Destroying { hwnd },
                Some(ObserverAction::DestroyWindow(hwnd)),
            ),
            (ObserverThread::Destroying { .. }, ObserverOutcome::Destroyed) => {
                cleanup(session);
                (ObserverThread::Finished, Some(ObserverAction::Exit))
            },
            (thread, _) => (thread, None),
        }
    }
}

/// Ends the wait for the observer thread: `received` is its report, or why
/// none will come. In the latter case the session is given up here, because
/// the thread is no longer there to do it.
pub fn finish_start<T>(
    session: &mut ObserverSession<T>,
    received: Result<Result<(), KeyboardError>, String>,
) -> (r: Result<(), KeyboardError>)
    ensures
        match received {
            Ok(report) => r == report && *final(session) == *old(session),
            Err(detail) => {
                &&& r == Err::<(), _>(KeyboardError::ObserverThreadLost(detail))
                &&& *final(session) == old(session).cleaned()
            },
        },
{
    match received {
        Ok(report) => report,
        Err(detail) => {
            cleanup(session);
            Err(KeyboardError::ObserverThreadLost(detail))
        },
    }
}

/// What to post to end the observer of a session: a request to close to its
/// window, or nothing if no observer runs or its window is not known.
pub open spec fn close_message<T>(session: ObserverSession<T>) -> Option<WindowMessage> {
    if session.running && session.hwnd != 0 {
        Some(WindowMessage { hwnd: session.hwnd, message: WM_CLOSE, wparam: 0, lparam: 0 })
    } else {
        None
    }
}

/// The message that makes the observer's window close, if there is one to
/// tell. Stopping twice, or without an observer, is no error.
pub fn stop<T>(session: &ObserverSession<T>) -> (r: Option<WindowMessage>)
    ensures
        r == close_message(*session),
{
    if !session.running {
        return None;
    }
    if session.hwnd == 0 {
        return None;
    }
    Some(WindowMessage { hwnd: session.hwnd, message: WM_CLOSE, wparam: 0, lparam: 0 })
}

/// Gives the session up: no window, no thread, no callback, not running.
pub fn cleanup<T>(session: &mut ObserverSession<T>)
    ensures
        *final(session) == old(session).cleaned(),
{
    session.hwnd = 0;
    session.thread_id = 0;
    let _ = session.slot.take_tsfn();
    session.running = false;
}

/// The step that the window procedure takes for a message.
pub open spec fn window_step(message: u32) -> WindowStep {
    if message == WM_INPUT {
        WindowStep::HandleInput
    } else if message == WM_DESTROY {
        WindowStep::Quit { exit_code: 0 }
    } else {
        WindowStep::Default
    }
}

/// The reply that a step leads to.
pub open spec fn window_reply_to(step: WindowStep) -> WindowReply {
    match step {
        WindowStep::Quit { .. } => WindowReply::Return(0),
        _ => WindowReply::Default,
    }
}

/// What the window procedure does with a message, before it replies.
pub fn window_proc(message: u32) -> (r: WindowStep)
    ensures
        r == window_step(message),
{
    if message == WM_INPUT {
        return WindowStep::HandleInput;
    }
    if message == WM_DESTROY {
        return WindowStep::Quit { exit_code: 0 };
    }
    WindowStep::Default
}

/// The reply of the window procedure once its step was taken, whether or not
/// that panicked. Raw input is never kept from the default handling; only the
/// end of the window is.
pub fn window_reply(step: WindowStep) -> (r: WindowReply)
    ensures
        r == window_reply_to(step),
{
    match step {
        WindowStep::HandleInput => WindowReply::Default,
        WindowStep::Default => WindowReply::Default,
        WindowStep::Quit { .. } => WindowReply::Return(0),
    }
}

/// The system delivered data (`count` is their size; 0 and values that are
/// negative as `i32` say that it did not), and they come from a keyboard.
pub open spec fn is_keyboard_input(count: u32, device_type: u32) -> bool {
    0 < count <= i32::MAX && device_type == RIM_TYPEKEYBOARD
}

/// Tracks modifiers from raw input and builds the event to deliver, with the
/// flags as they are after it and never with a character. Anything but
/// keyboard input is ignored.
pub fn handle_raw_input<T>(
    session: &mut ObserverSession<T>,
    count: u32,
    device_type: u32,
    keyboard: RawKeyboard,
) -> (r: Option<KeyEvent>)
    ensures
        is_keyboard_input(count, device_type) ==> {
            &&& *final(session) == old(session).after_input(keyboard)
            &&& r matches Some(event) && {
                &&& event.describes(
                    keyboard.vkey as u32,
                    keyboard.make_code as u32,
                    keyboard.is_down(),
                    final(session).modifiers,
                )
                &&& event.character is None
            }
        },
        !is_keyboard_input(count, device_type) ==> {
            &&& *final(session) == *old(session)
            &&& r is None
        },
{
    let signed: i32 = #[verifier::truncate] (count as i32);
    assert((count as i32) <= 0 <==> (count == 0 || count > 0x7FFF_FFFF)) by (bit_vector);
    if signed <= 0 {
        return None;
    }
    if device_type != RIM_TYPEKEYBOARD {
        return None;
    }
    let vk: u32 = keyboard.vkey as u32;
    let flags: u16 = keyboard.flags;
    assert((flags & 0x01) == flags % 2) by (bit_vector);
    let down = (flags & 0x01) == 0;
    let up = !down;
    let _ = session.modifiers.update_modifier_state(vk, down, up);
    let m = session.modifiers;
    Some(
        KeyEvent {
            vk,
            scancode: keyboard.make_code as u32,
            down,
            alt: m.alt,
            ctrl: m.ctrl,
            shift: m.shift,
            win: m.win,
            character: None,
        },
    )
}

} // verus!
