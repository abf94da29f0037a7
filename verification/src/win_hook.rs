//! The opt-in low-level keyboard hook, which swallows every keystroke while it
//! is installed.
//!
//! A hook lives on a thread of its own. `install` claims the session and gives
//! the thread's state machine with its first action; the thread performs each
//! action and hands the outcome to `HookThread::advance`, which says what to
//! do next. Meanwhile the installing side waits for the thread's report and
//! passes it to `finish_install`.
//!
//! `uninstall` says how to make the thread quit. Once the thread has ended,
//! `finish_uninstall` clears whatever is left in the session.
//!
//! Between two messages the system calls the hook procedure:
//! `low_level_keyboard_proc` decides whether to look at the key at all,
//! `process_key` tracks modifiers and builds the event, `complete_key` adds
//! the character where one was asked for, and `conclude` gives the reply.

use vstd::prelude::*;

use crate::character::{is_command, translated_character, translated_text, translation_call,
    ToUnicodeCall, UNITS_PER_KEY};
use crate::error::KeyboardError;
use crate::event::KeyEvent;
use crate::modifiers::{is_modifier, Modifiers};
use crate::tsfn::TsfnSlot;
use crate::win32::{
    as_bool, WH_KEYBOARD_LL, WM_KEYDOWN, WM_KEYUP, WM_QUIT, WM_SYSKEYDOWN, WM_SYSKEYUP,
};

verus! {

/// What the hook and its clients share. At most one hook is installed at a
/// time; `thread_id` is 0 while no hook thread can be told to quit.
#[derive(Debug, PartialEq, Eq)]
pub struct HookSession<T> {
    pub running: bool,
    pub thread_id: u32,
    pub modifiers: Modifiers,
    pub slot: TsfnSlot<T>,
}

/// Where the hook thread stands: which action it was last told to perform.
#[derive(Clone, Copy, Debug, PartialEq, Eq, Structural)]
pub enum HookThread {
    /// Getting the module handle.
    Loading,
    /// Setting the hook.
    Hooking,
    /// Reporting a failure.
    Failing,
    /// Reporting success.
    Announcing,
    /// Waiting for a message.
    Pumping,
    /// Removing the hook.
    Unhooking,
    /// Nothing is left to do.
    Finished,
}

/// The hook to ask the system for.
#[derive(Clone, Copy, Debug, PartialEq, Eq, Structural)]
pub struct HookRequest {
    pub kind: i32,
    /// The thread whose input the hook sees; 0 for all of them.
    pub thread_id: u32,
}

/// What the hook thread is to do.
#[derive(Debug, PartialEq, Eq)]
pub enum HookAction {
    GetModuleHandle,
    SetHook(HookRequest),
    /// Send this to the side that waits for the installation.
    Report(Result<u32, KeyboardError>),
    GetMessage,
    Unhook,
    Exit,
}

/// How an action of the hook thread went.
#[derive(Debug, PartialEq, Eq)]
pub enum HookOutcome {
    ModuleHandle(Result<(), String>),
    /// The hook is set, on the thread with this id, or why it is not.
    Hook(Result<u32, String>),
    Reported,
    /// What waiting for a message returned: 0 once the pump has been told to
    /// quit, anything else, also the negative value of an error, if it goes on.
    Message(i32),
    Unhooked,
}

/// A message to post to a thread.
#[derive(Clone, Copy, Debug, PartialEq, Eq, Structural)]
pub struct ThreadMessage {
    pub thread_id: u32,
    pub message: u32,
    pub wparam: usize,
    pub lparam: isize,
}

/// What the hook reads of a keystroke.
#[derive(Clone, Copy, Debug, PartialEq, Eq, Structural)]
pub struct KeyboardInput {
    pub vk_code: u32,
    pub scan_code: u32,
}

/// How to go on with a keystroke.
#[derive(Debug, PartialEq, Eq)]
pub enum KeyStep {
    /// There is nothing to look at: leave the key to the next hook.
    CallNextHook,
    /// Make the call and complete the event with its answer.
    Translate { pending: KeyEvent, call: ToUnicodeCall },
    /// The event is complete.
    Deliver { event: KeyEvent },
}

/// What the hook procedure answers the system.
#[derive(Clone, Copy, Debug, PartialEq, Eq, Structural)]
pub enum HookReply {
    /// Whatever the next hook answers.
    CallNextHook,
    /// This value.
    Return(isize),
}

/// The answer that keeps a keystroke from everybody else.
pub const SWALLOW: isize = 1;

/// The message says that a key went down. Only its low 32 bits count.
pub open spec fn is_key_down(wparam: usize) -> bool {
    wparam as u32 == WM_KEYDOWN || wparam as u32 == WM_SYSKEYDOWN
}

/// The message says that a key went up. Only its low 32 bits count.
pub open spec fn is_key_up(wparam: usize) -> bool {
    wparam as u32 == WM_KEYUP || wparam as u32 == WM_SYSKEYUP
}

impl<T> HookSession<T> {
    /// No hook is installed and nothing of an earlier one is left.
    pub open spec fn is_idle(self) -> bool {
        &&& !self.running
        &&& self.thread_id == 0
        &&& self.slot.tsfn is None
    }

    /// The session as claimed for a new hook.
    pub open spec fn claimed(self, tsfn: T) -> Self {
        HookSession {
            running: true,
            modifiers: Modifiers::none_down(),
            slot: TsfnSlot { tsfn: Some(tsfn) },
            ..self
        }
    }

    /// The session given up by a hook that never got to run.
    pub open spec fn abandoned(self) -> Self {
        HookSession { running: false, slot: TsfnSlot { tsfn: None }, ..self }
    }

    /// The session with everything cleared that a hook leaves in it.
    pub open spec fn cleared(self) -> Self {
        HookSession { thread_id: 0, ..self.abandoned() }
    }

    /// The session after a key transition.
    pub open spec fn after_key(self, wparam: usize, vk: u32) -> Self {
        HookSession {
            modifiers: self.modifiers.after(vk, is_key_down(wparam), is_key_up(wparam)),
            ..self
        }
    }

    /// A session before any hook.
    pub fn new() -> (r: Self)
        ensures
            r.is_idle(),
            r.modifiers == Modifiers::none_down(),
    {
        HookSession {
            running: false,
            thread_id: 0,
            modifiers: Modifiers::released(),
            slot: TsfnSlot::empty(),
        }
    }

    fn abandon(&mut self)
        ensures
            *final(self) == old(self).abandoned(),
    {
        self.running = false;
        let _ = self.slot.take_tsfn();
    }

    fn clear(&mut self)
        ensures
            *final(self) == old(self).cleared(),
    {
        self.thread_id = 0;
        self.abandon();
    }
}

/// The low-level keyboard hook, for the input of every thread.
pub open spec fn keyboard_hook() -> HookRequest {
    HookRequest { kind: WH_KEYBOARD_LL, thread_id: 0 }
}

/// What the hook thread does on an outcome: its next stand, the session after
/// it, and the next action. `None` where the outcome does not belong to the
/// action that is under way.
pub open spec fn hook_step<T>(
    thread: HookThread,
    session: HookSession<T>,
    outcome: HookOutcome,
) -> Option<(HookThread, HookSession<T>, HookAction)> {
    match (thread, outcome) {
        (HookThread::Loading, HookOutcome::ModuleHandle(Ok(_))) => Some(
            (HookThread::Hooking, session, HookAction::SetHook(keyboard_hook())),
        ),
        (HookThread::Loading, HookOutcome::ModuleHandle(Err(e))) => Some(
            (
                HookThread::Failing,
                session,
                HookAction::Report(Err(KeyboardError::ModuleHandle(e))),
            ),
        ),
        (HookThread::Hooking, HookOutcome::Hook(Ok(id))) => Some(
            (
                HookThread::Announcing,
                HookSession { thread_id: id, ..session },
                HookAction::Report(Ok(id)),
            ),
        ),
        (HookThread::Hooking, HookOutcome::Hook(Err(e))) => Some(
            (HookThread::Failing, session, HookAction::Report(Err(KeyboardError::SetHook(e)))),
        ),
        (HookThread::Failing, HookOutcome::Reported) => Some(
            (HookThread::Finished, session.abandoned(), HookAction::Exit),
        ),
        (HookThread::Announcing, HookOutcome::Reported) => Some(
            (HookThread::Pumping, session, HookAction::GetMessage),
        ),
        (HookThread::Pumping, HookOutcome::Message(returned)) => if returned != 0 {
            Some((HookThread::Pumping, session, HookAction::GetMessage))
        } else {
            Some((HookThread::Unhooking, session, HookAction::Unhook))
        },
        (HookThread::Unhooking, HookOutcome::Unhooked) => Some(
            (HookThread::Finished, session.cleared(), HookAction::Exit),
        ),
        _ => None,
    }
}

/// Claims the session for a new hook, with no modifier held down, and gives
/// the thread to start and its first action. Refused, without any change,
/// while a hook is installed.
///
/// A modifier that is held at this moment counts as released until its next
/// key transition.
pub fn install<T>(
    session: &mut HookSession<T>,
    tsfn: T,
) -> (r: Result<(HookThread, HookAction), KeyboardError>)
    ensures
        old(session).running ==> {
            &&& r == Err::<(HookThread, HookAction), _>(KeyboardError::HookAlreadyInstalled)
            &&& *final(session) == *old(session)
        },
        !old(session).running ==> {
            &&& r == Ok::<_, KeyboardError>((HookThread::Loading, HookAction::GetModuleHandle))
            &&& *final(session) == old(session).claimed(tsfn)
        },
{
    if session.running {
        return Err(KeyboardError::HookAlreadyInstalled);
    }
    session.running = true;
    session.modifiers.reset();
    session.slot.store_tsfn(tsfn);
    Ok((HookThread::Loading, HookAction::GetModuleHandle))
}

impl HookThread {
    /// Takes the outcome of the action under way to the next action. An
    /// outcome of another action changes nothing and has no next action.
    pub fn advance<T>(
        &mut self,
        session: &mut HookSession<T>,
        outcome: HookOutcome,
    ) -> (r: Option<HookAction>)
        ensures
            match hook_step(*old(self), *old(session), outcome) {
                Some((thread, after, action)) => {
                    &&& *final(self) == thread
                    &&& *final(session) == after
                    &&& r == Some(action)
                },
                None => {
                    &&& *final(self) == *old(self)
                    &&& *final(session) == *old(session)
                    &&& r is None
                },
            },
    {
        match (*self, outcome) {
            (HookThread::Loading, HookOutcome::ModuleHandle(Ok(_))) => {
                *self = HookThread::Hooking;
                Some(HookAction::SetHook(HookRequest { kind: WH_KEYBOARD_LL, thread_id: 0 }))
            },
            (HookThread::Loading, HookOutcome::ModuleHandle(Err(e))) => {
                *self = HookThread::Failing;
                Some(HookAction::Report(Err(KeyboardError::ModuleHandle(e))))
            },
            (HookThread::Hooking, HookOutcome::Hook(Ok(id))) => {
                *self = HookThread::Announcing;
                session.thread_id = id;
                Some(HookAction::Report(Ok(id)))
            },
            (HookThread::Hooking, HookOutcome::Hook(Err(e))) => {
                *self = HookThread::Failing;
                Some(HookAction::Report(Err(KeyboardError::SetHook(e))))
            },
            (HookThread::Failing, HookOutcome::Reported) => {
                *self = HookThread::Finished;
                session.abandon();
                Some(HookAction::Exit)
            },
            (HookThread::Announcing, HookOutcome::Reported) => {
                *self = HookThread::Pumping;
                Some(HookAction::GetMessage)
            },
            (HookThread::Pumping, HookOutcome::Message(returned)) => {
                if as_bool(returned) {
                    Some(HookAction::GetMessage)
                } else {
                    *self = HookThread::Unhooking;
                    Some(HookAction::Unhook)
                }
            },
            (HookThread::Unhooking, HookOutcome::Unhooked) => {
                *self = HookThread::Finished;
                session.clear();
                Some(HookAction::Exit)
            },
            _ => None,
        }
    }
}

/// Ends the wait for the hook thread: `received` is its report, or why none
/// will come. In the latter case the session is given up here, because the
/// thread is no longer there to do it.
pub fn finish_install<T>(
    session: &mut HookSession<T>,
    received: Result<Result<u32, KeyboardError>, String>,
) -> (r: Result<(), KeyboardError>)
    ensures
        match received {
            Ok(Ok(_)) => r is Ok && *final(session) == *old(session),
            Ok(Err(e)) => r == Err::<(), _>(e) && *final(session) == *old(session),
            Err(detail) => {
                &&& r == Err::<(), _>(KeyboardError::HookThreadLost(detail))
                &&& *final(session) == old(session).abandoned()
            },
        },
{
    match received {
        Ok(Ok(_)) => Ok(()),
        Ok(Err(e)) => Err(e),
        Err(detail) => {
            session.abandon();
            Err(KeyboardError::HookThreadLost(detail))
        },
    }
}

/// What to post to end the hook of a session: a quit message to its thread, or
/// nothing if no hook is installed or its thread is not known.
pub open spec fn quit_message<T>(session: HookSession<T>) -> Option<ThreadMessage> {
    if session.running && session.thread_id != 0 {
        Some(
            ThreadMessage {
                thread_id: session.thread_id,
                message: WM_QUIT,
                wparam: 0,
                lparam: 0,
            },
        )
    } else {
        None
    }
}

/// Begins to uninstall: the message that makes the hook thread quit, if there
/// is one to tell. Uninstalling twice, or without a hook, is no error.
///
/// The session stays claimed until the thread has ended, so that no second hook
/// can come beside it. Wait for that end, if `may_wait` says so, and call
/// `finish_uninstall`.
pub fn uninstall<T>(session: &HookSession<T>) -> (r: Option<ThreadMessage>)
    ensures
        r == quit_message(*session),
{
    if !session.running {
        return None;
    }
    if session.thread_id == 0 {
        return None;
    }
    Some(ThreadMessage { thread_id: session.thread_id, message: WM_QUIT, wparam: 0, lparam: 0 })
}

/// Whether to wait for the end of the hook thread after trying to post it the
/// message of `uninstall`: not for a thread that could not be reached and still
/// runs, because it would never end. Without the wait the uninstallation stays
/// unfinished.
pub fn may_wait(posted: bool, ended: bool) -> (r: bool)
    ensures
        r == (posted || ended),
{
    posted || ended
}

/// Ends an uninstallation once the hook thread has ended: no hook is marked as
/// installed, no thread is known and the callback is gone, also where the
/// thread panicked and could not see to that itself.
pub fn finish_uninstall<T>(session: &mut HookSession<T>)
    ensures
        *final(session) == old(session).cleared(),
        final(session).is_idle(),
        final(session).modifiers == old(session).modifiers,
{
    session.clear();
}

/// Whether the hook procedure looks at the key. A negative code demands that
/// the call be passed on unseen.
pub fn low_level_keyboard_proc(code: i32) -> (r: Option<HookReply>)
    ensures
        code < 0 ==> r == Some(HookReply::CallNextHook),
        code >= 0 ==> r is None,
{
    if code < 0 {
        return Some(HookReply::CallNextHook);
    }
    None
}

/// A key press is worth a character if it is no modifier and no command.
pub open spec fn needs_translation(modifiers: Modifiers, vk: u32, down: bool) -> bool {
    down && !is_modifier(vk) && !is_command(modifiers.ctrl, modifiers.alt)
}

/// The step to take for a keystroke, where `modifiers` are the flags after it.
pub open spec fn is_key_step(
    step: KeyStep,
    input: KeyboardInput,
    down: bool,
    modifiers: Modifiers,
) -> bool {
    match step {
        KeyStep::CallNextHook => false,
        KeyStep::Translate { pending, call } => {
            &&& needs_translation(modifiers, input.vk_code, down)
            &&& pending.describes(input.vk_code, input.scan_code, down, modifiers)
            &&& pending.character is None
            &&& call.asks_for(
                input.vk_code,
                input.scan_code,
                modifiers.shift,
                modifiers.ctrl,
                modifiers.alt,
            )
        },
        KeyStep::Deliver { event } => {
            &&& !needs_translation(modifiers, input.vk_code, down)
            &&& event.describes(input.vk_code, input.scan_code, down, modifiers)
            &&& event.character is None
        },
    }
}

/// Tracks modifiers from the keystroke and builds its event, with the flags as
/// they are after it. Without a keystroke to read nothing happens.
pub fn process_key<T>(
    session: &mut HookSession<T>,
    wparam: usize,
    input: Option<KeyboardInput>,
) -> (r: KeyStep)
    ensures
        match input {
            Some(k) => {
                &&& *final(session) == old(session).after_key(wparam, k.vk_code)
                &&& is_key_step(r, k, is_key_down(wparam), final(session).modifiers)
            },
            None => r is CallNextHook && *final(session) == *old(session),
        },
{
    let k = match input {
        Some(k) => k,
        None => return KeyStep::CallNextHook,
    };
    let kind: u32 = #[verifier::truncate] (wparam as u32);
    let down = kind == WM_KEYDOWN || kind == WM_SYSKEYDOWN;
    let up = kind == WM_KEYUP || kind == WM_SYSKEYUP;
    let is_modifier = session.modifiers.update_modifier_state(k.vk_code, down, up);
    let m = session.modifiers;
    let event = KeyEvent {
        vk: k.vk_code,
        scancode: k.scan_code,
        down,
        alt: m.alt,
        ctrl: m.ctrl,
        shift: m.shift,
        win: m.win,
        character: None,
    };
    if down && !is_modifier {
        match translation_call(k.vk_code, k.scan_code, m.shift, m.ctrl, m.alt) {
            Some(call) => KeyStep::Translate { pending: event, call },
            None => KeyStep::Deliver { event },
        }
    } else {
        KeyStep::Deliver { event }
    }
}

/// The event is `pending` with the character that `ToUnicode`'s answer gave.
pub open spec fn completes(
    event: KeyEvent,
    pending: KeyEvent,
    count: i32,
    units: Seq<u16>,
) -> bool {
    &&& event.describes(pending.vk, pending.scancode, pending.down, pending.modifiers())
    &&& match translated_text(count, units) {
        Some(text) => event.character matches Some(s) && s@ == text,
        None => event.character is None,
    }
}

/// Adds to an event the character that the translation found.
pub fn complete_key(pending: KeyEvent, count: i32, units: &[u16; 8]) -> (r: KeyEvent)
    requires
        count <= UNITS_PER_KEY,
    ensures
        completes(r, pending, count, units@),
{
    KeyEvent { character: translated_character(count, units), ..pending }
}

/// The reply that a step leads to.
pub open spec fn reply_to(step: KeyStep) -> HookReply {
    match step {
        KeyStep::CallNextHook => HookReply::CallNextHook,
        _ => HookReply::Return(SWALLOW),
    }
}

/// The reply of a keystroke once its step was taken: swallowed, unless there
/// was nothing to look at.
pub fn key_reply(step: &KeyStep) -> (r: HookReply)
    ensures
        r == reply_to(*step),
{
    match step {
        KeyStep::CallNextHook => HookReply::CallNextHook,
        _ => HookReply::Return(SWALLOW),
    }
}

/// The reply of the hook procedure: that of the keystroke, or of the next hook
/// if processing it panicked (`None`). Swallowing then would lose the key.
pub fn conclude(processed: Option<HookReply>) -> (r: HookReply)
    ensures
        match processed {
            Some(reply) => r == reply,
            None => r is CallNextHook,
        },
{
    match processed {
        Some(reply) => reply,
        None => HookReply::CallNextHook,
    }
}

} // verus!
