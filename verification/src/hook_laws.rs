//! What holds of the keyboard hook whatever order things happen in.

use vstd::prelude::*;

use crate::character::{
    has_control, is_control, law_text_holds_no_control_characters, law_text_of_units_is_not_empty,
};
use crate::error::KeyboardError;
use crate::event::KeyEvent;
use crate::modifiers::{is_modifier, modifier_group, ModifierGroup, Modifiers, Transition};
use crate::win_hook::{
    completes, hook_step, is_key_down, is_key_step, is_key_up, quit_message, reply_to, HookAction,
    HookOutcome, HookReply, HookSession, HookThread, KeyStep, KeyboardInput, SWALLOW,
};

verus! {

/// Everything that can happen to a hook session.
pub enum HookInput<T> {
    /// Somebody calls `win_hook::install`.
    Install(T),
    /// The hook thread hands an outcome to `HookThread::advance`.
    Thread(HookOutcome),
    /// A keystroke reaches `win_hook::process_key`.
    Key(usize, Option<KeyboardInput>),
    /// The thread goes away without having reported, and
    /// `win_hook::finish_install` learns of it.
    ThreadLost,
    /// The thread has ended, at whatever stand and be it by a panic, and
    /// `win_hook::finish_uninstall` is called after waiting for that.
    Joined,
}

/// A session together with its hook thread, `Finished` if there is none.
pub struct HookSystem<T> {
    pub thread: HookThread,
    pub session: HookSession<T>,
    /// The id that a thread left behind in the session when it was lost while
    /// it sent its success, until a later hook or an uninstallation replaces
    /// it; 0 if there is none.
    pub lost_id: u32,
}

/// A session on which no hook thread has run yet.
pub open spec fn fresh_system<T>(session: HookSession<T>) -> HookSystem<T> {
    HookSystem { thread: HookThread::Finished, session, lost_id: 0 }
}

/// The thread has not been told to report yet.
pub open spec fn is_starting(thread: HookThread) -> bool {
    thread is Loading || thread is Hooking
}

/// The thread may still be lost before its report is out. One that is lost
/// while it sends its success has stored its id already, and
/// `win_hook::finish_install` does not forget that id.
pub open spec fn may_be_lost(thread: HookThread) -> bool {
    is_starting(thread) || thread is Failing || thread is Announcing
}

/// The thread has a hook set.
pub open spec fn has_hook(thread: HookThread) -> bool {
    thread is Announcing || thread is Pumping || thread is Unhooking
}

impl<T> HookSystem<T> {
    /// The system after one input, as the contracts of the functions that
    /// receive it say.
    pub open spec fn after(self, input: HookInput<T>) -> HookSystem<T> {
        match input {
            HookInput::Install(tsfn) => if self.session.running {
                self
            } else {
                HookSystem {
                    thread: HookThread::Loading,
                    session: self.session.claimed(tsfn),
                    ..self
                }
            },
            HookInput::Thread(outcome) => match hook_step(self.thread, self.session, outcome) {
                Some((thread, session, _)) => HookSystem {
                    thread,
                    session,
                    lost_id: if has_hook(self.thread) || has_hook(thread) {
                        0
                    } else {
                        self.lost_id
                    },
                },
                None => self,
            },
            HookInput::Key(wparam, Some(k)) => HookSystem {
                session: self.session.after_key(wparam, k.vk_code),
                ..self
            },
            HookInput::Key(_, None) => self,
            HookInput::Joined => HookSystem {
                thread: HookThread::Finished,
                session: self.session.cleared(),
                lost_id: 0,
            },
            HookInput::ThreadLost => if may_be_lost(self.thread) {
                HookSystem {
                    thread: HookThread::Finished,
                    session: self.session.abandoned(),
                    lost_id: if self.thread is Announcing {
                        self.session.thread_id
                    } else {
                        self.lost_id
                    },
                }
            } else {
                self
            },
        }
    }

    /// The system after a series of inputs.
    pub open spec fn after_all(self, inputs: Seq<HookInput<T>>) -> HookSystem<T>
        decreases inputs.len(),
    {
        if inputs.len() == 0 {
            self
        } else {
            self.after_all(inputs.drop_last()).after(inputs.last())
        }
    }

    /// The session says of the thread what is the case.
    pub open spec fn is_consistent(self) -> bool {
        &&& self.session.running <==> !(self.thread is Finished)
        &&& self.session.slot.tsfn is Some <==> self.session.running
        &&& !has_hook(self.thread) ==> self.session.thread_id == self.lost_id
        &&& has_hook(self.thread) ==> self.lost_id == 0
    }
}

/// From an idle session on, whatever of `HookInput` happens in whatever order:
/// the session is marked as running exactly while a hook thread is there, it
/// holds a callback exactly while it is marked so, and while no thread has its
/// hook set it names a thread to quit only if one was lost while it sent its
/// success. A thread that panics after its report counts as there until it is
/// joined.
pub proof fn law_session_follows_thread<T>(session: HookSession<T>, inputs: Seq<HookInput<T>>)
    requires
        session.is_idle(),
    ensures
        fresh_system(session).after_all(inputs).is_consistent(),
    decreases inputs.len(),
{
    if inputs.len() > 0 {
        law_session_follows_thread(session, inputs.drop_last());
    }
}

/// An id stays behind only where a thread is lost while it sends its success.
pub proof fn law_only_lost_success_leaves_an_id<T>(
    session: HookSession<T>,
    inputs: Seq<HookInput<T>>,
)
    requires
        session.is_idle(),
        forall|i: int|
            0 <= i < inputs.len() && #[trigger] inputs[i] is ThreadLost ==> !(fresh_system(
                session,
            ).after_all(inputs.take(i)).thread is Announcing),
    ensures
        fresh_system(session).after_all(inputs).lost_id == 0,
    decreases inputs.len(),
{
    if inputs.len() > 0 {
        let init = inputs.drop_last();
        assert forall|i: int| 0 <= i < init.len() && #[trigger] init[i] is ThreadLost implies !(
        fresh_system(session).after_all(init.take(i)).thread is Announcing) by {
            assert(init[i] == inputs[i]);
            assert(init.take(i) =~= inputs.take(i));
        }
        law_only_lost_success_leaves_an_id(session, init);
        assert(inputs.take(inputs.len() - 1) =~= init);
        assert(inputs[inputs.len() - 1] == inputs.last());
    }
}

/// There is never more than one hook thread: while one is there, installing
/// changes nothing.
pub proof fn law_at_most_one_hook<T>(
    session: HookSession<T>,
    inputs: Seq<HookInput<T>>,
    tsfn: T,
)
    requires
        session.is_idle(),
    ensures
        ({
            let system = fresh_system(session).after_all(inputs);
            !(system.thread is Finished) ==> system.after(HookInput::Install(tsfn)) == system
        }),
{
    law_session_follows_thread(session, inputs);
}

/// Once the hook thread is gone, after a failed start, after it was told to
/// quit, lost before its report was out, or joined by an uninstallation, no
/// hook is marked as installed and the callback is gone, and the next
/// installation is granted with no modifier held down. Nothing else of the
/// thread is left either, but for the id of one that was lost while it sent
/// its success.
pub proof fn law_ended_hook_can_be_installed_again<T>(
    session: HookSession<T>,
    inputs: Seq<HookInput<T>>,
    tsfn: T,
)
    requires
        session.is_idle(),
    ensures
        ({
            let system = fresh_system(session).after_all(inputs);
            let next = system.after(HookInput::Install(tsfn));
            system.thread is Finished ==> {
                &&& !system.session.running
                &&& system.session.slot.tsfn is None
                &&& system.session.thread_id == system.lost_id
                &&& system.lost_id == 0 ==> system.session.is_idle()
                &&& next.thread is Loading
                &&& next.session.running
                &&& next.session.slot.tsfn == Some(tsfn)
                &&& next.session.modifiers == Modifiers::none_down()
            }
        }),
{
    law_session_follows_thread(session, inputs);
}

/// An uninstallation that has waited for the thread leaves nothing installed,
/// whatever happened before: no running hook, no thread id, no callback. The
/// next installation is granted.
pub proof fn law_uninstalled_hook_leaves_nothing<T>(system: HookSystem<T>, tsfn: T)
    ensures
        ({
            let ended = system.after(HookInput::Joined);
            &&& ended.thread is Finished
            &&& ended.session.is_idle()
            &&& quit_message(ended.session) is None
            &&& ended.after(HookInput::Install(tsfn)).thread is Loading
        }),
{
}

/// Keystrokes touch nothing of a session but its modifiers, which end up as
/// the transitions say.
pub proof fn law_keys_only_track_modifiers<T>(
    system: HookSystem<T>,
    wparam: usize,
    input: Option<KeyboardInput>,
)
    ensures
        ({
            let next = system.after(HookInput::Key(wparam, input));
            &&& next.thread == system.thread
            &&& next.session == (HookSession {
                modifiers: next.session.modifiers,
                ..system.session
            })
            &&& (input is None || !is_modifier(input->0.vk_code)) ==> next == system
        }),
{
}

/// The transition that a keystroke stands for.
pub open spec fn transition_of(wparam: usize, input: KeyboardInput) -> Transition {
    Transition { vk: input.vk_code, down: is_key_down(wparam), up: is_key_up(wparam) }
}

/// A session after a series of keystrokes.
pub open spec fn session_after_keys<T>(
    session: HookSession<T>,
    keys: Seq<(usize, KeyboardInput)>,
) -> HookSession<T>
    decreases keys.len(),
{
    if keys.len() == 0 {
        session
    } else {
        let (wparam, input) = keys.last();
        session_after_keys(session, keys.drop_last()).after_key(wparam, input.vk_code)
    }
}

/// The modifiers of a session after a series of keystrokes are those of the
/// transitions that the keystrokes stand for, and nothing else has changed.
pub proof fn law_keystrokes_are_transitions<T>(
    session: HookSession<T>,
    keys: Seq<(usize, KeyboardInput)>,
)
    ensures
        session_after_keys(session, keys) == (HookSession {
            modifiers: session.modifiers.after_all(
                keys.map_values(|key: (usize, KeyboardInput)| transition_of(key.0, key.1)),
            ),
            ..session
        }),
    decreases keys.len(),
{
    let transition = |key: (usize, KeyboardInput)| transition_of(key.0, key.1);
    if keys.len() > 0 {
        law_keystrokes_are_transitions(session, keys.drop_last());
        assert(keys.map_values(transition).drop_last() =~= keys.drop_last().map_values(
            transition,
        ));
        assert(keys.map_values(transition).last() == transition(keys.last()));
    }
}

/// The progress of one hook thread.
pub struct HookRun<T> {
    pub thread: HookThread,
    pub session: HookSession<T>,
    /// Reports that the thread was told to send so far.
    pub reports: Seq<Result<u32, KeyboardError>>,
    /// Whether the system's hook is set.
    pub hooked: bool,
    /// Whether the system's hook was ever set.
    pub was_hooked: bool,
}

/// The progress of a hook thread that was just started on a session.
pub open spec fn run_started<T>(session: HookSession<T>) -> HookRun<T> {
    HookRun {
        thread: HookThread::Loading,
        session,
        reports: Seq::empty(),
        hooked: false,
        was_hooked: false,
    }
}

/// The progress of a hook thread after a series of outcomes. Those that do not
/// belong to the action under way have no effect.
pub open spec fn run_after<T>(session: HookSession<T>, outcomes: Seq<HookOutcome>) -> HookRun<T>
    decreases outcomes.len(),
{
    if outcomes.len() == 0 {
        run_started(session)
    } else {
        let run = run_after(session, outcomes.drop_last());
        let outcome = outcomes.last();
        match hook_step(run.thread, run.session, outcome) {
            Some((thread, session, action)) => HookRun {
                thread,
                session,
                reports: match action {
                    HookAction::Report(report) => run.reports.push(report),
                    _ => run.reports,
                },
                hooked: match outcome {
                    HookOutcome::Hook(result) => result is Ok,
                    HookOutcome::Unhooked => false,
                    _ => run.hooked,
                },
                was_hooked: run.was_hooked || outcome matches HookOutcome::Hook(Ok(_)),
            },
            None => run,
        }
    }
}

/// A hook thread reports exactly once: not before it has tried to set the
/// hook, and always before it pumps messages or ends. It reports success
/// exactly if the hook was set, and once it has ended the hook is removed
/// again and the session is free. The session's thread id is the reported one
/// while the hook is set, and gone after it; a thread that sets no hook leaves
/// the id that it found, which is 0 unless an earlier thread was lost.
pub proof fn law_thread_reports_once_and_unhooks<T>(
    session: HookSession<T>,
    outcomes: Seq<HookOutcome>,
)
    requires
        session.running,
        session.slot.tsfn is Some,
    ensures
        ({
            let run = run_after(session, outcomes);
            &&& run.reports.len() == (if is_starting(run.thread) {
                0nat
            } else {
                1
            })
            &&& run.hooked == has_hook(run.thread)
            &&& has_hook(run.thread) ==> run.reports[0] == Ok::<u32, KeyboardError>(
                run.session.thread_id,
            )
            &&& !is_starting(run.thread) ==> (run.reports[0] is Ok <==> run.was_hooked)
            &&& is_starting(run.thread) ==> !run.was_hooked
            &&& has_hook(run.thread) ==> run.was_hooked
            &&& run.thread is Finished ==> !run.session.running && run.session.slot.tsfn is None
            &&& !(run.thread is Finished) ==> run.session.running && run.session.slot.tsfn is Some
            &&& !has_hook(run.thread) ==> run.session.thread_id == (if run.was_hooked {
                0
            } else {
                session.thread_id
            })
            &&& run.thread is Finished && (run.was_hooked || session.thread_id == 0)
                ==> run.session.is_idle()
        }),
    decreases outcomes.len(),
{
    if outcomes.len() > 0 {
        law_thread_reports_once_and_unhooks(session, outcomes.drop_last());
    }
}

/// Uninstalling addresses the very thread that reported its hook as set, for
/// as long as that hook is set, and nobody before or after; but for the id of a
/// thread lost earlier, if the session still named one, which it addresses
/// until the hook is set. Thread ids are never 0.
pub proof fn law_uninstall_addresses_the_hook_thread<T>(
    session: HookSession<T>,
    outcomes: Seq<HookOutcome>,
)
    requires
        session.running,
        session.slot.tsfn is Some,
        forall|i: int|
            0 <= i < outcomes.len() ==> #[trigger] outcomes[i] != HookOutcome::Hook(Ok(0)),
    ensures
        ({
            let run = run_after(session, outcomes);
            match quit_message(run.session) {
                Some(message) => if run.hooked {
                    run.reports == seq![Ok::<u32, KeyboardError>(message.thread_id)]
                } else {
                    &&& !run.was_hooked
                    &&& session.thread_id != 0
                    &&& message.thread_id == session.thread_id
                },
                None => !run.hooked,
            }
        }),
    decreases outcomes.len(),
{
    law_thread_reports_once_and_unhooks(session, outcomes);
    if outcomes.len() > 0 {
        let init = outcomes.drop_last();
        assert forall|i: int| 0 <= i < init.len() implies #[trigger] init[i] != HookOutcome::Hook(
            Ok(0),
        ) by {
            assert(init[i] == outcomes[i]);
        }
        law_uninstall_addresses_the_hook_thread(session, init);
        law_thread_reports_once_and_unhooks(session, init);
        assert(outcomes[outcomes.len() - 1] != HookOutcome::Hook(Ok(0)));
    }
}

/// A start that fails, at the module handle or at the hook, reports why and
/// then frees the session of all but the id of a thread lost before.
pub proof fn law_failed_start_frees_session<T>(system: HookSystem<T>, detail: String)
    requires
        system.is_consistent(),
        is_starting(system.thread),
    ensures
        ({
            let outcome = if system.thread is Loading {
                HookOutcome::ModuleHandle(Err(detail))
            } else {
                HookOutcome::Hook(Err(detail))
            };
            let error = if system.thread is Loading {
                KeyboardError::ModuleHandle(detail)
            } else {
                KeyboardError::SetHook(detail)
            };
            let failed = system.after(HookInput::Thread(outcome));
            let ended = failed.after(HookInput::Thread(HookOutcome::Reported));
            &&& hook_step(system.thread, system.session, outcome) == Some(
                (HookThread::Failing, system.session, HookAction::Report(Err(error))),
            )
            &&& failed.thread is Failing
            &&& ended.thread is Finished
            &&& ended.session == system.session.abandoned()
            &&& system.lost_id == 0 ==> ended.session.is_idle()
        }),
{
}

/// A pump that was told to quit leads to the removal of the hook and then to a
/// free session.
pub proof fn law_quit_removes_hook<T>(system: HookSystem<T>)
    requires
        system.is_consistent(),
        system.thread is Pumping,
    ensures
        ({
            let outcome = HookOutcome::Message(0);
            let quitting = system.after(HookInput::Thread(outcome));
            let ended = quitting.after(HookInput::Thread(HookOutcome::Unhooked));
            &&& hook_step(system.thread, system.session, outcome) == Some(
                (HookThread::Unhooking, system.session, HookAction::Unhook),
            )
            &&& quitting.thread is Unhooking
            &&& ended.thread is Finished
            &&& ended.session.is_idle()
        }),
{
}

/// Every keystroke that the hook reads is swallowed, whatever it is.
pub proof fn law_keystrokes_are_swallowed(
    step: KeyStep,
    input: KeyboardInput,
    wparam: usize,
    modifiers: Modifiers,
)
    requires
        is_key_step(step, input, is_key_down(wparam), modifiers),
    ensures
        reply_to(step) == HookReply::Return(SWALLOW),
{
}

/// An event carries text only if it is the press of a key that is no modifier,
/// without Ctrl or with Ctrl and Alt together, and the text is never empty and
/// free of control characters.
pub proof fn law_text_comes_from_plain_presses(
    step: KeyStep,
    input: KeyboardInput,
    wparam: usize,
    modifiers: Modifiers,
    count: i32,
    units: Seq<u16>,
    event: KeyEvent,
)
    requires
        is_key_step(step, input, is_key_down(wparam), modifiers),
        count <= units.len(),
        match step {
            KeyStep::Translate { pending, .. } => completes(event, pending, count, units),
            KeyStep::Deliver { event: complete } => event == complete,
            KeyStep::CallNextHook => true,
        },
        event.character is Some,
    ensures
        is_key_down(wparam),
        event.down,
        !is_modifier(event.vk),
        event.ctrl ==> event.alt,
        event.character->0@.len() > 0,
        forall|i: int|
            0 <= i < event.character->0@.len() ==> !is_control(
                #[trigger] event.character->0@[i] as int,
            ),
{
    let written = units.take(count as int);
    if count > 0 && !has_control(written) {
        law_text_of_units_is_not_empty(written);
        law_text_holds_no_control_characters(written);
    }
}

/// The event of a modifier's own press or release already shows its new state.
pub proof fn law_modifier_event_shows_itself<T>(
    session: HookSession<T>,
    wparam: usize,
    input: KeyboardInput,
    event: KeyEvent,
    group: ModifierGroup,
)
    requires
        modifier_group(input.vk_code) == Some(group),
        is_key_down(wparam) || is_key_up(wparam),
        event.describes(
            input.vk_code,
            input.scan_code,
            is_key_down(wparam),
            session.after_key(wparam, input.vk_code).modifiers,
        ),
    ensures
        event.modifiers().flag(group) == event.down,
{
}

} // verus!
