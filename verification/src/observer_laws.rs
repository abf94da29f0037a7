//! What holds of the raw-input observer whatever order things happen in, and
//! how it relates to the keyboard hook.

use vstd::prelude::*;

use crate::error::KeyboardError;
use crate::event::KeyEvent;
use crate::modifiers::{Modifiers, Transition};
use crate::raw_input::{
    close_message, observer_step, removal_registration, subscription_of, window_reply_to,
    window_step, ObserverAction, ObserverOutcome, ObserverSession, ObserverThread, RawKeyboard,
    WindowReply, WindowStep,
};
use crate::win32::WM_DESTROY;
use crate::win_hook::{is_key_down, is_key_up, HookSession, KeyboardInput};

verus! {

/// Everything that can happen to an observer session.
pub enum ObserverInput<T> {
    /// Somebody calls `raw_input::start`.
    Start(T),
    /// The observer thread hands an outcome to `ObserverThread::advance`.
    Thread(ObserverOutcome),
    /// Keyboard input reaches `raw_input::handle_raw_input`.
    Key(RawKeyboard),
    /// The thread goes away without having reported, and
    /// `raw_input::finish_start` learns of it.
    ThreadLost,
}

/// A session together with its observer thread, `Finished` if there is none.
pub struct ObserverSystem<T> {
    pub thread: ObserverThread,
    pub session: ObserverSession<T>,
}

/// The thread has not been told to report yet.
pub open spec fn is_starting(thread: ObserverThread) -> bool {
    thread is Loading || thread is Creating || thread is Subscribing || thread is Discarding
}

/// The thread may still be lost before its report is out.
pub open spec fn may_be_lost(thread: ObserverThread) -> bool {
    is_starting(thread) || thread is Failing || thread is Announcing
}

/// The window that the thread owns.
pub open spec fn window_of(thread: ObserverThread) -> Option<isize> {
    match thread {
        ObserverThread::Subscribing { hwnd } => Some(hwnd),
        ObserverThread::Discarding { hwnd, .. } => Some(hwnd),
        ObserverThread::Announcing { hwnd } => Some(hwnd),
        ObserverThread::Pumping { hwnd } => Some(hwnd),
        ObserverThread::Dispatching { hwnd } => Some(hwnd),
        ObserverThread::Unsubscribing { hwnd } => Some(hwnd),
        ObserverThread::Destroying { hwnd } => Some(hwnd),
        _ => None,
    }
}

/// The thread has announced its window.
pub open spec fn is_announced(thread: ObserverThread) -> bool {
    thread is Announcing || thread is Pumping || thread is Dispatching || thread is Unsubscribing
        || thread is Destroying
}

impl<T> ObserverSystem<T> {
    /// The system after one input, as the contracts of the functions that
    /// receive it say.
    pub open spec fn after(self, input: ObserverInput<T>) -> ObserverSystem<T> {
        match input {
            ObserverInput::Start(tsfn) => if self.session.running {
                self
            } else {
                ObserverSystem {
                    thread: ObserverThread::Loading,
                    session: self.session.claimed(tsfn),
                }
            },
            ObserverInput::Thread(outcome) => match observer_step(
                self.thread,
                self.session,
                outcome,
            ) {
                Some((thread, session, _)) => ObserverSystem { thread, session },
                None => self,
            },
            ObserverInput::Key(input) => ObserverSystem {
                session: self.session.after_input(input),
                ..self
            },
            ObserverInput::ThreadLost => if may_be_lost(self.thread) {
                ObserverSystem {
                    thread: ObserverThread::Finished,
                    session: self.session.cleaned(),
                }
            } else {
                self
            },
        }
    }

    /// The system after a series of inputs.
    pub open spec fn after_all(self, inputs: Seq<ObserverInput<T>>) -> ObserverSystem<T>
        decreases inputs.len(),
    {
        if inputs.len() == 0 {
            self
        } else {
            self.after_all(inputs.drop_last()).after(inputs.last())
        }
    }

    /// The session says of the thread what is the case.
    pub open spec fn is_consistent(self) -> bool {
        &&& self.session.running <==> !(self.thread is Finished)
        &&& self.session.slot.tsfn is Some <==> self.session.running
        &&& window_of(self.thread) != Some(0isize)
        &&& is_announced(self.thread) ==> window_of(self.thread) == Some(self.session.hwnd)
        &&& !is_announced(self.thread) ==> self.session.hwnd == 0 && self.session.thread_id == 0
    }
}

/// From an idle session on, whatever of `ObserverInput` happens in whatever
/// order: the session is marked as running exactly while an observer thread is there, it holds a
/// callback exactly while it is marked so, and it names a window exactly while
/// the thread has announced that window and not yet given it up.
pub proof fn law_session_follows_thread<T>(
    session: ObserverSession<T>,
    inputs: Seq<ObserverInput<T>>,
)
    requires
        session.is_idle(),
    ensures
        (ObserverSystem { thread: ObserverThread::Finished, session }).after_all(
            inputs,
        ).is_consistent(),
    decreases inputs.len(),
{
    if inputs.len() > 0 {
        law_session_follows_thread(session, inputs.drop_last());
    }
}

/// There is never more than one observer thread: while one is there, starting
/// changes nothing.
pub proof fn law_at_most_one_observer<T>(
    session: ObserverSession<T>,
    inputs: Seq<ObserverInput<T>>,
    tsfn: T,
)
    requires
        session.is_idle(),
    ensures
        ({
            let system = (ObserverSystem { thread: ObserverThread::Finished, session }).after_all(
                inputs,
            );
            !(system.thread is Finished) ==> system.after(ObserverInput::Start(tsfn)) == system
        }),
{
    law_session_follows_thread(session, inputs);
}

/// Once the observer thread is gone, after a failed start, after it was told
/// to quit, or lost before its report, nothing of it is left, and the next
/// start is granted with no modifier held down.
pub proof fn law_ended_observer_can_be_started_again<T>(
    session: ObserverSession<T>,
    inputs: Seq<ObserverInput<T>>,
    tsfn: T,
)
    requires
        session.is_idle(),
    ensures
        ({
            let system = (ObserverSystem { thread: ObserverThread::Finished, session }).after_all(
                inputs,
            );
            let next = system.after(ObserverInput::Start(tsfn));
            system.thread is Finished ==> {
                &&& system.session.is_idle()
                &&& next.thread is Loading
                &&& next.session.running
                &&& next.session.slot.tsfn == Some(tsfn)
                &&& next.session.modifiers == Modifiers::none_down()
            }
        }),
{
    law_session_follows_thread(session, inputs);
}

/// The progress of one observer thread.
pub struct ObserverRun<T> {
    pub thread: ObserverThread,
    pub session: ObserverSession<T>,
    /// The action that the thread was last told to perform.
    pub action: ObserverAction,
    /// Reports that the thread was told to send so far.
    pub reports: Seq<Result<(), KeyboardError>>,
    /// The window that was made and that the thread has not yet destroyed.
    pub window: Option<isize>,
    /// Whether the window is subscribed to keyboard input.
    pub subscribed: bool,
    /// Whether it ever was.
    pub was_subscribed: bool,
}

/// The progress of an observer thread that was just started on a session.
pub open spec fn run_started<T>(session: ObserverSession<T>) -> ObserverRun<T> {
    ObserverRun {
        thread: ObserverThread::Loading,
        session,
        action: ObserverAction::GetModuleHandle,
        reports: Seq::empty(),
        window: None,
        subscribed: false,
        was_subscribed: false,
    }
}

/// The progress of an observer thread after a series of outcomes. Those that
/// do not belong to the action under way have no effect.
pub open spec fn run_after<T>(
    session: ObserverSession<T>,
    outcomes: Seq<ObserverOutcome>,
) -> ObserverRun<T>
    decreases outcomes.len(),
{
    if outcomes.len() == 0 {
        run_started(session)
    } else {
        let run = run_after(session, outcomes.drop_last());
        let outcome = outcomes.last();
        // The action that has just been performed was a subscription.
        let subscribes = run.action matches ObserverAction::RegisterDevices(registration)
            && registration != removal_registration();
        match observer_step(run.thread, run.session, outcome) {
            Some((thread, session, action)) => ObserverRun {
                thread,
                session,
                action,
                reports: match action {
                    ObserverAction::Report(report) => run.reports.push(report),
                    _ => run.reports,
                },
                window: match outcome {
                    ObserverOutcome::Window(hwnd) => if hwnd == 0 {
                        None
                    } else {
                        Some(hwnd)
                    },
                    ObserverOutcome::Destroyed => None,
                    _ => run.window,
                },
                subscribed: match outcome {
                    ObserverOutcome::Registered(result) => subscribes && result is Ok,
                    _ => run.subscribed,
                },
                was_subscribed: run.was_subscribed || (subscribes && outcome matches
                    ObserverOutcome::Registered(Ok(_))),
            },
            None => run,
        }
    }
}

/// An observer thread reports exactly once, and always before it pumps
/// messages or ends; it reports success exactly if its window was subscribed.
/// It is told to destroy every window it made, that very window and not before
/// it was told to cancel the subscription, and once it has ended it owns no
/// window and no subscription and nothing of the session is left. This is
/// about the thread's own actions: a window that was asked to close has been
/// destroyed by the default handling before, and is destroyed again in vain.
pub proof fn law_thread_reports_once_and_cleans_up<T>(
    session: ObserverSession<T>,
    outcomes: Seq<ObserverOutcome>,
)
    requires
        session.running,
        session.hwnd == 0,
        session.thread_id == 0,
        session.slot.tsfn is Some,
    ensures
        ({
            let run = run_after(session, outcomes);
            &&& run.reports.len() == (if is_starting(run.thread) {
                0nat
            } else {
                1
            })
            &&& !is_starting(run.thread) ==> (run.reports[0] is Ok <==> run.was_subscribed)
            &&& is_starting(run.thread) ==> !run.was_subscribed
            &&& is_announced(run.thread) ==> run.was_subscribed
            &&& run.window == window_of(run.thread)
            &&& run.subscribed ==> run.window is Some
            &&& run.action matches ObserverAction::DestroyWindow(hwnd) ==> {
                &&& run.window == Some(hwnd)
                &&& !run.subscribed
            }
            &&& run.action matches ObserverAction::RegisterDevices(registration) ==> {
                &&& run.thread is Subscribing ==> run.window is Some && registration
                    == subscription_of(run.window->0)
                &&& run.thread is Unsubscribing ==> registration == removal_registration()
            }
            &&& run.thread is Subscribing || run.thread is Unsubscribing
                <==> run.action is RegisterDevices
            &&& run.subscribed <==> is_announced(run.thread) && !(run.thread is Destroying)
            &&& run.thread is Finished ==> run.session.is_idle()
        }),
    decreases outcomes.len(),
{
    if outcomes.len() > 0 {
        law_thread_reports_once_and_cleans_up(session, outcomes.drop_last());
    }
}

/// Stopping addresses the very window that the observer has announced, for as
/// long as the thread owns it, and no other.
pub proof fn law_stop_addresses_the_window<T>(
    session: ObserverSession<T>,
    inputs: Seq<ObserverInput<T>>,
)
    requires
        session.is_idle(),
    ensures
        ({
            let system = (ObserverSystem { thread: ObserverThread::Finished, session }).after_all(
                inputs,
            );
            match close_message(system.session) {
                Some(message) => {
                    &&& is_announced(system.thread)
                    &&& window_of(system.thread) == Some(message.hwnd)
                },
                None => !is_announced(system.thread),
            }
        }),
{
    law_session_follows_thread(session, inputs);
}

/// A start that fails, at the module handle, at the window or at the
/// subscription, reports why and then frees the session. In the last case the
/// window is destroyed before the report.
pub proof fn law_failed_start_frees_session<T>(system: ObserverSystem<T>, detail: String)
    requires
        system.is_consistent(),
        system.thread is Loading || system.thread is Creating || system.thread is Subscribing,
    ensures
        ({
            let (outcome, error) = match system.thread {
                ObserverThread::Loading => (
                    ObserverOutcome::ModuleHandle(Err(detail)),
                    KeyboardError::ModuleHandle(detail),
                ),
                ObserverThread::Creating => (
                    ObserverOutcome::Window(0),
                    KeyboardError::CreateWindow,
                ),
                _ => (
                    ObserverOutcome::Registered(Err(detail)),
                    KeyboardError::RegisterDevices(detail),
                ),
            };
            let refused = system.after(ObserverInput::Thread(outcome));
            // The stand and the outcome that lead to the report.
            let (before, last) = if system.thread is Subscribing {
                (refused, ObserverOutcome::Destroyed)
            } else {
                (system, outcome)
            };
            let failed = before.after(ObserverInput::Thread(last));
            let ended = failed.after(ObserverInput::Thread(ObserverOutcome::Reported));
            &&& system.thread matches ObserverThread::Subscribing { hwnd } ==> observer_step(
                system.thread,
                system.session,
                outcome,
            ) == Some((refused.thread, system.session, ObserverAction::DestroyWindow(hwnd)))
            &&& observer_step(before.thread, before.session, last) == Some(
                (ObserverThread::Failing, system.session, ObserverAction::Report(Err(error))),
            )
            &&& ended.thread is Finished
            &&& ended.session.is_idle()
        }),
{
}

/// A pump that was told to quit leads to the end of the subscription, whether
/// or not cancelling it succeeds, then of the window, and then to a free
/// session.
pub proof fn law_quit_cleans_up<T>(
    system: ObserverSystem<T>,
    cancelled: Result<u32, String>,
    hwnd: isize,
)
    requires
        system.is_consistent(),
        system.thread == (ObserverThread::Pumping { hwnd }),
    ensures
        ({
            let quitting = system.after(ObserverInput::Thread(ObserverOutcome::Message(0)));
            let closing = quitting.after(
                ObserverInput::Thread(ObserverOutcome::Registered(cancelled)),
            );
            let ended = closing.after(ObserverInput::Thread(ObserverOutcome::Destroyed));
            &&& observer_step(system.thread, system.session, ObserverOutcome::Message(0)) == Some(
                (
                    quitting.thread,
                    quitting.session,
                    ObserverAction::RegisterDevices(removal_registration()),
                ),
            )
            &&& observer_step(
                quitting.thread,
                quitting.session,
                ObserverOutcome::Registered(cancelled),
            ) == Some((closing.thread, closing.session, ObserverAction::DestroyWindow(hwnd)))
            &&& ended.thread is Finished
            &&& ended.session.is_idle()
        }),
{
}

/// The observer swallows nothing: every message but the end of its window, raw
/// input in particular, goes on to the default handling.
pub proof fn law_messages_reach_the_default_handling(message: u32)
    requires
        message != WM_DESTROY,
    ensures
        window_reply_to(window_step(message)) == WindowReply::Default,
{
}

/// A window that is asked to close is left to the default handling, which
/// destroys it; and the end of the window stops the pump.
pub proof fn law_closing_the_window_stops_the_pump<T>(session: ObserverSession<T>)
    requires
        close_message(session) is Some,
    ensures
        window_step(close_message(session)->0.message) == WindowStep::Default,
        window_reply_to(WindowStep::Default) == WindowReply::Default,
        window_step(WM_DESTROY) == (WindowStep::Quit { exit_code: 0 }),
{
}

/// The transition that keyboard input stands for.
pub open spec fn transition_of(input: RawKeyboard) -> Transition {
    Transition { vk: input.vkey as u32, down: input.is_down(), up: !input.is_down() }
}

/// A session after a series of keyboard inputs.
pub open spec fn session_after_inputs<T>(
    session: ObserverSession<T>,
    inputs: Seq<RawKeyboard>,
) -> ObserverSession<T>
    decreases inputs.len(),
{
    if inputs.len() == 0 {
        session
    } else {
        session_after_inputs(session, inputs.drop_last()).after_input(inputs.last())
    }
}

/// The modifiers of a session after a series of inputs are those of the
/// transitions that the inputs stand for, and nothing else has changed.
pub proof fn law_inputs_are_transitions<T>(
    session: ObserverSession<T>,
    inputs: Seq<RawKeyboard>,
)
    ensures
        session_after_inputs(session, inputs) == (ObserverSession {
            modifiers: session.modifiers.after_all(
                inputs.map_values(|input: RawKeyboard| transition_of(input)),
            ),
            ..session
        }),
    decreases inputs.len(),
{
    let transition = |input: RawKeyboard| transition_of(input);
    if inputs.len() > 0 {
        law_inputs_are_transitions(session, inputs.drop_last());
        assert(inputs.map_values(transition).drop_last() =~= inputs.drop_last().map_values(
            transition,
        ));
        assert(inputs.map_values(transition).last() == transition(inputs.last()));
    }
}

/// Hook and observer see a key alike: from the same flags, the events that
/// they make of the same press or release differ in the character at most.
pub proof fn law_hook_and_observer_agree<T, U>(
    hook: HookSession<T>,
    observer: ObserverSession<U>,
    wparam: usize,
    key: KeyboardInput,
    input: RawKeyboard,
    hook_event: KeyEvent,
    observer_event: KeyEvent,
)
    requires
        hook.modifiers == observer.modifiers,
        key.vk_code == input.vkey,
        key.scan_code == input.make_code,
        input.is_down() ==> is_key_down(wparam),
        !input.is_down() ==> is_key_up(wparam),
        hook_event.describes(
            key.vk_code,
            key.scan_code,
            is_key_down(wparam),
            hook.after_key(wparam, key.vk_code).modifiers,
        ),
        observer_event.describes(
            input.vkey as u32,
            input.make_code as u32,
            input.is_down(),
            observer.after_input(input).modifiers,
        ),
    ensures
        hook_event.vk == observer_event.vk,
        hook_event.scancode == observer_event.scancode,
        hook_event.down == observer_event.down,
        hook_event.modifiers() == observer_event.modifiers(),
        hook.after_key(wparam, key.vk_code).modifiers == observer.after_input(input).modifiers,
{
}

} // verus!
