//! Keyboard pipelines for Windows, as state machines without I/O.
//!
//! * `win_hook`: an opt-in low-level keyboard hook that swallows keystrokes
//!   and forwards them to a callback, for as long as the user is in a typing
//!   mode.
//! * `raw_input`: a passive observer of global keystrokes that swallows
//!   nothing.
//!
//! Both report `KeyEvent`s. The functions of this module are the entry points;
//! on other platforms than Windows each of them returns an error.

pub mod character;
pub mod error;
pub mod event;
pub mod hook_laws;
pub mod key_laws;
pub mod lifecycle_laws;
pub mod modifiers;
pub mod observer_laws;
pub mod raw_input;
pub mod tsfn;
pub mod win32;
pub mod win_hook;

pub use crate::event::KeyEvent;

use vstd::prelude::*;

use crate::error::KeyboardError;
use crate::raw_input::{ObserverAction, ObserverSession, ObserverThread, WindowMessage};
use crate::win_hook::{HookAction, HookSession, HookThread, ThreadMessage};

verus! {

/// The system that the library runs on, as far as it matters here.
#[derive(Clone, Copy, Debug, PartialEq, Eq, Structural)]
pub enum Platform {
    Windows,
    Other,
}

/// Begins to install the keyboard hook: see `win_hook::install`.
pub fn install_keyboard_hook<T>(
    platform: Platform,
    session: &mut HookSession<T>,
    callback: T,
) -> (r: Result<(HookThread, HookAction), KeyboardError>)
    ensures
        platform is Other ==> {
            &&& r == Err::<(HookThread, HookAction), _>(KeyboardError::HookUnsupported)
            &&& *final(session) == *old(session)
        },
        platform is Windows && old(session).running ==> {
            &&& r == Err::<(HookThread, HookAction), _>(KeyboardError::HookAlreadyInstalled)
            &&& *final(session) == *old(session)
        },
        platform is Windows && !old(session).running ==> {
            &&& r == Ok::<_, KeyboardError>((HookThread::Loading, HookAction::GetModuleHandle))
            &&& *final(session) == old(session).claimed(callback)
        },
{
    match platform {
        Platform::Windows => win_hook::install(session, callback),
        Platform::Other => Err(KeyboardError::HookUnsupported),
    }
}

/// Begins to uninstall the keyboard hook, with the message to post, if any: see
/// `win_hook::uninstall` and, for the end of it, `win_hook::finish_uninstall`.
pub fn uninstall_keyboard_hook<T>(platform: Platform, session: &HookSession<T>) -> (r: Result<
    Option<ThreadMessage>,
    KeyboardError,
>)
    ensures
        r == match platform {
            Platform::Windows => Ok(win_hook::quit_message(*session)),
            Platform::Other => Err(KeyboardError::UninstallUnsupported),
        },
{
    match platform {
        Platform::Windows => Ok(win_hook::uninstall(session)),
        Platform::Other => Err(KeyboardError::UninstallUnsupported),
    }
}

/// Begins to start the raw-input observer: see `raw_input::start`.
pub fn start_raw_input_observer<T>(
    platform: Platform,
    session: &mut ObserverSession<T>,
    callback: T,
) -> (r: Result<(ObserverThread, ObserverAction), KeyboardError>)
    ensures
        platform is Other ==> {
            &&& r == Err::<(ObserverThread, ObserverAction), _>(KeyboardError::ObserverUnsupported)
            &&& *final(session) == *old(session)
        },
        platform is Windows && old(session).running ==> {
            &&& r == Err::<(ObserverThread, ObserverAction), _>(
                KeyboardError::ObserverAlreadyRunning,
            )
            &&& *final(session) == *old(session)
        },
        platform is Windows && !old(session).running ==> {
            &&& r == Ok::<_, KeyboardError>(
                (ObserverThread::Loading, ObserverAction::GetModuleHandle),
            )
            &&& *final(session) == old(session).claimed(callback)
        },
{
    match platform {
        Platform::Windows => raw_input::start(session, callback),
        Platform::Other => Err(KeyboardError::ObserverUnsupported),
    }
}

/// Stops the raw-input observer, with the message to post, if any: see
/// `raw_input::stop`.
pub fn stop_raw_input_observer<T>(platform: Platform, session: &ObserverSession<T>) -> (r: Result<
    Option<WindowMessage>,
    KeyboardError,
>)
    ensures
        r == match platform {
            Platform::Windows => Ok(raw_input::close_message(*session)),
            Platform::Other => Err(KeyboardError::StopUnsupported),
        },
{
    match platform {
        Platform::Windows => Ok(raw_input::stop(session)),
        Platform::Other => Err(KeyboardError::StopUnsupported),
    }
}

} // verus!
