//! Why a pipeline could not be started or stopped.

use vstd::prelude::*;

verus! {

/// Failures of the keyboard hook and the raw-input observer. A variant
/// with a `String` carries the description that the failing call gave.
#[derive(Debug, PartialEq, Eq)]
pub enum KeyboardError {
    /// The hook only exists on Windows.
    HookUnsupported,
    /// The observer only exists on Windows.
    ObserverUnsupported,
    /// There is no hook to remove but on Windows.
    UninstallUnsupported,
    /// There is no observer to stop but on Windows.
    StopUnsupported,
    /// A hook is installed already.
    HookAlreadyInstalled,
    /// An observer is running already.
    ObserverAlreadyRunning,
    /// The module handle could not be had.
    ModuleHandle(String),
    /// The system refused the hook.
    SetHook(String),
    /// The message-only window could not be made.
    CreateWindow,
    /// The system refused the raw-input subscription.
    RegisterDevices(String),
    /// The hook thread went away before it reported.
    HookThreadLost(String),
    /// The observer thread went away before it reported.
    ObserverThreadLost(String),
}

/// A fixed text followed by what a failing call said.
fn message(text: &str, detail: &String) -> (r: String)
    ensures
        r@ == text@ + detail@,
{
    let mut s = text.to_owned();
    s.append(detail.as_str());
    s
}

impl KeyboardError {
    /// The text of `reason`.
    pub open spec fn reason_text(self) -> Seq<char> {
        match self {
            KeyboardError::HookUnsupported =>
                "install_keyboard_hook is only supported on Windows"@,
            KeyboardError::ObserverUnsupported =>
                "start_raw_input_observer is only supported on Windows"@,
            KeyboardError::UninstallUnsupported =>
                "uninstall_keyboard_hook is only supported on Windows"@,
            KeyboardError::StopUnsupported =>
                "stop_raw_input_observer is only supported on Windows"@,
            KeyboardError::HookAlreadyInstalled => "keyboard hook is already installed"@,
            KeyboardError::ObserverAlreadyRunning => "raw input observer is already running"@,
            KeyboardError::ModuleHandle(detail) => "GetModuleHandleW failed: "@ + detail@,
            KeyboardError::SetHook(detail) => "SetWindowsHookExW failed: "@ + detail@,
            KeyboardError::CreateWindow => "CreateWindowExW failed for HWND_MESSAGE"@,
            KeyboardError::RegisterDevices(detail) => "RegisterRawInputDevices failed: "@
                + detail@,
            KeyboardError::HookThreadLost(detail) =>
                "hook thread terminated before reporting status: "@ + detail@,
            KeyboardError::ObserverThreadLost(detail) =>
                "raw input observer thread terminated before reporting status: "@ + detail@,
        }
    }

    /// What to tell the caller.
    pub fn reason(&self) -> (r: String)
        ensures
            r@ == self.reason_text(),
    {
        match self {
            KeyboardError::HookUnsupported =>
                "install_keyboard_hook is only supported on Windows".to_owned(),
            KeyboardError::ObserverUnsupported =>
                "start_raw_input_observer is only supported on Windows".to_owned(),
            KeyboardError::UninstallUnsupported =>
                "uninstall_keyboard_hook is only supported on Windows".to_owned(),
            KeyboardError::StopUnsupported =>
                "stop_raw_input_observer is only supported on Windows".to_owned(),
            KeyboardError::HookAlreadyInstalled => "keyboard hook is already installed".to_owned(),
            KeyboardError::ObserverAlreadyRunning =>
                "raw input observer is already running".to_owned(),
            KeyboardError::ModuleHandle(detail) => message("GetModuleHandleW failed: ", detail),
            KeyboardError::SetHook(detail) => message("SetWindowsHookExW failed: ", detail),
            KeyboardError::CreateWindow => "CreateWindowExW failed for HWND_MESSAGE".to_owned(),
            KeyboardError::RegisterDevices(detail) =>
                message("RegisterRawInputDevices failed: ", detail),
            KeyboardError::HookThreadLost(detail) =>
                message("hook thread terminated before reporting status: ", detail),
            KeyboardError::ObserverThreadLost(detail) =>
                message("raw input observer thread terminated before reporting status: ", detail),
        }
    }
}

} // verus!
