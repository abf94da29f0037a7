//! The keystroke event that both pipelines deliver.

use vstd::prelude::*;

use crate::modifiers::Modifiers;

verus! {

/// One keystroke. `character` is `None` for keys without a printable
/// representation (Esc, Backspace, function keys, arrows, modifiers in
/// isolation), for key releases, and for every event of the passive observer.
///
/// The receiver decides which characters become input and which keys are
/// commands; this layer only reports.
#[derive(Debug, PartialEq, Eq)]
pub struct KeyEvent {
    pub vk: u32,
    pub scancode: u32,
    pub down: bool,
    pub alt: bool,
    pub ctrl: bool,
    pub shift: bool,
    pub win: bool,
    pub character: Option<String>,
}

impl KeyEvent {
    /// The modifier flags that the event carries.
    pub open spec fn modifiers(self) -> Modifiers {
        Modifiers { shift: self.shift, ctrl: self.ctrl, alt: self.alt, win: self.win }
    }

    /// The event describes the key transition `vk`, `scancode`, `down` under
    /// the given modifier flags.
    pub open spec fn describes(
        self,
        vk: u32,
        scancode: u32,
        down: bool,
        modifiers: Modifiers,
    ) -> bool {
        &&& self.vk == vk
        &&& self.scancode == scancode
        &&& self.down == down
        &&& self.modifiers() == modifiers
    }
}

} // verus!
