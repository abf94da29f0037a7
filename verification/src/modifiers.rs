//! Which modifier keys are down, as far as observed key transitions tell.
//!
//! Left, right and side-neutral codes of a modifier share one flag, so letting
//! go of one Shift key clears the flag although the other may still be held.

use vstd::prelude::*;

use crate::win32::{
    VK_CONTROL, VK_LCONTROL, VK_LMENU, VK_LSHIFT, VK_LWIN, VK_MENU, VK_RCONTROL, VK_RMENU,
    VK_RSHIFT, VK_RWIN, VK_SHIFT,
};

verus! {

/// The four kinds of modifier key.
#[derive(Clone, Copy, Debug, PartialEq, Eq, Structural)]
pub enum ModifierGroup {
    Shift,
    Ctrl,
    Alt,
    Win,
}

/// The modifier flags.
#[derive(Clone, Copy, Debug, PartialEq, Eq, Structural)]
pub struct Modifiers {
    pub shift: bool,
    pub ctrl: bool,
    pub alt: bool,
    pub win: bool,
}

/// One observed key transition. A transition that is neither `down` nor `up`
/// stands for a message that is no key press or release.
pub struct Transition {
    pub vk: u32,
    pub down: bool,
    pub up: bool,
}

/// The kind of modifier that a virtual key is, if it is one.
pub open spec fn modifier_group(vk: u32) -> Option<ModifierGroup> {
    if vk == VK_LSHIFT || vk == VK_RSHIFT || vk == VK_SHIFT {
        Some(ModifierGroup::Shift)
    } else if vk == VK_LCONTROL || vk == VK_RCONTROL || vk == VK_CONTROL {
        Some(ModifierGroup::Ctrl)
    } else if vk == VK_LMENU || vk == VK_RMENU || vk == VK_MENU {
        Some(ModifierGroup::Alt)
    } else if vk == VK_LWIN || vk == VK_RWIN {
        Some(ModifierGroup::Win)
    } else {
        None
    }
}

/// Whether a virtual key is a modifier.
pub open spec fn is_modifier(vk: u32) -> bool {
    modifier_group(vk) is Some
}

impl Transition {
    /// The transition presses or releases a key of the group.
    pub open spec fn touches(self, group: ModifierGroup) -> bool {
        modifier_group(self.vk) == Some(group) && (self.down || self.up)
    }
}

impl Modifiers {
    /// No modifier is down.
    pub open spec fn none_down() -> Modifiers {
        Modifiers { shift: false, ctrl: false, alt: false, win: false }
    }

    /// The flag of one group.
    pub open spec fn flag(self, group: ModifierGroup) -> bool {
        match group {
            ModifierGroup::Shift => self.shift,
            ModifierGroup::Ctrl => self.ctrl,
            ModifierGroup::Alt => self.alt,
            ModifierGroup::Win => self.win,
        }
    }

    /// The same flags but for one group.
    pub open spec fn with_flag(self, group: ModifierGroup, value: bool) -> Modifiers {
        match group {
            ModifierGroup::Shift => Modifiers { shift: value, ..self },
            ModifierGroup::Ctrl => Modifiers { ctrl: value, ..self },
            ModifierGroup::Alt => Modifiers { alt: value, ..self },
            ModifierGroup::Win => Modifiers { win: value, ..self },
        }
    }

    /// The flags after one transition: a modifier's flag says whether its
    /// latest transition was a press; a transition that claims to be both
    /// counts as a release.
    pub open spec fn after(self, vk: u32, down: bool, up: bool) -> Modifiers {
        match modifier_group(vk) {
            Some(group) => if down || up {
                self.with_flag(group, !up)
            } else {
                self
            },
            None => self,
        }
    }

    /// The flags after a series of transitions.
    pub open spec fn after_all(self, transitions: Seq<Transition>) -> Modifiers
        decreases transitions.len(),
    {
        if transitions.len() == 0 {
            self
        } else {
            let last = transitions.last();
            self.after_all(transitions.drop_last()).after(last.vk, last.down, last.up)
        }
    }

    /// Flags that say that no modifier is down.
    pub fn released() -> (r: Modifiers)
        ensures
            r == Modifiers::none_down(),
    {
        Modifiers { shift: false, ctrl: false, alt: false, win: false }
    }

    /// Forgets every modifier, so that nothing held during an earlier cycle
    /// bleeds into the next.
    pub fn reset(&mut self)
        ensures
            *final(self) == Modifiers::none_down(),
    {
        self.shift = false;
        self.ctrl = false;
        self.alt = false;
        self.win = false;
    }

    /// Records one key transition and says whether the key is a modifier, so
    /// that callers can refrain from resolving a character for it.
    pub fn update_modifier_state(&mut self, vk: u32, down: bool, up: bool) -> (r: bool)
        ensures
            *final(self) == old(self).after(vk, down, up),
            r == is_modifier(vk),
    {
        if vk == VK_LSHIFT || vk == VK_RSHIFT || vk == VK_SHIFT {
            if down {
                self.shift = true;
            }
            if up {
                self.shift = false;
            }
            return true;
        }
        if vk == VK_LCONTROL || vk == VK_RCONTROL || vk == VK_CONTROL {
            if down {
                self.ctrl = true;
            }
            if up {
                self.ctrl = false;
            }
            return true;
        }
        if vk == VK_LMENU || vk == VK_RMENU || vk == VK_MENU {
            if down {
                self.alt = true;
            }
            if up {
                self.alt = false;
            }
            return true;
        }
        if vk == VK_LWIN || vk == VK_RWIN {
            if down {
                self.win = true;
            }
            if up {
                self.win = false;
            }
            return true;
        }
        false
    }
}

/// A modifier's flag says whether the latest transition of its group was a
/// press, whatever came before it and whatever other keys did since.
pub proof fn law_flag_is_latest_transition(
    start: Modifiers,
    transitions: Seq<Transition>,
    group: ModifierGroup,
    latest: int,
)
    requires
        0 <= latest < transitions.len(),
        transitions[latest].touches(group),
        forall|i: int|
            latest < i < transitions.len() ==> !(#[trigger] transitions[i]).touches(group),
    ensures
        start.after_all(transitions).flag(group) == !transitions[latest].up,
    decreases transitions.len(),
{
    if latest < transitions.len() - 1 {
        let init = transitions.drop_last();
        assert(init[latest] == transitions[latest]);
        assert forall|i: int| latest < i < init.len() implies !(#[trigger] init[i]).touches(
            group,
        ) by {
            assert(init[i] == transitions[i]);
        }
        law_flag_is_latest_transition(start, init, group, latest);
        assert(!transitions[transitions.len() - 1].touches(group));
    }
}

/// A modifier's flag keeps its value for as long as no key of its group is
/// pressed or released.
pub proof fn law_flag_kept_without_transition(
    start: Modifiers,
    transitions: Seq<Transition>,
    group: ModifierGroup,
)
    requires
        forall|i: int| 0 <= i < transitions.len() ==> !(#[trigger] transitions[i]).touches(group),
    ensures
        start.after_all(transitions).flag(group) == start.flag(group),
    decreases transitions.len(),
{
    if transitions.len() > 0 {
        let init = transitions.drop_last();
        assert forall|i: int| 0 <= i < init.len() implies !(#[trigger] init[i]).touches(group) by {
            assert(init[i] == transitions[i]);
        }
        law_flag_kept_without_transition(start, init, group);
        assert(!transitions[transitions.len() - 1].touches(group));
    }
}

/// Keys that are no modifiers never change a flag.
pub proof fn law_ordinary_keys_change_nothing(start: Modifiers, transitions: Seq<Transition>)
    requires
        forall|i: int|
            0 <= i < transitions.len() ==> !is_modifier((#[trigger] transitions[i]).vk),
    ensures
        start.after_all(transitions) == start,
    decreases transitions.len(),
{
    if transitions.len() > 0 {
        let init = transitions.drop_last();
        assert forall|i: int| 0 <= i < init.len() implies !is_modifier(
            (#[trigger] init[i]).vk,
        ) by {
            assert(init[i] == transitions[i]);
        }
        law_ordinary_keys_change_nothing(start, init);
        assert(!is_modifier(transitions[transitions.len() - 1].vk));
    }
}

/// A stale flag is put right by the next transition of the modifier: from then
/// on, tracking that started from any two states agrees on that modifier.
pub proof fn law_stale_flag_corrects_itself(
    known: Modifiers,
    actual: Modifiers,
    transitions: Seq<Transition>,
    group: ModifierGroup,
)
    requires
        exists|i: int| 0 <= i < transitions.len() && (#[trigger] transitions[i]).touches(group),
    ensures
        known.after_all(transitions).flag(group) == actual.after_all(transitions).flag(group),
    decreases transitions.len(),
{
    let last = transitions.last();
    if !last.touches(group) {
        let init = transitions.drop_last();
        let i = choose|i: int|
            0 <= i < transitions.len() && (#[trigger] transitions[i]).touches(group);
        assert(init[i].touches(group));
        law_stale_flag_corrects_itself(known, actual, init, group);
    }
}

} // verus!
