//! Hooks: a trigger, a condition, what to do, and whether to block the event.
use vstd::prelude::*;
use crate::button::Button;
use crate::event::EventBlock;
use crate::modifier::ModifierPredicate;

verus! {

/// When a hook may fire.
#[derive(Clone, Copy, Debug)]
pub enum HotkeyCondition {
    /// Always.
    Any,
    /// When the predicate holds for the held buttons.
    Modifier(ModifierPredicate),
    /// When the latch with this number is set; firing clears it.
    Activation(usize),
}

/// What a hook does when it fires.
#[derive(Clone, Copy, Debug, PartialEq, Eq, Structural)]
pub enum HookAction {
    /// Runs the user callback with this number.
    Callback(usize),
    /// Sets the latch with this number.
    Activate(usize),
    /// Does nothing: the hook only blocks or passes its event on.
    Ignore,
}

/// A hook, without its trigger.
#[derive(Clone, Copy, Debug)]
pub struct Hook {
    pub condition: HotkeyCondition,
    pub action: HookAction,
    pub operation: EventBlock,
}

/// A hook on one button.
#[derive(Clone, Copy, Debug)]
pub struct ButtonHook {
    pub trigger: Button,
    pub hook: Hook,
}

/// Sends the same action on `target` whenever `trigger` acts, and blocks the trigger's event.
#[derive(Clone, Copy, Debug)]
pub struct RemapHook {
    pub trigger: Button,
    pub condition: HotkeyCondition,
    pub target: Button,
}

/// Whether the condition lets its hook fire, with `pressed` held and the latches as given.
pub open spec fn fires(c: HotkeyCondition, pressed: Set<Button>, latches: Seq<bool>) -> bool {
    match c {
        HotkeyCondition::Any => true,
        HotkeyCondition::Modifier(m) => m.satisfied_in(pressed),
        HotkeyCondition::Activation(l) => latches[l as int],
    }
}

/// The latches after the condition let its hook fire: an activation is used up.
pub open spec fn consume(c: HotkeyCondition, latches: Seq<bool>) -> Seq<bool> {
    match c {
        HotkeyCondition::Activation(l) => latches.update(l as int, false),
        _ => latches,
    }
}

/// The latches after the action ran.
pub open spec fn perform(a: HookAction, latches: Seq<bool>) -> Seq<bool> {
    match a {
        HookAction::Activate(l) => latches.update(l as int, true),
        _ => latches,
    }
}

/// Every latch the condition names is below `n`.
pub open spec fn condition_ok(c: HotkeyCondition, n: nat) -> bool {
    match c {
        HotkeyCondition::Activation(l) => l < n,
        _ => true,
    }
}

/// Every latch the hook names is below `n`.
pub open spec fn hook_ok(h: Hook, n: nat) -> bool {
    &&& condition_ok(h.condition, n)
    &&& match h.action {
        HookAction::Activate(l) => l < n,
        _ => true,
    }
}

/// The hooks of `hooks` whose trigger is `b`, in order.
pub open spec fn hooks_for(hooks: Seq<ButtonHook>, b: Button) -> Seq<Hook>
    decreases hooks.len(),
{
    if hooks.len() == 0 {
        Seq::empty()
    } else {
        let rest = hooks_for(hooks.drop_last(), b);
        if hooks.last().trigger == b {
            rest.push(hooks.last().hook)
        } else {
            rest
        }
    }
}

/// The remaps of `remaps` whose trigger is `b`, in order.
pub open spec fn remaps_for(remaps: Seq<RemapHook>, b: Button) -> Seq<RemapHook>
    decreases remaps.len(),
{
    if remaps.len() == 0 {
        Seq::empty()
    } else {
        let rest = remaps_for(remaps.drop_last(), b);
        if remaps.last().trigger == b {
            rest.push(remaps.last())
        } else {
            rest
        }
    }
}

} // verus!
