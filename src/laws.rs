//! Properties of the engine as a whole, over sequences of events and states.
use vstd::prelude::*;
use crate::bridge::{lemma_tag_detected, spec_capture_button, spec_emitted};
use crate::button::{Button, ButtonAction};
use crate::event::{ButtonEvent, Event, EventBlock};
use crate::hook::{
    Hook, HookAction, HotkeyCondition, RemapHook, condition_ok, fires, hook_ok, hooks_for, remaps_for,
};
use crate::modifier::{ModifierPredicate, track};
use crate::resolver::{
    button_hooks, lemma_hooks_for_ok, lemma_remaps_for_ok, passed_through, resolve, resolve_button, scan,
    scan_remaps, verdict_of,
};
use crate::storage::{RuleStore, hooks_ok, remaps_ok};

verus! {

/// The held buttons, the latches and the verdicts after resolving `events` in order.
pub open spec fn run(store: RuleStore, pressed: Set<Button>, latches: Seq<bool>, events: Seq<Event>) -> (Set<Button>, Seq<bool>, Seq<EventBlock>)
    decreases events.len(),
{
    if events.len() == 0 {
        (pressed, latches, Seq::empty())
    } else {
        let before = run(store, pressed, latches, events.drop_last());
        let o = resolve(store, before.0, before.1, events.last());
        (o.pressed, o.latches, before.2.push(o.verdict))
    }
}

/// Whether the last event on `b` in `events` is a press.
pub open spec fn last_is_press(events: Seq<Event>, b: Button) -> bool
    decreases events.len(),
{
    if events.len() == 0 {
        false
    } else {
        match events.last() {
            Event::Button(e) if e.target == b => e.action == ButtonAction::Press,
            _ => last_is_press(events.drop_last(), b),
        }
    }
}

/// Starting with nothing held, after any sequence of real events the held
/// buttons are exactly those whose last event was a press.
pub proof fn lemma_held_after_run(store: RuleStore, latches: Seq<bool>, events: Seq<Event>)
    requires
        forall|i: int| 0 <= i < events.len() ==> !(#[trigger] events[i]).spec_injected(),
    ensures
        run(store, Set::empty(), latches, events).0 == Set::new(|b: Button| last_is_press(events, b)),
    decreases events.len(),
{
    if events.len() > 0 {
        let init = events.drop_last();
        assert forall|i: int| 0 <= i < init.len() implies !(#[trigger] init[i]).spec_injected() by {
            assert(init[i] == events[i]);
        }
        lemma_held_after_run(store, latches, init);
        assert(!events[events.len() - 1].spec_injected());
        assert(run(store, Set::empty(), latches, events).0 =~= Set::new(|b: Button| last_is_press(events, b)));
    }
}

/// An event the engine sent itself changes nothing and is passed on.
pub proof fn lemma_injected_passes(store: RuleStore, pressed: Set<Button>, latches: Seq<bool>, e: Event)
    requires
        e.spec_injected(),
    ensures
        resolve(store, pressed, latches, e) == passed_through(pressed, latches),
{
}

/// Each verdict of a run is what resolving that one event gives from the
/// state the run had reached just before it.
pub proof fn lemma_verdicts_from_reached_state(
    store: RuleStore,
    pressed: Set<Button>,
    latches: Seq<bool>,
    events: Seq<Event>,
    i: int,
)
    requires
        0 <= i < events.len(),
    ensures
        ({
            let reached = run(store, pressed, latches, events.take(i));
            run(store, pressed, latches, events).2[i] == resolve(store, reached.0, reached.1, events[i]).verdict
        }),
    decreases events.len(),
{
    let init = events.drop_last();
    assert(events.take(events.len() - 1) == init);
    lemma_run_len(store, pressed, latches, init);
    if i < events.len() - 1 {
        lemma_verdicts_from_reached_state(store, pressed, latches, init, i);
        assert(init.take(i) == events.take(i));
        assert(init[i] == events[i]);
    }
}

/// A run gives one verdict per event.
pub proof fn lemma_run_len(store: RuleStore, pressed: Set<Button>, latches: Seq<bool>, events: Seq<Event>)
    ensures
        run(store, pressed, latches, events).2.len() == events.len(),
    decreases events.len(),
{
    if events.len() > 0 {
        lemma_run_len(store, pressed, latches, events.drop_last());
    }
}

/// With no matching hook the event is passed on; if any matching hook blocks,
/// or a remap fired, it is blocked.
pub proof fn lemma_block_wins(store: RuleStore, pressed: Set<Button>, latches: Seq<bool>, e: Event)
    ensures
        ({
            let o = resolve(store, pressed, latches, e);
            &&& (o.fired.len() == 0 && o.injections.len() == 0) ==> o.verdict == EventBlock::Dispatch
            &&& (exists|i: int| 0 <= i < o.fired.len() && (#[trigger] o.fired[i]).operation == EventBlock::Block)
                ==> o.verdict == EventBlock::Block
            &&& o.injections.len() > 0 ==> o.verdict == EventBlock::Block
        }),
{
}

/// A remap that fires leaves no other hook to fire for that event.
pub proof fn lemma_remap_is_total(store: RuleStore, pressed: Set<Button>, latches: Seq<bool>, e: ButtonEvent)
    ensures
        ({
            let o = resolve_button(store, pressed, latches, e);
            o.injections.len() > 0 ==> o.fired.len() == 0 && o.verdict == EventBlock::Block
        }),
{
}

/// Scanning never sets a latch that no fired hook activates, and then no
/// fired hook waits on it.
pub proof fn lemma_scan_keeps_clear_latch(hooks: Seq<Hook>, pressed: Set<Button>, latches: Seq<bool>, k: usize)
    requires
        hooks_ok(hooks, latches.len()),
        k < latches.len(),
        !latches[k as int],
        forall|i: int| 0 <= i < scan(hooks, pressed, latches).1.len()
            ==> (#[trigger] scan(hooks, pressed, latches).1[i]).action != HookAction::Activate(k),
    ensures
        !scan(hooks, pressed, latches).0[k as int],
        scan(hooks, pressed, latches).0.len() == latches.len(),
        forall|i: int| 0 <= i < scan(hooks, pressed, latches).1.len()
            ==> (#[trigger] scan(hooks, pressed, latches).1[i]).condition != HotkeyCondition::Activation(k),
    decreases hooks.len(),
{
    if hooks.len() > 0 {
        let init = hooks.drop_last();
        assert(hooks_ok(init, latches.len())) by {
            assert forall|i: int| 0 <= i < init.len() implies hook_ok(#[trigger] init[i], latches.len()) by {
                assert(init[i] == hooks[i]);
            }
        }
        let before = scan(init, pressed, latches);
        let after = scan(hooks, pressed, latches);
        assert forall|i: int| 0 <= i < before.1.len() implies (#[trigger] before.1[i]).action != HookAction::Activate(k) by {
            assert(after.1[i] == before.1[i]);
        }
        lemma_scan_keeps_clear_latch(init, pressed, latches, k);
        let h = hooks.last();
        assert(hook_ok(hooks[hooks.len() - 1], latches.len()));
        if fires(h.condition, pressed, before.0) {
            assert(after.1[before.1.len() as int] == h);
            assert forall|i: int| 0 <= i < after.1.len() implies (#[trigger] after.1[i]).condition != HotkeyCondition::Activation(k) by {
                if i < before.1.len() {
                    assert(after.1[i] == before.1[i]);
                }
            }
        }
    }
}

/// Once a hook that waits on latch `k` fires, the latch stays clear unless
/// a later fired hook sets it again.
pub proof fn lemma_scan_clears_used_latch(hooks: Seq<Hook>, pressed: Set<Button>, latches: Seq<bool>, k: usize, i: int)
    requires
        hooks_ok(hooks, latches.len()),
        k < latches.len(),
        0 <= i < scan(hooks, pressed, latches).1.len(),
        scan(hooks, pressed, latches).1[i].condition == HotkeyCondition::Activation(k),
        forall|j: int| i <= j < scan(hooks, pressed, latches).1.len()
            ==> (#[trigger] scan(hooks, pressed, latches).1[j]).action != HookAction::Activate(k),
    ensures
        !scan(hooks, pressed, latches).0[k as int],
    decreases hooks.len(),
{
    let init = hooks.drop_last();
    assert(hooks_ok(init, latches.len())) by {
        assert forall|j: int| 0 <= j < init.len() implies hook_ok(#[trigger] init[j], latches.len()) by {
            assert(init[j] == hooks[j]);
        }
    }
    lemma_scan_len(init, pressed, latches);
    let before = scan(init, pressed, latches);
    let after = scan(hooks, pressed, latches);
    let h = hooks.last();
    assert(hook_ok(hooks[hooks.len() - 1], latches.len()));
    if fires(h.condition, pressed, before.0) {
        if i < before.1.len() {
            assert(after.1[i] == before.1[i]);
            assert forall|j: int| i <= j < before.1.len() implies (#[trigger] before.1[j]).action != HookAction::Activate(k) by {
                assert(after.1[j] == before.1[j]);
            }
            lemma_scan_clears_used_latch(init, pressed, latches, k, i);
        }
        assert(after.1[before.1.len() as int] == h);
    } else {
        lemma_scan_clears_used_latch(init, pressed, latches, k, i);
    }
}

/// Scanning keeps the number of latches.
pub proof fn lemma_scan_len(hooks: Seq<Hook>, pressed: Set<Button>, latches: Seq<bool>)
    requires
        hooks_ok(hooks, latches.len()),
    ensures
        scan(hooks, pressed, latches).0.len() == latches.len(),
    decreases hooks.len(),
{
    if hooks.len() > 0 {
        let init = hooks.drop_last();
        assert(hooks_ok(init, latches.len())) by {
            assert forall|j: int| 0 <= j < init.len() implies hook_ok(#[trigger] init[j], latches.len()) by {
                assert(init[j] == hooks[j]);
            }
        }
        lemma_scan_len(init, pressed, latches);
        assert(hook_ok(hooks[hooks.len() - 1], latches.len()));
    }
}

/// Remaps never set a latch.
pub proof fn lemma_remaps_keep_clear_latch(
    remaps: Seq<RemapHook>,
    action: ButtonAction,
    pressed: Set<Button>,
    latches: Seq<bool>,
    k: int,
)
    requires
        remaps_ok(remaps, latches.len()),
        0 <= k < latches.len(),
        !latches[k],
    ensures
        !scan_remaps(remaps, action, pressed, latches).0[k],
        scan_remaps(remaps, action, pressed, latches).0.len() == latches.len(),
    decreases remaps.len(),
{
    if remaps.len() > 0 {
        lemma_remaps_ok_prefix(remaps, latches.len());
        lemma_remaps_keep_clear_latch(remaps.drop_last(), action, pressed, latches, k);
        assert(condition_ok(remaps[remaps.len() - 1].condition, latches.len()));
    }
}

/// If no remap of the event's button fires, the remaps leave the latches alone and send nothing.
pub proof fn lemma_no_remap_fires(remaps: Seq<RemapHook>, action: ButtonAction, pressed: Set<Button>, latches: Seq<bool>)
    requires
        forall|i: int| 0 <= i < remaps.len() ==> !fires((#[trigger] remaps[i]).condition, pressed, latches),
    ensures
        scan_remaps(remaps, action, pressed, latches) == (latches, Seq::<ButtonEvent>::empty()),
    decreases remaps.len(),
{
    if remaps.len() > 0 {
        let init = remaps.drop_last();
        assert forall|i: int| 0 <= i < init.len() implies !fires((#[trigger] init[i]).condition, pressed, latches) by {
            assert(init[i] == remaps[i]);
        }
        lemma_no_remap_fires(init, action, pressed, latches);
        assert(!fires(remaps[remaps.len() - 1].condition, pressed, latches));
    }
}

/// One-shot latches: an event that activates no latch `k` fires nothing that
/// waits on `k` when `k` is clear, and leaves `k` clear.
pub proof fn lemma_latch_needs_activation(store: RuleStore, pressed: Set<Button>, latches: Seq<bool>, e: ButtonEvent, k: usize)
    requires
        store.wf(),
        latches.len() == store.spec_latch_count(),
        k < latches.len(),
        !latches[k as int],
        forall|i: int| 0 <= i < resolve_button(store, pressed, latches, e).fired.len()
            ==> (#[trigger] resolve_button(store, pressed, latches, e).fired[i]).action != HookAction::Activate(k),
    ensures
        !resolve_button(store, pressed, latches, e).latches[k as int],
        forall|i: int| 0 <= i < resolve_button(store, pressed, latches, e).fired.len()
            ==> (#[trigger] resolve_button(store, pressed, latches, e).fired[i]).condition != HotkeyCondition::Activation(k),
{
    if !e.injected {
        let p = track(pressed, e.target, e.action);
        let remapped = scan_remaps(remaps_for(store.spec_remaps(), e.target), e.action, p, latches);
        lemma_remaps_for_ok(store.spec_remaps(), e.target, latches.len());
        lemma_remaps_keep_clear_latch(remaps_for(store.spec_remaps(), e.target), e.action, p, latches, k as int);
        if remapped.1.len() == 0 {
            lemma_hooks_for_ok(store.spec_on_press(), e.target, latches.len());
            lemma_hooks_for_ok(store.spec_on_release(), e.target, latches.len());
            lemma_scan_keeps_clear_latch(button_hooks(store, e), p, remapped.0, k);
        }
    }
}

/// One-shot latches: once a hook that waits on latch `k` fires, `k` is clear
/// afterwards unless a later fired hook of the same event sets it.
pub proof fn lemma_latch_used_up(store: RuleStore, pressed: Set<Button>, latches: Seq<bool>, e: ButtonEvent, k: usize, i: int)
    requires
        store.wf(),
        latches.len() == store.spec_latch_count(),
        k < latches.len(),
        0 <= i < resolve_button(store, pressed, latches, e).fired.len(),
        resolve_button(store, pressed, latches, e).fired[i].condition == HotkeyCondition::Activation(k),
        forall|j: int| i <= j < resolve_button(store, pressed, latches, e).fired.len()
            ==> (#[trigger] resolve_button(store, pressed, latches, e).fired[j]).action != HookAction::Activate(k),
    ensures
        !resolve_button(store, pressed, latches, e).latches[k as int],
{
    let p = track(pressed, e.target, e.action);
    let remapped = scan_remaps(remaps_for(store.spec_remaps(), e.target), e.action, p, latches);
    lemma_remaps_for_ok(store.spec_remaps(), e.target, latches.len());
    lemma_remaps_len(remaps_for(store.spec_remaps(), e.target), e.action, p, latches);
    lemma_hooks_for_ok(store.spec_on_press(), e.target, latches.len());
    lemma_hooks_for_ok(store.spec_on_release(), e.target, latches.len());
    lemma_scan_clears_used_latch(button_hooks(store, e), p, remapped.0, k, i);
}

/// Remaps keep the number of latches.
pub proof fn lemma_remaps_len(remaps: Seq<RemapHook>, action: ButtonAction, pressed: Set<Button>, latches: Seq<bool>)
    requires
        remaps_ok(remaps, latches.len()),
    ensures
        scan_remaps(remaps, action, pressed, latches).0.len() == latches.len(),
    decreases remaps.len(),
{
    if remaps.len() > 0 {
        lemma_remaps_ok_prefix(remaps, latches.len());
        lemma_remaps_len(remaps.drop_last(), action, pressed, latches);
        assert(condition_ok(remaps[remaps.len() - 1].condition, latches.len()));
    }
}

/// Dropping the last remap keeps the rest well formed.
proof fn lemma_remaps_ok_prefix(remaps: Seq<RemapHook>, n: nat)
    requires
        remaps_ok(remaps, n),
        remaps.len() > 0,
    ensures
        remaps_ok(remaps.drop_last(), n),
{
    assert forall|j: int| 0 <= j < remaps.drop_last().len() implies condition_ok(#[trigger] remaps.drop_last()[j].condition, n) by {
        assert(remaps.drop_last()[j] == remaps[j]);
    }
}

/// A second press of a held button leaves the held buttons as the first press did.
pub proof fn lemma_repeated_press(store: RuleStore, pressed: Set<Button>, latches: Seq<bool>, b: Button)
    ensures
        ({
            let e = ButtonEvent { target: b, action: ButtonAction::Press, injected: false };
            let first = resolve_button(store, pressed, latches, e);
            resolve_button(store, first.pressed, first.latches, e).pressed == first.pressed
        }),
{
    let first = pressed.insert(b);
    assert(first.insert(b) =~= first);
}

/// A press or release the injector sent comes back marked as injected, and is passed on untouched.
pub proof fn lemma_loopback(store: RuleStore, pressed: Set<Button>, latches: Seq<bool>, b: Button, action: ButtonAction)
    ensures
        spec_capture_button(spec_emitted(b, action)).injected,
        resolve_button(store, pressed, latches, spec_capture_button(spec_emitted(b, action)))
            == passed_through(pressed, latches),
{
    lemma_tag_detected();
}

/// A predicate with no requirement holds whatever is held.
pub proof fn lemma_empty_predicate(m: ModifierPredicate, pressed: Set<Button>)
    requires
        m.pressed_required@ == Set::<Button>::empty(),
        m.released_required@ == Set::<Button>::empty(),
    ensures
        m.satisfied_in(pressed),
{
}

/// A real press whose remaps do not fire goes on to the press hooks.
pub proof fn lemma_press_falls_through(store: RuleStore, pressed: Set<Button>, latches: Seq<bool>, b: Button)
    requires
        ({
            let remaps = remaps_for(store.spec_remaps(), b);
            forall|i: int| 0 <= i < remaps.len()
                ==> !fires((#[trigger] remaps[i]).condition, pressed.insert(b), latches)
        }),
    ensures
        ({
            let o = resolve_button(store, pressed, latches, ButtonEvent { target: b, action: ButtonAction::Press, injected: false });
            let run = scan(hooks_for(store.spec_on_press(), b), pressed.insert(b), latches);
            &&& o.injections.len() == 0
            &&& o.fired == run.1
            &&& o.latches == run.0
            &&& o.verdict == verdict_of(run.1)
        }),
{
    lemma_no_remap_fires(remaps_for(store.spec_remaps(), b), ButtonAction::Press, pressed.insert(b), latches);
}

/// Wheel and cursor events never change the held buttons.
pub proof fn lemma_mouse_keeps_held(store: RuleStore, pressed: Set<Button>, latches: Seq<bool>, e: Event)
    requires
        !(e is Button),
    ensures
        resolve(store, pressed, latches, e).pressed == pressed,
{
}

} // verus!
