//! The resolver: for each event, updates the held buttons, picks the hooks
//! that fire, and decides whether the event is blocked.
use vstd::prelude::*;
use crate::button::{Button, ButtonAction};
use crate::event::{ButtonEvent, CursorEvent, Event, EventBlock, WheelEvent};
use crate::hook::{
    ButtonHook, Hook, HookAction, HotkeyCondition, RemapHook, condition_ok, consume, fires,
    hook_ok, hooks_for, perform, remaps_for,
};
use crate::modifier::{ModifierTracker, track};
use crate::storage::{RuleStore, button_hooks_ok, hooks_ok, remaps_ok};

verus! {

/// What the resolver decides for one event, and the state it leaves.
pub struct Outcome {
    /// The held buttons afterwards.
    pub pressed: Set<Button>,
    /// The latches afterwards.
    pub latches: Seq<bool>,
    /// Whether the event is passed on.
    pub verdict: EventBlock,
    /// The hooks that fired, in order.
    pub fired: Seq<Hook>,
    /// The events to send in place of a remapped one.
    pub injections: Seq<ButtonEvent>,
}

/// Runs `hooks` in order: each whose condition holds fires.
/// Returns the latches afterwards and the hooks that fired.
pub open spec fn scan(hooks: Seq<Hook>, pressed: Set<Button>, latches: Seq<bool>) -> (Seq<bool>, Seq<Hook>)
    decreases hooks.len(),
{
    if hooks.len() == 0 {
        (latches, Seq::empty())
    } else {
        let before = scan(hooks.drop_last(), pressed, latches);
        let h = hooks.last();
        if fires(h.condition, pressed, before.0) {
            (perform(h.action, consume(h.condition, before.0)), before.1.push(h))
        } else {
            before
        }
    }
}

/// Runs `remaps` in order for `action`: each whose condition holds sends
/// `action` on its target. Returns the latches afterwards and what is sent.
pub open spec fn scan_remaps(
    remaps: Seq<RemapHook>,
    action: ButtonAction,
    pressed: Set<Button>,
    latches: Seq<bool>,
) -> (Seq<bool>, Seq<ButtonEvent>)
    decreases remaps.len(),
{
    if remaps.len() == 0 {
        (latches, Seq::empty())
    } else {
        let before = scan_remaps(remaps.drop_last(), action, pressed, latches);
        let r = remaps.last();
        if fires(r.condition, pressed, before.0) {
            (
                consume(r.condition, before.0),
                before.1.push(ButtonEvent { target: r.target, action, injected: true }),
            )
        } else {
            before
        }
    }
}

/// Block if any fired hook blocks, else Dispatch.
pub open spec fn verdict_of(fired: Seq<Hook>) -> EventBlock {
    if exists|i: int| 0 <= i < fired.len() && (#[trigger] fired[i]).operation == EventBlock::Block {
        EventBlock::Block
    } else {
        EventBlock::Dispatch
    }
}

/// The user callbacks of the fired hooks, in order.
pub open spec fn callbacks_of(fired: Seq<Hook>) -> Seq<usize>
    decreases fired.len(),
{
    if fired.len() == 0 {
        Seq::empty()
    } else {
        let rest = callbacks_of(fired.drop_last());
        match fired.last().action {
            HookAction::Callback(id) => rest.push(id),
            _ => rest,
        }
    }
}

/// An event the engine sent itself: nothing changes and it is passed on.
pub open spec fn passed_through(pressed: Set<Button>, latches: Seq<bool>) -> Outcome {
    Outcome {
        pressed,
        latches,
        verdict: EventBlock::Dispatch,
        fired: Seq::empty(),
        injections: Seq::empty(),
    }
}

/// The hooks a button event looks at once no remap fired.
pub open spec fn button_hooks(store: RuleStore, e: ButtonEvent) -> Seq<Hook> {
    match e.action {
        ButtonAction::Press => hooks_for(store.spec_on_press(), e.target),
        ButtonAction::Release => hooks_for(store.spec_on_release(), e.target),
    }
}

/// What the resolver does with a button event.
pub open spec fn resolve_button(store: RuleStore, pressed: Set<Button>, latches: Seq<bool>, e: ButtonEvent) -> Outcome {
    if e.injected {
        passed_through(pressed, latches)
    } else {
        let p = track(pressed, e.target, e.action);
        let remapped = scan_remaps(remaps_for(store.spec_remaps(), e.target), e.action, p, latches);
        if remapped.1.len() > 0 {
            Outcome {
                pressed: p,
                latches: remapped.0,
                verdict: EventBlock::Block,
                fired: Seq::empty(),
                injections: remapped.1,
            }
        } else {
            let run = scan(button_hooks(store, e), p, remapped.0);
            Outcome {
                pressed: p,
                latches: run.0,
                verdict: verdict_of(run.1),
                fired: run.1,
                injections: Seq::empty(),
            }
        }
    }
}

/// What the resolver does with a wheel or cursor event, given the hooks for its kind.
pub open spec fn resolve_mouse(hooks: Seq<Hook>, pressed: Set<Button>, latches: Seq<bool>, injected: bool) -> Outcome {
    if injected {
        passed_through(pressed, latches)
    } else {
        let run = scan(hooks, pressed, latches);
        Outcome {
            pressed,
            latches: run.0,
            verdict: verdict_of(run.1),
            fired: run.1,
            injections: Seq::empty(),
        }
    }
}

/// What the resolver does with any event.
pub open spec fn resolve(store: RuleStore, pressed: Set<Button>, latches: Seq<bool>, e: Event) -> Outcome {
    match e {
        Event::Button(b) => resolve_button(store, pressed, latches, b),
        Event::Wheel(w) => resolve_mouse(store.spec_wheel(), pressed, latches, w.injected),
        Event::Cursor(c) => resolve_mouse(store.spec_cursor(), pressed, latches, c.injected),
    }
}

/// Selecting hooks by trigger keeps them well formed.
pub proof fn lemma_hooks_for_ok(s: Seq<ButtonHook>, b: Button, n: nat)
    requires
        button_hooks_ok(s, n),
    ensures
        hooks_ok(hooks_for(s, b), n),
    decreases s.len(),
{
    if s.len() > 0 {
        assert(button_hooks_ok(s.drop_last(), n)) by {
            assert forall|i: int| 0 <= i < s.drop_last().len() implies hook_ok(#[trigger] s.drop_last()[i].hook, n) by {
                assert(s.drop_last()[i] == s[i]);
            }
        }
        lemma_hooks_for_ok(s.drop_last(), b, n);
        assert(hook_ok(s[s.len() - 1].hook, n));
    }
}

/// Selecting remaps by trigger keeps them well formed.
pub proof fn lemma_remaps_for_ok(s: Seq<RemapHook>, b: Button, n: nat)
    requires
        remaps_ok(s, n),
    ensures
        remaps_ok(remaps_for(s, b), n),
    decreases s.len(),
{
    if s.len() > 0 {
        assert(remaps_ok(s.drop_last(), n)) by {
            assert forall|i: int| 0 <= i < s.drop_last().len() implies condition_ok(#[trigger] s.drop_last()[i].condition, n) by {
                assert(s.drop_last()[i] == s[i]);
            }
        }
        lemma_remaps_for_ok(s.drop_last(), b, n);
        assert(condition_ok(s[s.len() - 1].condition, n));
    }
}

/// Evaluates `c`; where it holds on a latch, the latch is cleared.
fn take_condition(latches: &mut Vec<bool>, tracker: &ModifierTracker, c: HotkeyCondition) -> (r: bool)
    requires
        condition_ok(c, old(latches)@.len()),
    ensures
        r == fires(c, tracker@, old(latches)@),
        final(latches)@ == (if r { consume(c, old(latches)@) } else { old(latches)@ }),
{
    match c {
        HotkeyCondition::Any => true,
        HotkeyCondition::Modifier(m) => m.is_satisfied(tracker),
        HotkeyCondition::Activation(l) => {
            if latches[l] {
                latches[l] = false;
                true
            } else {
                false
            }
        },
    }
}

/// Runs `hooks` in order; returns whether any fired hook blocks, and the callbacks.
fn run_hooks(latches: &mut Vec<bool>, tracker: &ModifierTracker, hooks: &Vec<Hook>) -> (r: (bool, Vec<usize>))
    requires
        hooks_ok(hooks@, old(latches)@.len()),
    ensures
        ({
            let run = scan(hooks@, tracker@, old(latches)@);
            &&& final(latches)@ == run.0
            &&& r.0 == (verdict_of(run.1) == EventBlock::Block)
            &&& r.1@ == callbacks_of(run.1)
        }),
        final(latches)@.len() == old(latches)@.len(),
{
    let ghost start = latches@;
    let ghost mut fired: Seq<Hook> = Seq::empty();
    let mut block = false;
    let mut callbacks: Vec<usize> = Vec::new();
    let mut i: usize = 0;
    while i < hooks.len()
        invariant
            i <= hooks@.len(),
            hooks_ok(hooks@, start.len()),
            start == old(latches)@,
            latches@.len() == start.len(),
            scan(hooks@.take(i as int), tracker@, start) == (latches@, fired),
            block == (verdict_of(fired) == EventBlock::Block),
            callbacks@ == callbacks_of(fired),
        decreases hooks@.len() - i,
    {
        let h = hooks[i];
        proof {
            assert(hook_ok(hooks@[i as int], start.len()));
            assert(hooks@.take(i + 1).drop_last() == hooks@.take(i as int));
            assert(hooks@.take(i + 1).last() == h);
        }
        if take_condition(latches, tracker, h.condition) {
            match h.action {
                HookAction::Callback(id) => callbacks.push(id),
                HookAction::Activate(l) => {
                    latches[l] = true;
                },
                HookAction::Ignore => {},
            }
            if h.operation == EventBlock::Block {
                block = true;
            }
            proof {
                let f2 = fired.push(h);
                assert(f2.drop_last() == fired);
                assert(f2[fired.len() as int] == h);
                if h.operation == EventBlock::Block {
                    assert(f2[fired.len() as int].operation == EventBlock::Block);
                } else {
                    assert forall|k: int| 0 <= k < f2.len() implies
                        (#[trigger] f2[k]).operation == EventBlock::Block <==> (k < fired.len() && fired[k].operation == EventBlock::Block) by {
                        if k < fired.len() {
                            assert(f2[k] == fired[k]);
                        }
                    }
                    if verdict_of(fired) == EventBlock::Block {
                        let k = choose|k: int| 0 <= k < fired.len() && (#[trigger] fired[k]).operation == EventBlock::Block;
                        assert(f2[k] == fired[k]);
                    }
                }
                fired = f2;
            }
        }
        i = i + 1;
    }
    proof {
        assert(hooks@.take(i as int) == hooks@);
    }
    (block, callbacks)
}

/// Runs the remaps of one event in order; returns what they send.
fn run_remaps(latches: &mut Vec<bool>, tracker: &ModifierTracker, remaps: &Vec<RemapHook>, action: ButtonAction) -> (r: Vec<ButtonEvent>)
    requires
        remaps_ok(remaps@, old(latches)@.len()),
    ensures
        ({
            let run = scan_remaps(remaps@, action, tracker@, old(latches)@);
            &&& final(latches)@ == run.0
            &&& r@ == run.1
        }),
        final(latches)@.len() == old(latches)@.len(),
{
    let ghost start = latches@;
    let mut sent: Vec<ButtonEvent> = Vec::new();
    let mut i: usize = 0;
    while i < remaps.len()
        invariant
            i <= remaps@.len(),
            remaps_ok(remaps@, start.len()),
            start == old(latches)@,
            latches@.len() == start.len(),
            scan_remaps(remaps@.take(i as int), action, tracker@, start) == (latches@, sent@),
        decreases remaps@.len() - i,
    {
        let h = remaps[i];
        proof {
            assert(condition_ok(remaps@[i as int].condition, start.len()));
            assert(remaps@.take(i + 1).drop_last() == remaps@.take(i as int));
            assert(remaps@.take(i + 1).last() == h);
        }
        if take_condition(latches, tracker, h.condition) {
            sent.push(ButtonEvent { target: h.target, action, injected: true });
        }
        i = i + 1;
    }
    proof {
        assert(remaps@.take(i as int) == remaps@);
    }
    sent
}

/// The verdict and the callbacks to run for one event, and what to send in its place.
pub struct Resolution {
    /// Whether the event is passed on.
    pub verdict: EventBlock,
    /// The user callbacks to run, in order.
    pub callbacks: Vec<usize>,
    /// Events to send, each carrying the engine's origin tag.
    pub injections: Vec<ButtonEvent>,
}

/// The running engine: the rule store, the held buttons and the latches.
pub struct InputHandler {
    store: RuleStore,
    tracker: ModifierTracker,
    latches: Vec<bool>,
}

impl InputHandler {
    pub closed spec fn spec_store(&self) -> RuleStore {
        self.store
    }

    pub closed spec fn spec_pressed(&self) -> Set<Button> {
        self.tracker@
    }

    pub closed spec fn spec_latches(&self) -> Seq<bool> {
        self.latches@
    }

    /// The store is well formed and there is one latch for each it names.
    pub open spec fn wf(&self) -> bool {
        &&& self.spec_store().wf()
        &&& self.spec_latches().len() == self.spec_store().spec_latch_count()
    }

    /// The result matches the outcome, and the state is the outcome's.
    pub open spec fn follows(&self, r: &Resolution, o: Outcome) -> bool {
        &&& self.spec_pressed() == o.pressed
        &&& self.spec_latches() == o.latches
        &&& r.verdict == o.verdict
        &&& r.callbacks@ == callbacks_of(o.fired)
        &&& r.injections@ == o.injections
    }

    /// An engine running `store`, with no button held and no latch set.
    pub fn new(store: RuleStore) -> (r: InputHandler)
        requires
            store.wf(),
        ensures
            r.wf(),
            r.spec_store() == store,
            r.spec_pressed() == Set::<Button>::empty(),
            r.spec_latches() == Seq::new(store.spec_latch_count(), |i: int| false),
    {
        let n = store.latch_count();
        let mut latches: Vec<bool> = Vec::new();
        let mut i: usize = 0;
        while i < n
            invariant
                i <= n,
                latches@ == Seq::new(i as nat, |j: int| false),
            decreases n - i,
        {
            latches.push(false);
            proof {
                assert(latches@ =~= Seq::new((i + 1) as nat, |j: int| false));
            }
            i = i + 1;
        }
        InputHandler { store, tracker: ModifierTracker::new(), latches }
    }

    /// Whether `b` is held.
    pub fn is_pressed(&self, b: Button) -> (r: bool)
        ensures
            r == self.spec_pressed().contains(b),
    {
        self.tracker.is_pressed(b)
    }

    /// Whether latch `l` is set.
    pub fn is_latched(&self, l: usize) -> (r: bool)
        requires
            l < self.spec_latches().len(),
        ensures
            r == self.spec_latches()[l as int],
    {
        self.latches[l]
    }

    /// Resolves one button event.
    pub fn handle_button_event(&mut self, e: ButtonEvent) -> (r: Resolution)
        requires
            old(self).wf(),
        ensures
            final(self).wf(),
            final(self).spec_store() == old(self).spec_store(),
            final(self).follows(&r, resolve_button(old(self).spec_store(), old(self).spec_pressed(), old(self).spec_latches(), e)),
    {
        if e.injected {
            return Resolution { verdict: EventBlock::Dispatch, callbacks: Vec::new(), injections: Vec::new() };
        }
        self.tracker.set(e.target, e.action);
        let remaps = self.store.remaps_for(e.target);
        proof {
            lemma_remaps_for_ok(self.store.spec_remaps(), e.target, self.latches@.len());
        }
        let injections = run_remaps(&mut self.latches, &self.tracker, &remaps, e.action);
        if injections.len() > 0 {
            return Resolution { verdict: EventBlock::Block, callbacks: Vec::new(), injections };
        }
        let hooks = match e.action {
            ButtonAction::Press => self.store.on_press_for(e.target),
            ButtonAction::Release => self.store.on_release_for(e.target),
        };
        proof {
            lemma_hooks_for_ok(self.store.spec_on_press(), e.target, self.latches@.len());
            lemma_hooks_for_ok(self.store.spec_on_release(), e.target, self.latches@.len());
        }
        let (block, callbacks) = run_hooks(&mut self.latches, &self.tracker, &hooks);
        let verdict = if block { EventBlock::Block } else { EventBlock::Dispatch };
        Resolution { verdict, callbacks, injections: Vec::new() }
    }

    /// Resolves one wheel event. The held buttons do not change.
    pub fn handle_wheel_event(&mut self, e: WheelEvent) -> (r: Resolution)
        requires
            old(self).wf(),
        ensures
            final(self).wf(),
            final(self).spec_store() == old(self).spec_store(),
            final(self).spec_pressed() == old(self).spec_pressed(),
            final(self).follows(&r, resolve_mouse(old(self).spec_store().spec_wheel(), old(self).spec_pressed(), old(self).spec_latches(), e.injected)),
    {
        if e.injected {
            return Resolution { verdict: EventBlock::Dispatch, callbacks: Vec::new(), injections: Vec::new() };
        }
        let (block, callbacks) = run_hooks(&mut self.latches, &self.tracker, self.store.wheel_hooks());
        let verdict = if block { EventBlock::Block } else { EventBlock::Dispatch };
        Resolution { verdict, callbacks, injections: Vec::new() }
    }

    /// Resolves one cursor event. The held buttons do not change.
    pub fn handle_cursor_event(&mut self, e: CursorEvent) -> (r: Resolution)
        requires
            old(self).wf(),
        ensures
            final(self).wf(),
            final(self).spec_store() == old(self).spec_store(),
            final(self).spec_pressed() == old(self).spec_pressed(),
            final(self).follows(&r, resolve_mouse(old(self).spec_store().spec_cursor(), old(self).spec_pressed(), old(self).spec_latches(), e.injected)),
    {
        if e.injected {
            return Resolution { verdict: EventBlock::Dispatch, callbacks: Vec::new(), injections: Vec::new() };
        }
        let (block, callbacks) = run_hooks(&mut self.latches, &self.tracker, self.store.cursor_hooks());
        let verdict = if block { EventBlock::Block } else { EventBlock::Dispatch };
        Resolution { verdict, callbacks, injections: Vec::new() }
    }

    /// Resolves any event from the hook source.
    pub fn on_event(&mut self, e: Event) -> (r: Resolution)
        requires
            old(self).wf(),
        ensures
            final(self).wf(),
            final(self).spec_store() == old(self).spec_store(),
            final(self).follows(&r, resolve(old(self).spec_store(), old(self).spec_pressed(), old(self).spec_latches(), e)),
    {
        match e {
            Event::Button(b) => self.handle_button_event(b),
            Event::Wheel(w) => self.handle_wheel_event(w),
            Event::Cursor(c) => self.handle_cursor_event(c),
        }
    }
}

} // verus!
