//! The rule store: hooks by event kind and trigger, in registration order.
use vstd::prelude::*;
use crate::button::Button;
use crate::hook::{
    ButtonHook, Hook, RemapHook, condition_ok, hook_ok, hooks_for, remaps_for,
};

verus! {

/// Every latch that these remaps name is below `n`.
pub open spec fn remaps_ok(s: Seq<RemapHook>, n: nat) -> bool {
    forall|i: int| 0 <= i < s.len() ==> condition_ok(#[trigger] s[i].condition, n)
}

/// Every latch that these hooks name is below `n`.
pub open spec fn button_hooks_ok(s: Seq<ButtonHook>, n: nat) -> bool {
    forall|i: int| 0 <= i < s.len() ==> hook_ok(#[trigger] s[i].hook, n)
}

/// Every latch that these hooks name is below `n`.
pub open spec fn hooks_ok(s: Seq<Hook>, n: nat) -> bool {
    forall|i: int| 0 <= i < s.len() ==> hook_ok(#[trigger] s[i], n)
}

/// All registered hooks, and the number of latches they may name.
#[derive(Clone, Debug)]
pub struct RuleStore {
    remaps: Vec<RemapHook>,
    on_press: Vec<ButtonHook>,
    on_release: Vec<ButtonHook>,
    wheel: Vec<Hook>,
    cursor: Vec<Hook>,
    latch_count: usize,
}

impl RuleStore {
    pub closed spec fn spec_remaps(&self) -> Seq<RemapHook> {
        self.remaps@
    }

    pub closed spec fn spec_on_press(&self) -> Seq<ButtonHook> {
        self.on_press@
    }

    pub closed spec fn spec_on_release(&self) -> Seq<ButtonHook> {
        self.on_release@
    }

    pub closed spec fn spec_wheel(&self) -> Seq<Hook> {
        self.wheel@
    }

    pub closed spec fn spec_cursor(&self) -> Seq<Hook> {
        self.cursor@
    }

    pub closed spec fn spec_latch_count(&self) -> nat {
        self.latch_count as nat
    }

    /// Every latch that a hook names exists.
    pub open spec fn wf(&self) -> bool {
        let n = self.spec_latch_count();
        &&& remaps_ok(self.spec_remaps(), n)
        &&& button_hooks_ok(self.spec_on_press(), n)
        &&& button_hooks_ok(self.spec_on_release(), n)
        &&& hooks_ok(self.spec_wheel(), n)
        &&& hooks_ok(self.spec_cursor(), n)
    }

    /// An empty store.
    pub fn new() -> (r: RuleStore)
        ensures
            r.wf(),
            r.spec_remaps() == Seq::<RemapHook>::empty(),
            r.spec_on_press() == Seq::<ButtonHook>::empty(),
            r.spec_on_release() == Seq::<ButtonHook>::empty(),
            r.spec_wheel() == Seq::<Hook>::empty(),
            r.spec_cursor() == Seq::<Hook>::empty(),
            r.spec_latch_count() == 0,
    {
        RuleStore {
            remaps: Vec::new(),
            on_press: Vec::new(),
            on_release: Vec::new(),
            wheel: Vec::new(),
            cursor: Vec::new(),
            latch_count: 0,
        }
    }

    /// Adds a latch and returns its number.
    pub fn new_latch(&mut self) -> (r: usize)
        requires
            old(self).wf(),
            old(self).spec_latch_count() < usize::MAX,
        ensures
            final(self).wf(),
            r == old(self).spec_latch_count(),
            final(self).spec_latch_count() == old(self).spec_latch_count() + 1,
            final(self).spec_remaps() == old(self).spec_remaps(),
            final(self).spec_on_press() == old(self).spec_on_press(),
            final(self).spec_on_release() == old(self).spec_on_release(),
            final(self).spec_wheel() == old(self).spec_wheel(),
            final(self).spec_cursor() == old(self).spec_cursor(),
    {
        let r = self.latch_count;
        self.latch_count = self.latch_count + 1;
        r
    }

    /// Appends a remap of `button`.
    pub fn register_remap(&mut self, hook: RemapHook)
        requires
            old(self).wf(),
            condition_ok(hook.condition, old(self).spec_latch_count()),
        ensures
            final(self).wf(),
            final(self).spec_remaps() == old(self).spec_remaps().push(hook),
            final(self).spec_on_press() == old(self).spec_on_press(),
            final(self).spec_on_release() == old(self).spec_on_release(),
            final(self).spec_wheel() == old(self).spec_wheel(),
            final(self).spec_cursor() == old(self).spec_cursor(),
            final(self).spec_latch_count() == old(self).spec_latch_count(),
    {
        self.remaps.push(hook);
        proof {
            assert forall|i: int| 0 <= i < final(self).spec_remaps().len()
                implies condition_ok(#[trigger] final(self).spec_remaps()[i].condition, final(self).spec_latch_count()) by {
                if i < old(self).spec_remaps().len() {
                    assert(final(self).spec_remaps()[i] == old(self).spec_remaps()[i]);
                }
            }
        }
    }

    /// Appends a hook run when its trigger is pressed.
    pub fn register_on_press(&mut self, hook: ButtonHook)
        requires
            old(self).wf(),
            hook_ok(hook.hook, old(self).spec_latch_count()),
        ensures
            final(self).wf(),
            final(self).spec_on_press() == old(self).spec_on_press().push(hook),
            final(self).spec_remaps() == old(self).spec_remaps(),
            final(self).spec_on_release() == old(self).spec_on_release(),
            final(self).spec_wheel() == old(self).spec_wheel(),
            final(self).spec_cursor() == old(self).spec_cursor(),
            final(self).spec_latch_count() == old(self).spec_latch_count(),
    {
        self.on_press.push(hook);
        proof {
            assert forall|i: int| 0 <= i < final(self).spec_on_press().len()
                implies hook_ok(#[trigger] final(self).spec_on_press()[i].hook, final(self).spec_latch_count()) by {
                if i < old(self).spec_on_press().len() {
                    assert(final(self).spec_on_press()[i] == old(self).spec_on_press()[i]);
                }
            }
        }
    }

    /// Appends a hook run when its trigger is released.
    pub fn register_on_release(&mut self, hook: ButtonHook)
        requires
            old(self).wf(),
            hook_ok(hook.hook, old(self).spec_latch_count()),
        ensures
            final(self).wf(),
            final(self).spec_on_release() == old(self).spec_on_release().push(hook),
            final(self).spec_remaps() == old(self).spec_remaps(),
            final(self).spec_on_press() == old(self).spec_on_press(),
            final(self).spec_wheel() == old(self).spec_wheel(),
            final(self).spec_cursor() == old(self).spec_cursor(),
            final(self).spec_latch_count() == old(self).spec_latch_count(),
    {
        self.on_release.push(hook);
        proof {
            assert forall|i: int| 0 <= i < final(self).spec_on_release().len()
                implies hook_ok(#[trigger] final(self).spec_on_release()[i].hook, final(self).spec_latch_count()) by {
                if i < old(self).spec_on_release().len() {
                    assert(final(self).spec_on_release()[i] == old(self).spec_on_release()[i]);
                }
            }
        }
    }

    /// Appends a hook run on each wheel rotation.
    pub fn register_wheel(&mut self, hook: Hook)
        requires
            old(self).wf(),
            hook_ok(hook, old(self).spec_latch_count()),
        ensures
            final(self).wf(),
            final(self).spec_wheel() == old(self).spec_wheel().push(hook),
            final(self).spec_remaps() == old(self).spec_remaps(),
            final(self).spec_on_press() == old(self).spec_on_press(),
            final(self).spec_on_release() == old(self).spec_on_release(),
            final(self).spec_cursor() == old(self).spec_cursor(),
            final(self).spec_latch_count() == old(self).spec_latch_count(),
    {
        self.wheel.push(hook);
        proof {
            assert forall|i: int| 0 <= i < final(self).spec_wheel().len()
                implies hook_ok(#[trigger] final(self).spec_wheel()[i], final(self).spec_latch_count()) by {
                if i < old(self).spec_wheel().len() {
                    assert(final(self).spec_wheel()[i] == old(self).spec_wheel()[i]);
                }
            }
        }
    }

    /// Appends a hook run on each cursor move.
    pub fn register_cursor(&mut self, hook: Hook)
        requires
            old(self).wf(),
            hook_ok(hook, old(self).spec_latch_count()),
        ensures
            final(self).wf(),
            final(self).spec_cursor() == old(self).spec_cursor().push(hook),
            final(self).spec_remaps() == old(self).spec_remaps(),
            final(self).spec_on_press() == old(self).spec_on_press(),
            final(self).spec_on_release() == old(self).spec_on_release(),
            final(self).spec_wheel() == old(self).spec_wheel(),
            final(self).spec_latch_count() == old(self).spec_latch_count(),
    {
        self.cursor.push(hook);
        proof {
            assert forall|i: int| 0 <= i < final(self).spec_cursor().len()
                implies hook_ok(#[trigger] final(self).spec_cursor()[i], final(self).spec_latch_count()) by {
                if i < old(self).spec_cursor().len() {
                    assert(final(self).spec_cursor()[i] == old(self).spec_cursor()[i]);
                }
            }
        }
    }

    /// The number of latches.
    pub fn latch_count(&self) -> (r: usize)
        ensures
            r == self.spec_latch_count(),
    {
        self.latch_count
    }

    /// The remaps of `b`, in registration order.
    pub fn remaps_for(&self, b: Button) -> (r: Vec<RemapHook>)
        ensures
            r@ == remaps_for(self.spec_remaps(), b),
    {
        let mut r: Vec<RemapHook> = Vec::new();
        let mut i: usize = 0;
        while i < self.remaps.len()
            invariant
                i <= self.remaps@.len(),
                r@ == remaps_for(self.remaps@.take(i as int), b),
            decreases self.remaps@.len() - i,
        {
            let h = self.remaps[i];
            if h.trigger == b {
                r.push(h);
            }
            proof {
                assert(self.remaps@.take(i + 1).drop_last() == self.remaps@.take(i as int));
            }
            i = i + 1;
        }
        proof {
            assert(self.remaps@.take(i as int) == self.remaps@);
        }
        r
    }

    /// The hooks of `hooks` on `b`, in order.
    fn select(hooks: &Vec<ButtonHook>, b: Button) -> (r: Vec<Hook>)
        ensures
            r@ == hooks_for(hooks@, b),
    {
        let mut r: Vec<Hook> = Vec::new();
        let mut i: usize = 0;
        while i < hooks.len()
            invariant
                i <= hooks@.len(),
                r@ == hooks_for(hooks@.take(i as int), b),
            decreases hooks@.len() - i,
        {
            let h = hooks[i];
            if h.trigger == b {
                r.push(h.hook);
            }
            proof {
                assert(hooks@.take(i + 1).drop_last() == hooks@.take(i as int));
            }
            i = i + 1;
        }
        proof {
            assert(hooks@.take(i as int) == hooks@);
        }
        r
    }

    /// The press hooks of `b`, in registration order.
    pub fn on_press_for(&self, b: Button) -> (r: Vec<Hook>)
        ensures
            r@ == hooks_for(self.spec_on_press(), b),
    {
        RuleStore::select(&self.on_press, b)
    }

    /// The release hooks of `b`, in registration order.
    pub fn on_release_for(&self, b: Button) -> (r: Vec<Hook>)
        ensures
            r@ == hooks_for(self.spec_on_release(), b),
    {
        RuleStore::select(&self.on_release, b)
    }

    /// The wheel hooks, in registration order.
    pub fn wheel_hooks(&self) -> (r: &Vec<Hook>)
        ensures
            r@ == self.spec_wheel(),
    {
        &self.wheel
    }

    /// The cursor hooks, in registration order.
    pub fn cursor_hooks(&self) -> (r: &Vec<Hook>)
        ensures
            r@ == self.spec_cursor(),
    {
        &self.cursor
    }
}

} // verus!
