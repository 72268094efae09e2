//! Which buttons are held, and conditions on that.
use vstd::prelude::*;
use crate::button::{Button, ButtonAction};
use crate::button_arg::{ButtonArg, ButtonArgElement, ButtonArgElementTag};
use crate::button_set::ButtonSet;

verus! {

/// The held buttons after `action` on `b`.
pub open spec fn track(pressed: Set<Button>, b: Button, action: ButtonAction) -> Set<Button> {
    match action {
        ButtonAction::Press => pressed.insert(b),
        ButtonAction::Release => pressed.remove(b),
    }
}

/// The set of buttons currently held down.
#[derive(Clone, Copy, Debug)]
pub struct ModifierTracker {
    pressed: ButtonSet,
}

impl View for ModifierTracker {
    type V = Set<Button>;

    closed spec fn view(&self) -> Set<Button> {
        self.pressed@
    }
}

impl ModifierTracker {
    /// A tracker in which no button is held.
    pub fn new() -> (r: ModifierTracker)
        ensures
            r@ == Set::<Button>::empty(),
    {
        ModifierTracker { pressed: ButtonSet::new() }
    }

    /// Records `action` on `b`.
    pub fn set(&mut self, b: Button, action: ButtonAction)
        ensures
            final(self)@ == track(old(self)@, b, action),
    {
        match action {
            ButtonAction::Press => self.pressed.insert(b),
            ButtonAction::Release => self.pressed.remove(b),
        }
    }

    /// Whether `b` is held.
    pub fn is_pressed(&self, b: Button) -> (r: bool)
        ensures
            r == self@.contains(b),
    {
        self.pressed.contains(b)
    }
}

/// The buttons that `s` names with the given tag.
pub open spec fn tagged_buttons(s: Seq<ButtonArgElement>, tag: ButtonArgElementTag) -> Set<Button> {
    Set::new(|b: Button| s.contains(ButtonArgElement { tag, button: b }))
}

/// An element is in `s.push(e)` iff it is `e` or in `s`.
proof fn lemma_push_contains(s: Seq<ButtonArgElement>, e: ButtonArgElement, x: ButtonArgElement)
    ensures
        s.push(e).contains(x) == (s.contains(x) || x == e),
{
    if s.contains(x) {
        let k = choose|k: int| 0 <= k < s.len() && s[k] == x;
        assert(s.push(e)[k] == x);
    }
    if x == e {
        assert(s.push(e)[s.len() as int] == x);
    }
    if s.push(e).contains(x) {
        let k = choose|k: int| 0 <= k < s.len() + 1 && s.push(e)[k] == x;
        if k < s.len() {
            assert(s[k] == x);
        }
    }
}

/// "All of these held, none of those held."
#[derive(Clone, Copy, Debug)]
pub struct ModifierPredicate {
    /// Buttons that must be held.
    pub pressed_required: ButtonSet,
    /// Buttons that must not be held.
    pub released_required: ButtonSet,
}

impl ModifierPredicate {
    /// Whether the predicate holds when exactly `pressed` are held.
    pub open spec fn satisfied_in(self, pressed: Set<Button>) -> bool {
        &&& self.pressed_required@.subset_of(pressed)
        &&& self.released_required@.disjoint(pressed)
    }

    /// The predicate with no requirement.
    pub fn empty() -> (r: ModifierPredicate)
        ensures
            r.pressed_required@ == Set::<Button>::empty(),
            r.released_required@ == Set::<Button>::empty(),
    {
        ModifierPredicate { pressed_required: ButtonSet::new(), released_required: ButtonSet::new() }
    }

    /// Direct buttons of `arg` must be held; inverted ones must not.
    pub fn from_arg(arg: &ButtonArg) -> (r: ModifierPredicate)
        ensures
            r.pressed_required@ == tagged_buttons(arg@, ButtonArgElementTag::Direct),
            r.released_required@ == tagged_buttons(arg@, ButtonArgElementTag::Inversion),
    {
        let mut pressed = ButtonSet::new();
        let mut released = ButtonSet::new();
        let n = arg.len();
        let mut i: usize = 0;
        while i < n
            invariant
                n == arg@.len(),
                i <= n,
                pressed@ == tagged_buttons(arg@.take(i as int), ButtonArgElementTag::Direct),
                released@ == tagged_buttons(arg@.take(i as int), ButtonArgElementTag::Inversion),
            decreases n - i,
        {
            let e = arg.get(i);
            match e.tag {
                ButtonArgElementTag::Direct => pressed.insert(e.button),
                ButtonArgElementTag::Inversion => released.insert(e.button),
            }
            proof {
                let s = arg@.take(i as int);
                assert(arg@.take(i + 1) == s.push(e));
                assert forall|b: Button|
                    #[trigger] pressed@.contains(b) == tagged_buttons(s.push(e), ButtonArgElementTag::Direct).contains(b) by {
                    lemma_push_contains(s, e, ButtonArgElement { tag: ButtonArgElementTag::Direct, button: b });
                }
                assert forall|b: Button|
                    #[trigger] released@.contains(b) == tagged_buttons(s.push(e), ButtonArgElementTag::Inversion).contains(b) by {
                    lemma_push_contains(s, e, ButtonArgElement { tag: ButtonArgElementTag::Inversion, button: b });
                }
                assert(pressed@ =~= tagged_buttons(s.push(e), ButtonArgElementTag::Direct));
                assert(released@ =~= tagged_buttons(s.push(e), ButtonArgElementTag::Inversion));
            }
            i = i + 1;
        }
        proof {
            assert(arg@.take(i as int) == arg@);
        }
        ModifierPredicate { pressed_required: pressed, released_required: released }
    }

    /// Both predicates at once.
    pub fn merge(&self, other: &ModifierPredicate) -> (r: ModifierPredicate)
        ensures
            r.pressed_required@ == self.pressed_required@.union(other.pressed_required@),
            r.released_required@ == self.released_required@.union(other.released_required@),
    {
        ModifierPredicate {
            pressed_required: self.pressed_required.union(&other.pressed_required),
            released_required: self.released_required.union(&other.released_required),
        }
    }

    /// Whether the predicate holds for the tracker's held buttons.
    pub fn is_satisfied(&self, tracker: &ModifierTracker) -> (r: bool)
        ensures
            r == self.satisfied_in(tracker@),
    {
        self.pressed_required.is_subset_of(&tracker.pressed)
            && self.released_required.is_disjoint_from(&tracker.pressed)
    }
}

} // verus!
