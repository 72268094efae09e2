//! A set of buttons, kept as one flag per button position.
use vstd::prelude::*;
use crate::button::{
    Button, BUTTON_COUNT, button_at, lemma_button_at_index, lemma_index_bound,
    lemma_index_injective,
};

verus! {

/// A set of buttons.
#[derive(Clone, Copy, Debug)]
pub struct ButtonSet {
    flags: [bool; BUTTON_COUNT],
}

impl View for ButtonSet {
    type V = Set<Button>;

    closed spec fn view(&self) -> Set<Button> {
        Set::new(|b: Button| self.flags@[b.spec_index()])
    }
}

impl ButtonSet {
    /// The empty set.
    pub fn new() -> (r: ButtonSet)
        ensures
            r@ == Set::<Button>::empty(),
    {
        let mut flags = [false; BUTTON_COUNT];
        let mut i: usize = 0;
        while i < BUTTON_COUNT
            invariant
                forall|j: int| 0 <= j < i ==> !flags@[j],
            decreases BUTTON_COUNT - i,
        {
            flags[i] = false;
            i = i + 1;
        }
        let r = ButtonSet { flags };
        proof {
            assert forall|b: Button| !r@.contains(b) by {
                lemma_index_bound(b);
            }
            assert(r@ =~= Set::<Button>::empty());
        }
        r
    }

    /// The set that holds exactly the given buttons.
    pub fn from_slice(buttons: &[Button]) -> (r: ButtonSet)
        ensures
            r@ == buttons@.to_set(),
    {
        let mut r = ButtonSet::new();
        let mut i: usize = 0;
        while i < buttons.len()
            invariant
                i <= buttons@.len(),
                r@ == buttons@.take(i as int).to_set(),
            decreases buttons@.len() - i,
        {
            r.insert(buttons[i]);
            proof {
                assert(buttons@.take(i + 1) == buttons@.take(i as int).push(buttons@[i as int]));
                buttons@.take(i as int).lemma_push_to_set_commute(buttons@[i as int]);
            }
            i = i + 1;
        }
        proof {
            assert(buttons@.take(i as int) == buttons@);
        }
        r
    }

    /// Whether the button is in the set.
    pub fn contains(&self, b: Button) -> (r: bool)
        ensures
            r == self@.contains(b),
    {
        self.flags[b.index()]
    }

    /// Adds the button.
    pub fn insert(&mut self, b: Button)
        ensures
            final(self)@ == old(self)@.insert(b),
    {
        let i = b.index();
        self.flags[i] = true;
        proof {
            assert forall|c: Button| final(self)@.contains(c) == old(self)@.insert(b).contains(c) by {
                lemma_index_injective(b, c);
                lemma_index_bound(c);
            }
            assert(final(self)@ =~= old(self)@.insert(b));
        }
    }

    /// Removes the button.
    pub fn remove(&mut self, b: Button)
        ensures
            final(self)@ == old(self)@.remove(b),
    {
        let i = b.index();
        self.flags[i] = false;
        proof {
            assert forall|c: Button| final(self)@.contains(c) == old(self)@.remove(b).contains(c) by {
                lemma_index_injective(b, c);
                lemma_index_bound(c);
            }
            assert(final(self)@ =~= old(self)@.remove(b));
        }
    }

    /// Whether every button of this set is in `other`.
    pub fn is_subset_of(&self, other: &ButtonSet) -> (r: bool)
        ensures
            r == self@.subset_of(other@),
    {
        let mut i: usize = 0;
        while i < BUTTON_COUNT
            invariant
                forall|j: int| 0 <= j < i ==> self.flags@[j] ==> other.flags@[j],
            decreases BUTTON_COUNT - i,
        {
            if self.flags[i] && !other.flags[i] {
                proof {
                    lemma_button_at_index(i as int);
                    assert(self@.contains(button_at(i as int)));
                }
                return false;
            }
            i = i + 1;
        }
        proof {
            assert forall|b: Button| self@.contains(b) implies other@.contains(b) by {
                lemma_index_bound(b);
            }
        }
        true
    }

    /// Whether no button of this set is in `other`.
    pub fn is_disjoint_from(&self, other: &ButtonSet) -> (r: bool)
        ensures
            r == self@.disjoint(other@),
    {
        let mut i: usize = 0;
        while i < BUTTON_COUNT
            invariant
                forall|j: int| 0 <= j < i ==> !(self.flags@[j] && other.flags@[j]),
            decreases BUTTON_COUNT - i,
        {
            if self.flags[i] && other.flags[i] {
                proof {
                    lemma_button_at_index(i as int);
                    assert(self@.contains(button_at(i as int)));
                    assert(other@.contains(button_at(i as int)));
                }
                return false;
            }
            i = i + 1;
        }
        proof {
            assert forall|b: Button| !(self@.contains(b) && other@.contains(b)) by {
                lemma_index_bound(b);
            }
        }
        true
    }

    /// The buttons that are in either set.
    pub fn union(&self, other: &ButtonSet) -> (r: ButtonSet)
        ensures
            r@ == self@.union(other@),
    {
        let mut r = *self;
        let mut i: usize = 0;
        while i < BUTTON_COUNT
            invariant
                forall|j: int| 0 <= j < i ==> r.flags@[j] == (self.flags@[j] || other.flags@[j]),
                forall|j: int| i <= j < BUTTON_COUNT ==> r.flags@[j] == self.flags@[j],
            decreases BUTTON_COUNT - i,
        {
            if other.flags[i] {
                r.flags[i] = true;
            }
            i = i + 1;
        }
        proof {
            assert forall|b: Button| r@.contains(b) == self@.union(other@).contains(b) by {
                lemma_index_bound(b);
            }
            assert(r@ =~= self@.union(other@));
        }
        r
    }
}

} // verus!
