//! The events the engine consumes and the verdict it hands back for each.
use vstd::prelude::*;
use crate::button::{Button, BUTTON_COUNT, ButtonAction, lemma_index_bound, lemma_index_injective};

verus! {

/// Whether an input event is passed on to the next program.
#[derive(Clone, Copy, Debug, PartialEq, Eq, Hash, Structural)]
pub enum EventBlock {
    /// The event is not passed on.
    Block,
    /// The event is passed on.
    Dispatch,
}

impl Default for EventBlock {
    /// Hooks pass their event on unless asked otherwise.
    fn default() -> (r: EventBlock)
        ensures
            r == EventBlock::Dispatch,
    {
        EventBlock::Dispatch
    }
}

/// A press or release of a button.
#[derive(Clone, Copy, Debug, PartialEq, Eq, Structural)]
pub struct ButtonEvent {
    /// The button.
    pub target: Button,
    /// Whether it went down or up.
    pub action: ButtonAction,
    /// Whether the engine itself sent the event.
    pub injected: bool,
}

impl ButtonEvent {
    /// An event that came from the user's devices.
    pub fn new(target: Button, action: ButtonAction) -> (r: ButtonEvent)
        ensures
            r == (ButtonEvent { target, action, injected: false }),
    {
        ButtonEvent { target, action, injected: false }
    }
}

/// A rotation of the mouse wheel.
#[derive(Clone, Copy, Debug, PartialEq, Eq, Structural)]
pub struct WheelEvent {
    /// Signed amount of rotation.
    pub delta: i32,
    /// Whether the engine itself sent the event.
    pub injected: bool,
}

/// A relative move of the mouse cursor.
#[derive(Clone, Copy, Debug, PartialEq, Eq, Structural)]
pub struct CursorEvent {
    /// Horizontal distance.
    pub dx: i32,
    /// Vertical distance.
    pub dy: i32,
    /// Whether the engine itself sent the event.
    pub injected: bool,
}

/// Any event delivered by the hook source.
#[derive(Clone, Copy, Debug, PartialEq, Eq, Structural)]
pub enum Event {
    Button(ButtonEvent),
    Wheel(WheelEvent),
    Cursor(CursorEvent),
}

impl Event {
    /// Whether the engine itself sent the event.
    pub open spec fn spec_injected(self) -> bool {
        match self {
            Event::Button(e) => e.injected,
            Event::Wheel(e) => e.injected,
            Event::Cursor(e) => e.injected,
        }
    }
}

/// A remembered verdict for each button.
#[derive(Clone, Copy, Debug)]
pub struct ButtonEventBlockMap {
    slots: [Option<EventBlock>; BUTTON_COUNT],
}

impl View for ButtonEventBlockMap {
    type V = Map<Button, EventBlock>;

    closed spec fn view(&self) -> Map<Button, EventBlock> {
        Map::new(
            |b: Button| self.slots@[b.spec_index()] is Some,
            |b: Button| self.slots@[b.spec_index()]->Some_0,
        )
    }
}

impl ButtonEventBlockMap {
    /// A map with no entry.
    pub fn new() -> (r: ButtonEventBlockMap)
        ensures
            r@ == Map::<Button, EventBlock>::empty(),
    {
        let r = ButtonEventBlockMap { slots: [None; BUTTON_COUNT] };
        proof {
            assert forall|b: Button| !r@.contains_key(b) by {
                lemma_index_bound(b);
            }
            assert(r@ =~= Map::<Button, EventBlock>::empty());
        }
        r
    }

    /// The verdict stored for `k`, or the default verdict where none is.
    pub fn get_or_default(&self, k: Button) -> (r: EventBlock)
        ensures
            r == (if self@.contains_key(k) { self@[k] } else { EventBlock::Dispatch }),
    {
        match self.slots[k.index()] {
            Some(v) => v,
            None => EventBlock::default(),
        }
    }

    /// Stores `v` for `k`, and returns what was stored for `k` before.
    pub fn insert(&mut self, k: Button, v: EventBlock) -> (r: Option<EventBlock>)
        ensures
            r == (if old(self)@.contains_key(k) { Some(old(self)@[k]) } else { None::<EventBlock> }),
            final(self)@ == old(self)@.insert(k, v),
    {
        let i = k.index();
        let prev = self.slots[i];
        self.slots[i] = Some(v);
        proof {
            assert forall|c: Button| #[trigger] final(self)@.contains_key(c) == old(self)@.insert(k, v).contains_key(c) by {
                lemma_index_injective(k, c);
                lemma_index_bound(c);
            }
            assert forall|c: Button| final(self)@.contains_key(c) implies #[trigger] final(self)@[c] == old(self)@.insert(k, v)[c] by {
                lemma_index_injective(k, c);
                lemma_index_bound(c);
            }
            assert(final(self)@ =~= old(self)@.insert(k, v));
        }
        prev
    }
}

} // verus!
