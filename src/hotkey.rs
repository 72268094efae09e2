//! Registering hotkeys: registrars that carry modifiers and a verdict, and
//! turn each registration into hooks in the rule store.
use vstd::prelude::*;
use crate::button::Button;
use crate::button_arg::{ButtonArg, ButtonArgElement, ButtonArgElementTag};
use crate::event::EventBlock;
use crate::hook::{ButtonHook, Hook, HookAction, HotkeyCondition, RemapHook};
use crate::modifier::{ModifierPredicate, tagged_buttons};
use crate::resolver::InputHandler;
use crate::storage::RuleStore;
use crate::hook::hook_ok;

verus! {

/// Why a registration was refused.
#[derive(Clone, Copy, Debug, PartialEq, Eq, Structural)]
pub enum RegisterError {
    /// A remap names an inverted button.
    InvertedRemap,
}

/// The modifiers and the verdict that a registration carries.
#[derive(Debug)]
pub struct Context {
    /// The condition on held buttons, if any modifier was added.
    pub modifiers: Option<ModifierPredicate>,
    /// The modifier buttons the condition was made from, in order.
    pub modifier_keys: ButtonArg,
    /// Whether events that fire the registered hooks are passed on.
    pub native_event_operation: EventBlock,
}

impl Context {
    /// The condition is exactly what the modifier buttons say.
    pub open spec fn wf(&self) -> bool {
        match self.modifiers {
            Some(m) => {
                &&& m.pressed_required@ == tagged_buttons(self.modifier_keys@, ButtonArgElementTag::Direct)
                &&& m.released_required@ == tagged_buttons(self.modifier_keys@, ButtonArgElementTag::Inversion)
            },
            None => self.modifier_keys@.len() == 0,
        }
    }

    /// The condition of the hooks registered in this context.
    pub open spec fn condition(&self) -> HotkeyCondition {
        match self.modifiers {
            Some(m) => HotkeyCondition::Modifier(m),
            None => HotkeyCondition::Any,
        }
    }

    /// Two contexts that register the same hooks.
    pub open spec fn same(&self, other: &Context) -> bool {
        &&& self.modifiers == other.modifiers
        &&& self.modifier_keys@ == other.modifier_keys@
        &&& self.native_event_operation == other.native_event_operation
    }

    /// No modifier; events are passed on.
    pub fn new() -> (r: Context)
        ensures
            r.wf(),
            r.modifiers is None,
            r.native_event_operation == EventBlock::Dispatch,
    {
        Context {
            modifiers: None,
            modifier_keys: ButtonArg::new(Vec::new()),
            native_event_operation: EventBlock::default(),
        }
    }

    fn exec_condition(&self) -> (r: HotkeyCondition)
        ensures
            r == self.condition(),
    {
        match self.modifiers {
            Some(m) => HotkeyCondition::Modifier(m),
            None => HotkeyCondition::Any,
        }
    }

    /// This context with `keys` added to its modifiers.
    pub fn add_modifiers(&self, keys: &ButtonArg) -> (r: Context)
        requires
            self.wf(),
        ensures
            r.wf(),
            r.modifiers is Some,
            r.modifier_keys@ == self.modifier_keys@ + keys@,
            r.native_event_operation == self.native_event_operation,
    {
        let added = ModifierPredicate::from_arg(keys);
        let all = self.modifier_keys.concat(keys);
        let modifiers = match self.modifiers {
            Some(m) => m.merge(&added),
            None => added,
        };
        proof {
            lemma_tagged_concat(self.modifier_keys@, keys@, ButtonArgElementTag::Direct);
            lemma_tagged_concat(self.modifier_keys@, keys@, ButtonArgElementTag::Inversion);
            if self.modifiers is None {
                assert(self.modifier_keys@ + keys@ == keys@);
            }
        }
        Context { modifiers: Some(modifiers), modifier_keys: all, native_event_operation: self.native_event_operation }
    }

    /// A context that registers the same hooks as this one.
    pub fn duplicate(&self) -> (r: Context)
        ensures
            r.same(self),
    {
        self.with_operation(self.native_event_operation)
    }

    /// This context with another verdict.
    pub fn with_operation(&self, op: EventBlock) -> (r: Context)
        ensures
            r.modifiers == self.modifiers,
            r.modifier_keys@ == self.modifier_keys@,
            r.native_event_operation == op,
    {
        Context {
            modifiers: self.modifiers,
            modifier_keys: ButtonArg::new(self.modifier_keys.iter()),
            native_event_operation: op,
        }
    }
}

/// Tagged buttons of a concatenation are those of either part.
proof fn lemma_tagged_concat(a: Seq<ButtonArgElement>, b: Seq<ButtonArgElement>, tag: ButtonArgElementTag)
    ensures
        tagged_buttons(a + b, tag) == tagged_buttons(a, tag).union(tagged_buttons(b, tag)),
{
    assert forall|x: Button| #[trigger] tagged_buttons(a + b, tag).contains(x)
        == tagged_buttons(a, tag).union(tagged_buttons(b, tag)).contains(x) by {
        let e = ButtonArgElement { tag, button: x };
        if (a + b).contains(e) {
            let k = choose|k: int| 0 <= k < (a + b).len() && (a + b)[k] == e;
            if k < a.len() {
                assert(a[k] == e);
            } else {
                assert(b[k - a.len()] == e);
            }
        }
        if a.contains(e) {
            let k = choose|k: int| 0 <= k < a.len() && a[k] == e;
            assert((a + b)[k] == e);
        }
        if b.contains(e) {
            let k = choose|k: int| 0 <= k < b.len() && b[k] == e;
            assert((a + b)[a.len() + k] == e);
        }
    }
    assert(tagged_buttons(a + b, tag) =~= tagged_buttons(a, tag).union(tagged_buttons(b, tag)));
}

/// One hook on each button of `keys` that carries `tag`, in order.
pub open spec fn hooks_on(keys: Seq<ButtonArgElement>, tag: ButtonArgElementTag, hook: Hook) -> Seq<ButtonHook>
    decreases keys.len(),
{
    if keys.len() == 0 {
        Seq::empty()
    } else {
        let rest = hooks_on(keys.drop_last(), tag, hook);
        if keys.last().tag == tag {
            rest.push(ButtonHook { trigger: keys.last().button, hook })
        } else {
            rest
        }
    }
}

/// The press hooks, the release hooks and the number of latches of a store.
pub type Lists = (Seq<ButtonHook>, Seq<ButtonHook>, nat);

/// The hook run by `cb` in `ctx`.
pub open spec fn callback_hook(ctx: Context, cb: usize) -> Hook {
    Hook { condition: ctx.condition(), action: HookAction::Callback(cb), operation: ctx.native_event_operation }
}

/// Registers `cb` on presses of `b`.
pub open spec fn press_side(lists: Lists, b: Button, ctx: Context, cb: usize) -> Lists {
    (lists.0.push(ButtonHook { trigger: b, hook: callback_hook(ctx, cb) }), lists.1, lists.2)
}

/// The hook that runs `cb` once latch `l` is set, clearing it.
pub open spec fn consumer_hook(l: nat, cb: usize, op: EventBlock) -> Hook {
    Hook { condition: HotkeyCondition::Activation(l as usize), action: HookAction::Callback(cb), operation: op }
}

/// Registers `cb` on releases of `b`. Under modifiers, a press of `b` with the
/// modifiers held sets a new latch, and `cb` runs on the first release of `b`
/// or of a held modifier (or press of a modifier that had to stay up) after it.
pub open spec fn release_side(lists: Lists, b: Button, ctx: Context, cb: usize) -> Lists {
    match ctx.modifiers {
        None => (lists.0, lists.1.push(ButtonHook { trigger: b, hook: callback_hook(ctx, cb) }), lists.2),
        Some(m) => {
            let l = lists.2;
            let consumer = consumer_hook(l, cb, ctx.native_event_operation);
            let setter = Hook {
                condition: HotkeyCondition::Modifier(m),
                action: HookAction::Activate(l as usize),
                operation: EventBlock::Dispatch,
            };
            (
                lists.0.push(ButtonHook { trigger: b, hook: setter })
                    + hooks_on(ctx.modifier_keys@, ButtonArgElementTag::Inversion, consumer),
                lists.1.push(ButtonHook { trigger: b, hook: consumer })
                    + hooks_on(ctx.modifier_keys@, ButtonArgElementTag::Direct, consumer),
                l + 1,
            )
        },
    }
}

/// Registers `cb` for each element of `elems` in turn: on presses of direct
/// elements and releases of inverted ones, or the other way round where `release`.
pub open spec fn register_buttons(lists: Lists, elems: Seq<ButtonArgElement>, release: bool, ctx: Context, cb: usize) -> Lists
    decreases elems.len(),
{
    if elems.len() == 0 {
        lists
    } else {
        let before = register_buttons(lists, elems.drop_last(), release, ctx, cb);
        let e = elems.last();
        if (e.tag == ButtonArgElementTag::Direct) != release {
            press_side(before, e.button, ctx, cb)
        } else {
            release_side(before, e.button, ctx, cb)
        }
    }
}

/// One remap of each element of `elems` onto `target`, in order.
pub open spec fn remaps_of(elems: Seq<ButtonArgElement>, condition: HotkeyCondition, target: Button) -> Seq<RemapHook>
    decreases elems.len(),
{
    if elems.len() == 0 {
        Seq::empty()
    } else {
        remaps_of(elems.drop_last(), condition, target).push(
            RemapHook { trigger: elems.last().button, condition, target },
        )
    }
}

/// One hook on each element's button, in order.
pub open spec fn disabled_hooks(elems: Seq<ButtonArgElement>, hook: Hook) -> Seq<ButtonHook>
    decreases elems.len(),
{
    if elems.len() == 0 {
        Seq::empty()
    } else {
        disabled_hooks(elems.drop_last(), hook).push(ButtonHook { trigger: elems.last().button, hook })
    }
}

/// Whether some element of `elems` is inverted.
pub open spec fn has_inversion(elems: Seq<ButtonArgElement>) -> bool {
    exists|i: int| 0 <= i < elems.len() && (#[trigger] elems[i]).tag == ButtonArgElementTag::Inversion
}

/// The lists of `store` that button registrations change.
pub open spec fn lists_of(store: RuleStore) -> Lists {
    (store.spec_on_press(), store.spec_on_release(), store.spec_latch_count())
}

/// Adds `hook` on the inverted keys to the press hooks and on the direct keys to the release hooks.
fn add_consumers(store: &mut RuleStore, keys: &ButtonArg, hook: Hook)
    requires
        old(store).wf(),
        hook_ok(hook, old(store).spec_latch_count()),
    ensures
        final(store).wf(),
        final(store).spec_on_press() == old(store).spec_on_press() + hooks_on(keys@, ButtonArgElementTag::Inversion, hook),
        final(store).spec_on_release() == old(store).spec_on_release() + hooks_on(keys@, ButtonArgElementTag::Direct, hook),
        final(store).spec_latch_count() == old(store).spec_latch_count(),
        final(store).spec_remaps() == old(store).spec_remaps(),
        final(store).spec_wheel() == old(store).spec_wheel(),
        final(store).spec_cursor() == old(store).spec_cursor(),
{
    let n = keys.len();
    let mut j: usize = 0;
    while j < n
        invariant
            n == keys@.len(),
            j <= n,
            store.wf(),
            hook_ok(hook, store.spec_latch_count()),
            store.spec_on_press() == old(store).spec_on_press() + hooks_on(keys@.take(j as int), ButtonArgElementTag::Inversion, hook),
            store.spec_on_release() == old(store).spec_on_release() + hooks_on(keys@.take(j as int), ButtonArgElementTag::Direct, hook),
            store.spec_latch_count() == old(store).spec_latch_count(),
            store.spec_remaps() == old(store).spec_remaps(),
            store.spec_wheel() == old(store).spec_wheel(),
            store.spec_cursor() == old(store).spec_cursor(),
        decreases n - j,
    {
        let k = keys.get(j);
        let ghost press = store.spec_on_press();
        let ghost release = store.spec_on_release();
        match k.tag {
            ButtonArgElementTag::Direct => store.register_on_release(ButtonHook { trigger: k.button, hook }),
            ButtonArgElementTag::Inversion => store.register_on_press(ButtonHook { trigger: k.button, hook }),
        }
        proof {
            let t = keys@.take(j + 1);
            assert(t.drop_last() == keys@.take(j as int));
            assert(t.last() == k);
            let bh = ButtonHook { trigger: k.button, hook };
            assert(old(store).spec_on_press() + hooks_on(keys@.take(j as int), ButtonArgElementTag::Inversion, hook).push(bh)
                == press.push(bh));
            assert(old(store).spec_on_release() + hooks_on(keys@.take(j as int), ButtonArgElementTag::Direct, hook).push(bh)
                == release.push(bh));
        }
        j = j + 1;
    }
    proof {
        assert(keys@.take(n as int) == keys@);
    }
}

/// Registers `cb` on presses of `b`.
fn add_press_side(store: &mut RuleStore, b: Button, ctx: &Context, cb: usize)
    requires
        old(store).wf(),
    ensures
        final(store).wf(),
        lists_of(*final(store)) == press_side(lists_of(*old(store)), b, *ctx, cb),
        final(store).spec_remaps() == old(store).spec_remaps(),
        final(store).spec_wheel() == old(store).spec_wheel(),
        final(store).spec_cursor() == old(store).spec_cursor(),
{
    let hook = Hook { condition: ctx.exec_condition(), action: HookAction::Callback(cb), operation: ctx.native_event_operation };
    store.register_on_press(ButtonHook { trigger: b, hook });
}

/// Registers `cb` on releases of `b`, through a new latch where `ctx` has modifiers.
fn add_release_side(store: &mut RuleStore, b: Button, ctx: &Context, cb: usize)
    requires
        old(store).wf(),
        old(store).spec_latch_count() < usize::MAX,
    ensures
        final(store).wf(),
        lists_of(*final(store)) == release_side(lists_of(*old(store)), b, *ctx, cb),
        final(store).spec_remaps() == old(store).spec_remaps(),
        final(store).spec_wheel() == old(store).spec_wheel(),
        final(store).spec_cursor() == old(store).spec_cursor(),
{
    match ctx.modifiers {
        None => {
            let hook = Hook { condition: HotkeyCondition::Any, action: HookAction::Callback(cb), operation: ctx.native_event_operation };
            store.register_on_release(ButtonHook { trigger: b, hook });
        },
        Some(m) => {
            let l = store.new_latch();
            let setter = Hook {
                condition: HotkeyCondition::Modifier(m),
                action: HookAction::Activate(l),
                operation: EventBlock::Dispatch,
            };
            let consumer = Hook {
                condition: HotkeyCondition::Activation(l),
                action: HookAction::Callback(cb),
                operation: ctx.native_event_operation,
            };
            store.register_on_press(ButtonHook { trigger: b, hook: setter });
            store.register_on_release(ButtonHook { trigger: b, hook: consumer });
            add_consumers(store, &ctx.modifier_keys, consumer);
        },
    }
}

/// Registers `cb` for each element of `elems`, as `register_buttons` says.
fn add_buttons(store: &mut RuleStore, elems: &ButtonArg, release: bool, ctx: &Context, cb: usize)
    requires
        old(store).wf(),
        old(store).spec_latch_count() + elems@.len() < usize::MAX,
    ensures
        final(store).wf(),
        lists_of(*final(store)) == register_buttons(lists_of(*old(store)), elems@, release, *ctx, cb),
        final(store).spec_latch_count() <= old(store).spec_latch_count() + elems@.len(),
        final(store).spec_remaps() == old(store).spec_remaps(),
        final(store).spec_wheel() == old(store).spec_wheel(),
        final(store).spec_cursor() == old(store).spec_cursor(),
{
    let n = elems.len();
    let mut i: usize = 0;
    while i < n
        invariant
            n == elems@.len(),
            i <= n,
            store.wf(),
            store.spec_latch_count() <= old(store).spec_latch_count() + i,
            old(store).spec_latch_count() + n < usize::MAX,
            lists_of(*store) == register_buttons(lists_of(*old(store)), elems@.take(i as int), release, *ctx, cb),
            store.spec_remaps() == old(store).spec_remaps(),
            store.spec_wheel() == old(store).spec_wheel(),
            store.spec_cursor() == old(store).spec_cursor(),
        decreases n - i,
    {
        let e = elems.get(i);
        let direct = match e.tag {
            ButtonArgElementTag::Direct => true,
            ButtonArgElementTag::Inversion => false,
        };
        if direct != release {
            add_press_side(store, e.button, ctx, cb);
        } else {
            add_release_side(store, e.button, ctx, cb);
        }
        proof {
            let t = elems@.take(i + 1);
            assert(t.drop_last() == elems@.take(i as int));
            assert(t.last() == e);
        }
        i = i + 1;
    }
    proof {
        assert(elems@.take(n as int) == elems@);
    }
}

/// Registers a remap of each element of `elems` onto `target`.
fn add_remaps(store: &mut RuleStore, elems: &ButtonArg, ctx: &Context, target: Button)
    requires
        old(store).wf(),
    ensures
        final(store).wf(),
        final(store).spec_remaps() == old(store).spec_remaps() + remaps_of(elems@, ctx.condition(), target),
        lists_of(*final(store)) == lists_of(*old(store)),
        final(store).spec_wheel() == old(store).spec_wheel(),
        final(store).spec_cursor() == old(store).spec_cursor(),
{
    let condition = ctx.exec_condition();
    let n = elems.len();
    let mut i: usize = 0;
    while i < n
        invariant
            n == elems@.len(),
            i <= n,
            store.wf(),
            condition == ctx.condition(),
            store.spec_remaps() == old(store).spec_remaps() + remaps_of(elems@.take(i as int), condition, target),
            lists_of(*store) == lists_of(*old(store)),
            store.spec_wheel() == old(store).spec_wheel(),
            store.spec_cursor() == old(store).spec_cursor(),
        decreases n - i,
    {
        let e = elems.get(i);
        let ghost before = store.spec_remaps();
        let r = RemapHook { trigger: e.button, condition, target };
        store.register_remap(r);
        proof {
            let t = elems@.take(i + 1);
            assert(t.drop_last() == elems@.take(i as int));
            assert(t.last() == e);
            assert(old(store).spec_remaps() + remaps_of(elems@.take(i as int), condition, target).push(r) == before.push(r));
        }
        i = i + 1;
    }
    proof {
        assert(elems@.take(n as int) == elems@);
    }
}

/// Registers a blocking hook that does nothing on presses and releases of each element's button.
fn add_disabled(store: &mut RuleStore, elems: &ButtonArg, ctx: &Context)
    requires
        old(store).wf(),
    ensures
        final(store).wf(),
        final(store).spec_on_press() == old(store).spec_on_press() + disabled_hooks(elems@, disabled_hook(*ctx)),
        final(store).spec_on_release() == old(store).spec_on_release() + disabled_hooks(elems@, disabled_hook(*ctx)),
        final(store).spec_latch_count() == old(store).spec_latch_count(),
        final(store).spec_remaps() == old(store).spec_remaps(),
        final(store).spec_wheel() == old(store).spec_wheel(),
        final(store).spec_cursor() == old(store).spec_cursor(),
{
    let hook = Hook { condition: ctx.exec_condition(), action: HookAction::Ignore, operation: EventBlock::Block };
    let n = elems.len();
    let mut i: usize = 0;
    while i < n
        invariant
            n == elems@.len(),
            i <= n,
            store.wf(),
            hook == disabled_hook(*ctx),
            store.spec_on_press() == old(store).spec_on_press() + disabled_hooks(elems@.take(i as int), hook),
            store.spec_on_release() == old(store).spec_on_release() + disabled_hooks(elems@.take(i as int), hook),
            store.spec_latch_count() == old(store).spec_latch_count(),
            store.spec_remaps() == old(store).spec_remaps(),
            store.spec_wheel() == old(store).spec_wheel(),
            store.spec_cursor() == old(store).spec_cursor(),
        decreases n - i,
    {
        let e = elems.get(i);
        let ghost press = store.spec_on_press();
        let ghost release = store.spec_on_release();
        let bh = ButtonHook { trigger: e.button, hook };
        store.register_on_press(bh);
        store.register_on_release(bh);
        proof {
            let t = elems@.take(i + 1);
            assert(t.drop_last() == elems@.take(i as int));
            assert(t.last() == e);
            assert(old(store).spec_on_press() + disabled_hooks(elems@.take(i as int), hook).push(bh) == press.push(bh));
            assert(old(store).spec_on_release() + disabled_hooks(elems@.take(i as int), hook).push(bh) == release.push(bh));
        }
        i = i + 1;
    }
    proof {
        assert(elems@.take(n as int) == elems@);
    }
}

/// The hook that `disable` registers in `ctx`.
pub open spec fn disabled_hook(ctx: Context) -> Hook {
    Hook { condition: ctx.condition(), action: HookAction::Ignore, operation: EventBlock::Block }
}

/// Whether some element of `elems` is inverted.
fn any_inversion(elems: &ButtonArg) -> (r: bool)
    ensures
        r == has_inversion(elems@),
{
    let n = elems.len();
    let mut i: usize = 0;
    while i < n
        invariant
            n == elems@.len(),
            i <= n,
            forall|k: int| 0 <= k < i ==> (#[trigger] elems@[k]).tag == ButtonArgElementTag::Direct,
        decreases n - i,
    {
        let e = elems.get(i);
        match e.tag {
            ButtonArgElementTag::Inversion => {
                return true;
            },
            ButtonArgElementTag::Direct => {},
        }
        i = i + 1;
    }
    false
}

/// The root registrar: owns the rule store, and registers with no modifier.
#[derive(Debug)]
pub struct Hotkey {
    store: RuleStore,
    context: Context,
}

/// A registrar with its own modifiers or verdict, registering into a `Hotkey`'s store.
#[derive(Debug)]
pub struct BranchedHotkey {
    context: Context,
}

impl BranchedHotkey {
    /// The context of this registrar.
    pub closed spec fn spec_context(&self) -> Context {
        self.context
    }

    /// The context of this registrar.
    pub fn context(&self) -> (r: &Context)
        ensures
            *r == self.spec_context(),
    {
        &self.context
    }
}

/// Registrars that derive others with more modifiers or another verdict.
pub trait RegisterHotkey {
    /// The context of this registrar.
    spec fn context_of(&self) -> Context;

    /// A registrar whose hooks also require `modifiers`: direct buttons held, inverted ones not.
    fn add_modifiers(&self, modifiers: &ButtonArg) -> (r: BranchedHotkey)
        requires
            self.context_of().wf(),
        ensures
            r.spec_context().wf(),
            r.spec_context().modifiers is Some,
            r.spec_context().modifier_keys@ == self.context_of().modifier_keys@ + modifiers@,
            r.spec_context().native_event_operation == self.context_of().native_event_operation,
    ;

    /// A registrar whose hooks block the events that fire them.
    fn block_input_event(&self) -> (r: BranchedHotkey)
        requires
            self.context_of().wf(),
        ensures
            r.spec_context().wf(),
            r.spec_context().modifiers == self.context_of().modifiers,
            r.spec_context().modifier_keys@ == self.context_of().modifier_keys@,
            r.spec_context().native_event_operation == EventBlock::Block,
    ;

    /// A registrar whose hooks pass on the events that fire them.
    fn dispatch_input_event(&self) -> (r: BranchedHotkey)
        requires
            self.context_of().wf(),
        ensures
            r.spec_context().wf(),
            r.spec_context().modifiers == self.context_of().modifiers,
            r.spec_context().modifier_keys@ == self.context_of().modifier_keys@,
            r.spec_context().native_event_operation == EventBlock::Dispatch,
    ;
}

impl RegisterHotkey for Hotkey {
    open spec fn context_of(&self) -> Context {
        self.spec_context()
    }

    fn add_modifiers(&self, modifiers: &ButtonArg) -> (r: BranchedHotkey) {
        BranchedHotkey { context: self.context.add_modifiers(modifiers) }
    }

    fn block_input_event(&self) -> (r: BranchedHotkey) {
        BranchedHotkey { context: self.context.with_operation(EventBlock::Block) }
    }

    fn dispatch_input_event(&self) -> (r: BranchedHotkey) {
        BranchedHotkey { context: self.context.with_operation(EventBlock::Dispatch) }
    }
}

impl RegisterHotkey for BranchedHotkey {
    open spec fn context_of(&self) -> Context {
        self.spec_context()
    }

    fn add_modifiers(&self, modifiers: &ButtonArg) -> (r: BranchedHotkey) {
        BranchedHotkey { context: self.context.add_modifiers(modifiers) }
    }

    fn block_input_event(&self) -> (r: BranchedHotkey) {
        BranchedHotkey { context: self.context.with_operation(EventBlock::Block) }
    }

    fn dispatch_input_event(&self) -> (r: BranchedHotkey) {
        BranchedHotkey { context: self.context.with_operation(EventBlock::Dispatch) }
    }
}

impl Hotkey {
    pub closed spec fn spec_store(&self) -> RuleStore {
        self.store
    }

    /// The context of the root registrar.
    pub closed spec fn spec_context(&self) -> Context {
        self.context
    }

    /// The context of the root registrar.
    pub fn context(&self) -> (r: &Context)
        ensures
            *r == self.spec_context(),
    {
        &self.context
    }

    /// The store and the context are well formed.
    pub open spec fn wf(&self) -> bool {
        &&& self.spec_store().wf()
        &&& self.context_of().wf()
    }

    /// An empty registrar: no hook, no modifier, events passed on.
    pub fn new() -> (r: Hotkey)
        ensures
            r.wf(),
            r.spec_store().spec_remaps() == Seq::<RemapHook>::empty(),
            r.spec_store().spec_on_press() == Seq::<ButtonHook>::empty(),
            r.spec_store().spec_on_release() == Seq::<ButtonHook>::empty(),
            r.spec_store().spec_wheel() == Seq::<Hook>::empty(),
            r.spec_store().spec_cursor() == Seq::<Hook>::empty(),
            r.spec_store().spec_latch_count() == 0,
            r.context_of().modifiers is None,
            r.context_of().native_event_operation == EventBlock::Dispatch,
    {
        Hotkey { store: RuleStore::new(), context: Context::new() }
    }

    /// The number of latches registered so far.
    pub fn latch_count(&self) -> (r: usize)
        ensures
            r == self.spec_store().spec_latch_count(),
    {
        self.store.latch_count()
    }

    /// Ends registration: an engine running the registered hooks, with no button held.
    pub fn install(self) -> (r: InputHandler)
        requires
            self.wf(),
        ensures
            r.wf(),
            r.spec_store() == self.spec_store(),
            r.spec_pressed() == Set::<Button>::empty(),
            r.spec_latches() == Seq::new(self.spec_store().spec_latch_count(), |i: int| false),
    {
        InputHandler::new(self.store)
    }

    /// Makes each button of `target` act as `behavior`, in this registrar's context.
    pub fn remap(&mut self, target: &ButtonArg, behavior: Button) -> (r: Result<(), RegisterError>)
        requires
            old(self).wf(),
        ensures
            final(self).wf(),
            final(self).context_of() == old(self).context_of(),
            r is Err <==> has_inversion(target@),
            r is Err ==> r == Err::<(), RegisterError>(RegisterError::InvertedRemap),
            r is Err ==> final(self).spec_store() == old(self).spec_store(),
            r is Ok ==> final(self).spec_store().spec_remaps()
                == old(self).spec_store().spec_remaps() + remaps_of(target@, old(self).context_of().condition(), behavior),
            lists_of(final(self).spec_store()) == lists_of(old(self).spec_store()),
            final(self).spec_store().spec_wheel() == old(self).spec_store().spec_wheel(),
            final(self).spec_store().spec_cursor() == old(self).spec_store().spec_cursor(),
    {
        if any_inversion(target) {
            return Err(RegisterError::InvertedRemap);
        }
        add_remaps(&mut self.store, target, &self.context, behavior);
        Ok(())
    }

    /// Runs callback `cb` on presses of `b`, in context `ctx`.
    pub(crate) fn register_press(&mut self, b: Button, ctx: &Context, cb: usize)
        requires
            old(self).wf(),
        ensures
            final(self).wf(),
            final(self).context_of() == old(self).context_of(),
            lists_of(final(self).spec_store()) == press_side(lists_of(old(self).spec_store()), b, *ctx, cb),
            final(self).spec_store().spec_remaps() == old(self).spec_store().spec_remaps(),
            final(self).spec_store().spec_wheel() == old(self).spec_store().spec_wheel(),
            final(self).spec_store().spec_cursor() == old(self).spec_store().spec_cursor(),
    {
        add_press_side(&mut self.store, b, ctx, cb);
    }

    /// Runs callback `cb` on releases of `b`, in context `ctx`.
    pub(crate) fn register_release(&mut self, b: Button, ctx: &Context, cb: usize)
        requires
            old(self).wf(),
            old(self).spec_store().spec_latch_count() < usize::MAX,
        ensures
            final(self).wf(),
            final(self).context_of() == old(self).context_of(),
            lists_of(final(self).spec_store()) == release_side(lists_of(old(self).spec_store()), b, *ctx, cb),
            final(self).spec_store().spec_remaps() == old(self).spec_store().spec_remaps(),
            final(self).spec_store().spec_wheel() == old(self).spec_store().spec_wheel(),
            final(self).spec_store().spec_cursor() == old(self).spec_store().spec_cursor(),
    {
        add_release_side(&mut self.store, b, ctx, cb);
    }

    /// Runs callback `cb` on each wheel rotation, in context `ctx`.
    pub(crate) fn register_wheel(&mut self, ctx: &Context, cb: usize)
        requires
            old(self).wf(),
        ensures
            final(self).wf(),
            final(self).context_of() == old(self).context_of(),
            final(self).spec_store().spec_wheel() == old(self).spec_store().spec_wheel().push(callback_hook(*ctx, cb)),
            lists_of(final(self).spec_store()) == lists_of(old(self).spec_store()),
            final(self).spec_store().spec_remaps() == old(self).spec_store().spec_remaps(),
            final(self).spec_store().spec_cursor() == old(self).spec_store().spec_cursor(),
    {
        let hook = Hook { condition: ctx.exec_condition(), action: HookAction::Callback(cb), operation: ctx.native_event_operation };
        self.store.register_wheel(hook);
    }

    /// Runs callback `cb` on each cursor move, in context `ctx`.
    pub(crate) fn register_cursor(&mut self, ctx: &Context, cb: usize)
        requires
            old(self).wf(),
        ensures
            final(self).wf(),
            final(self).context_of() == old(self).context_of(),
            final(self).spec_store().spec_cursor() == old(self).spec_store().spec_cursor().push(callback_hook(*ctx, cb)),
            lists_of(final(self).spec_store()) == lists_of(old(self).spec_store()),
            final(self).spec_store().spec_remaps() == old(self).spec_store().spec_remaps(),
            final(self).spec_store().spec_wheel() == old(self).spec_store().spec_wheel(),
    {
        let hook = Hook { condition: ctx.exec_condition(), action: HookAction::Callback(cb), operation: ctx.native_event_operation };
        self.store.register_cursor(hook);
    }

    /// Runs callback `cb` on presses of each direct button of `target`
    /// (and on releases of each inverted one).
    pub fn on_press(&mut self, target: &ButtonArg, cb: usize)
        requires
            old(self).wf(),
            old(self).spec_store().spec_latch_count() + target@.len() < usize::MAX,
        ensures
            final(self).wf(),
            final(self).context_of() == old(self).context_of(),
            lists_of(final(self).spec_store())
                == register_buttons(lists_of(old(self).spec_store()), target@, false, old(self).context_of(), cb),
            final(self).spec_store().spec_latch_count() <= old(self).spec_store().spec_latch_count() + target@.len(),
            final(self).spec_store().spec_remaps() == old(self).spec_store().spec_remaps(),
            final(self).spec_store().spec_wheel() == old(self).spec_store().spec_wheel(),
            final(self).spec_store().spec_cursor() == old(self).spec_store().spec_cursor(),
    {
        add_buttons(&mut self.store, target, false, &self.context, cb);
    }

    /// Runs callback `cb` on releases of each direct button of `target`
    /// (and on presses of each inverted one).
    pub fn on_release(&mut self, target: &ButtonArg, cb: usize)
        requires
            old(self).wf(),
            old(self).spec_store().spec_latch_count() + target@.len() < usize::MAX,
        ensures
            final(self).wf(),
            final(self).context_of() == old(self).context_of(),
            lists_of(final(self).spec_store())
                == register_buttons(lists_of(old(self).spec_store()), target@, true, old(self).context_of(), cb),
            final(self).spec_store().spec_latch_count() <= old(self).spec_store().spec_latch_count() + target@.len(),
            final(self).spec_store().spec_remaps() == old(self).spec_store().spec_remaps(),
            final(self).spec_store().spec_wheel() == old(self).spec_store().spec_wheel(),
            final(self).spec_store().spec_cursor() == old(self).spec_store().spec_cursor(),
    {
        add_buttons(&mut self.store, target, true, &self.context, cb);
    }

    /// Runs callback `cb` on each wheel rotation.
    pub fn mouse_wheel(&mut self, cb: usize)
        requires
            old(self).wf(),
        ensures
            final(self).wf(),
            final(self).context_of() == old(self).context_of(),
            final(self).spec_store().spec_wheel() == old(self).spec_store().spec_wheel().push(callback_hook(old(self).context_of(), cb)),
            lists_of(final(self).spec_store()) == lists_of(old(self).spec_store()),
            final(self).spec_store().spec_remaps() == old(self).spec_store().spec_remaps(),
            final(self).spec_store().spec_cursor() == old(self).spec_store().spec_cursor(),
    {
        let hook = Hook { condition: self.context.exec_condition(), action: HookAction::Callback(cb), operation: self.context.native_event_operation };
        self.store.register_wheel(hook);
    }

    /// Runs callback `cb` on each cursor move.
    pub fn mouse_cursor(&mut self, cb: usize)
        requires
            old(self).wf(),
        ensures
            final(self).wf(),
            final(self).context_of() == old(self).context_of(),
            final(self).spec_store().spec_cursor() == old(self).spec_store().spec_cursor().push(callback_hook(old(self).context_of(), cb)),
            lists_of(final(self).spec_store()) == lists_of(old(self).spec_store()),
            final(self).spec_store().spec_remaps() == old(self).spec_store().spec_remaps(),
            final(self).spec_store().spec_wheel() == old(self).spec_store().spec_wheel(),
    {
        let hook = Hook { condition: self.context.exec_condition(), action: HookAction::Callback(cb), operation: self.context.native_event_operation };
        self.store.register_cursor(hook);
    }

    /// Blocks presses and releases of each button of `target`.
    pub fn disable(&mut self, target: &ButtonArg)
        requires
            old(self).wf(),
        ensures
            final(self).wf(),
            final(self).context_of() == old(self).context_of(),
            final(self).spec_store().spec_on_press()
                == old(self).spec_store().spec_on_press() + disabled_hooks(target@, disabled_hook(old(self).context_of())),
            final(self).spec_store().spec_on_release()
                == old(self).spec_store().spec_on_release() + disabled_hooks(target@, disabled_hook(old(self).context_of())),
            final(self).spec_store().spec_latch_count() == old(self).spec_store().spec_latch_count(),
            final(self).spec_store().spec_remaps() == old(self).spec_store().spec_remaps(),
            final(self).spec_store().spec_wheel() == old(self).spec_store().spec_wheel(),
            final(self).spec_store().spec_cursor() == old(self).spec_store().spec_cursor(),
    {
        add_disabled(&mut self.store, target, &self.context);
    }
}

impl BranchedHotkey {
    /// As `Hotkey::remap`, in this registrar's context.
    pub fn remap(&self, hotkey: &mut Hotkey, target: &ButtonArg, behavior: Button) -> (r: Result<(), RegisterError>)
        requires
            old(hotkey).wf(),
        ensures
            final(hotkey).wf(),
            final(hotkey).context_of() == old(hotkey).context_of(),
            r is Err <==> has_inversion(target@),
            r is Err ==> r == Err::<(), RegisterError>(RegisterError::InvertedRemap),
            r is Err ==> final(hotkey).spec_store() == old(hotkey).spec_store(),
            r is Ok ==> final(hotkey).spec_store().spec_remaps()
                == old(hotkey).spec_store().spec_remaps() + remaps_of(target@, self.context_of().condition(), behavior),
            lists_of(final(hotkey).spec_store()) == lists_of(old(hotkey).spec_store()),
            final(hotkey).spec_store().spec_wheel() == old(hotkey).spec_store().spec_wheel(),
            final(hotkey).spec_store().spec_cursor() == old(hotkey).spec_store().spec_cursor(),
    {
        if any_inversion(target) {
            return Err(RegisterError::InvertedRemap);
        }
        add_remaps(&mut hotkey.store, target, &self.context, behavior);
        Ok(())
    }

    /// As `Hotkey::on_press`, in this registrar's context.
    pub fn on_press(&self, hotkey: &mut Hotkey, target: &ButtonArg, cb: usize)
        requires
            old(hotkey).wf(),
            self.context_of().wf(),
            old(hotkey).spec_store().spec_latch_count() + target@.len() < usize::MAX,
        ensures
            final(hotkey).wf(),
            final(hotkey).context_of() == old(hotkey).context_of(),
            lists_of(final(hotkey).spec_store())
                == register_buttons(lists_of(old(hotkey).spec_store()), target@, false, self.context_of(), cb),
            final(hotkey).spec_store().spec_latch_count() <= old(hotkey).spec_store().spec_latch_count() + target@.len(),
            final(hotkey).spec_store().spec_remaps() == old(hotkey).spec_store().spec_remaps(),
            final(hotkey).spec_store().spec_wheel() == old(hotkey).spec_store().spec_wheel(),
            final(hotkey).spec_store().spec_cursor() == old(hotkey).spec_store().spec_cursor(),
    {
        add_buttons(&mut hotkey.store, target, false, &self.context, cb);
    }

    /// As `Hotkey::on_release`, in this registrar's context.
    pub fn on_release(&self, hotkey: &mut Hotkey, target: &ButtonArg, cb: usize)
        requires
            old(hotkey).wf(),
            self.context_of().wf(),
            old(hotkey).spec_store().spec_latch_count() + target@.len() < usize::MAX,
        ensures
            final(hotkey).wf(),
            final(hotkey).context_of() == old(hotkey).context_of(),
            lists_of(final(hotkey).spec_store())
                == register_buttons(lists_of(old(hotkey).spec_store()), target@, true, self.context_of(), cb),
            final(hotkey).spec_store().spec_latch_count() <= old(hotkey).spec_store().spec_latch_count() + target@.len(),
            final(hotkey).spec_store().spec_remaps() == old(hotkey).spec_store().spec_remaps(),
            final(hotkey).spec_store().spec_wheel() == old(hotkey).spec_store().spec_wheel(),
            final(hotkey).spec_store().spec_cursor() == old(hotkey).spec_store().spec_cursor(),
    {
        add_buttons(&mut hotkey.store, target, true, &self.context, cb);
    }

    /// As `Hotkey::mouse_wheel`, in this registrar's context.
    pub fn mouse_wheel(&self, hotkey: &mut Hotkey, cb: usize)
        requires
            old(hotkey).wf(),
        ensures
            final(hotkey).wf(),
            final(hotkey).context_of() == old(hotkey).context_of(),
            final(hotkey).spec_store().spec_wheel() == old(hotkey).spec_store().spec_wheel().push(callback_hook(self.context_of(), cb)),
            lists_of(final(hotkey).spec_store()) == lists_of(old(hotkey).spec_store()),
            final(hotkey).spec_store().spec_remaps() == old(hotkey).spec_store().spec_remaps(),
            final(hotkey).spec_store().spec_cursor() == old(hotkey).spec_store().spec_cursor(),
    {
        let hook = Hook { condition: self.context.exec_condition(), action: HookAction::Callback(cb), operation: self.context.native_event_operation };
        hotkey.store.register_wheel(hook);
    }

    /// As `Hotkey::mouse_cursor`, in this registrar's context.
    pub fn mouse_cursor(&self, hotkey: &mut Hotkey, cb: usize)
        requires
            old(hotkey).wf(),
        ensures
            final(hotkey).wf(),
            final(hotkey).context_of() == old(hotkey).context_of(),
            final(hotkey).spec_store().spec_cursor() == old(hotkey).spec_store().spec_cursor().push(callback_hook(self.context_of(), cb)),
            lists_of(final(hotkey).spec_store()) == lists_of(old(hotkey).spec_store()),
            final(hotkey).spec_store().spec_remaps() == old(hotkey).spec_store().spec_remaps(),
            final(hotkey).spec_store().spec_wheel() == old(hotkey).spec_store().spec_wheel(),
    {
        let hook = Hook { condition: self.context.exec_condition(), action: HookAction::Callback(cb), operation: self.context.native_event_operation };
        hotkey.store.register_cursor(hook);
    }

    /// As `Hotkey::disable`, in this registrar's context.
    pub fn disable(&self, hotkey: &mut Hotkey, target: &ButtonArg)
        requires
            old(hotkey).wf(),
        ensures
            final(hotkey).wf(),
            final(hotkey).context_of() == old(hotkey).context_of(),
            final(hotkey).spec_store().spec_on_press()
                == old(hotkey).spec_store().spec_on_press() + disabled_hooks(target@, disabled_hook(self.context_of())),
            final(hotkey).spec_store().spec_on_release()
                == old(hotkey).spec_store().spec_on_release() + disabled_hooks(target@, disabled_hook(self.context_of())),
            final(hotkey).spec_store().spec_latch_count() == old(hotkey).spec_store().spec_latch_count(),
            final(hotkey).spec_store().spec_remaps() == old(hotkey).spec_store().spec_remaps(),
            final(hotkey).spec_store().spec_wheel() == old(hotkey).spec_store().spec_wheel(),
            final(hotkey).spec_store().spec_cursor() == old(hotkey).spec_store().spec_cursor(),
    {
        add_disabled(&mut hotkey.store, target, &self.context);
    }
}

} // verus!
