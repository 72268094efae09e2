//! Registration bound to one button or to the mouse, in a registrar's context.
use vstd::prelude::*;
use crate::button::Button;
use crate::hotkey::{
    BranchedHotkey, Context, Hotkey, RegisterHotkey, callback_hook, lists_of, press_side, release_side,
};

verus! {

/// Registers hooks on one button.
#[derive(Debug)]
pub struct ButtonRegister {
    context: Context,
    button: Button,
}

/// Registers hooks on cursor moves.
#[derive(Debug)]
pub struct MouseCursorRegister {
    context: Context,
}

/// Registers hooks on wheel rotations.
#[derive(Debug)]
pub struct MouseWheelRegister {
    context: Context,
}

impl ButtonRegister {
    pub closed spec fn spec_context(&self) -> Context {
        self.context
    }

    pub closed spec fn spec_button(&self) -> Button {
        self.button
    }

    /// A register for `button` in `context`.
    pub fn new(context: Context, button: Button) -> (r: ButtonRegister)
        ensures
            r.spec_context() == context,
            r.spec_button() == button,
    {
        ButtonRegister { context, button }
    }

    /// Runs callback `cb` when the button is pressed.
    pub fn on_press(&self, hotkey: &mut Hotkey, cb: usize)
        requires
            old(hotkey).wf(),
        ensures
            final(hotkey).wf(),
            final(hotkey).context_of() == old(hotkey).context_of(),
            lists_of(final(hotkey).spec_store())
                == press_side(lists_of(old(hotkey).spec_store()), self.spec_button(), self.spec_context(), cb),
            final(hotkey).spec_store().spec_remaps() == old(hotkey).spec_store().spec_remaps(),
            final(hotkey).spec_store().spec_wheel() == old(hotkey).spec_store().spec_wheel(),
            final(hotkey).spec_store().spec_cursor() == old(hotkey).spec_store().spec_cursor(),
    {
        hotkey.register_press(self.button, &self.context, cb);
    }

    /// Runs callback `cb` when the button is released.
    pub fn on_release(&self, hotkey: &mut Hotkey, cb: usize)
        requires
            old(hotkey).wf(),
            old(hotkey).spec_store().spec_latch_count() < usize::MAX,
        ensures
            final(hotkey).wf(),
            final(hotkey).context_of() == old(hotkey).context_of(),
            lists_of(final(hotkey).spec_store())
                == release_side(lists_of(old(hotkey).spec_store()), self.spec_button(), self.spec_context(), cb),
            final(hotkey).spec_store().spec_remaps() == old(hotkey).spec_store().spec_remaps(),
            final(hotkey).spec_store().spec_wheel() == old(hotkey).spec_store().spec_wheel(),
            final(hotkey).spec_store().spec_cursor() == old(hotkey).spec_store().spec_cursor(),
    {
        hotkey.register_release(self.button, &self.context, cb);
    }

    /// Runs callback `cb` when the button is pressed and when it is released.
    pub fn on_press_or_release(&self, hotkey: &mut Hotkey, cb: usize)
        requires
            old(hotkey).wf(),
            old(hotkey).spec_store().spec_latch_count() < usize::MAX,
        ensures
            final(hotkey).wf(),
            final(hotkey).context_of() == old(hotkey).context_of(),
            lists_of(final(hotkey).spec_store()) == release_side(
                press_side(lists_of(old(hotkey).spec_store()), self.spec_button(), self.spec_context(), cb),
                self.spec_button(),
                self.spec_context(),
                cb,
            ),
            final(hotkey).spec_store().spec_remaps() == old(hotkey).spec_store().spec_remaps(),
            final(hotkey).spec_store().spec_wheel() == old(hotkey).spec_store().spec_wheel(),
            final(hotkey).spec_store().spec_cursor() == old(hotkey).spec_store().spec_cursor(),
    {
        hotkey.register_press(self.button, &self.context, cb);
        hotkey.register_release(self.button, &self.context, cb);
    }
}

impl MouseCursorRegister {
    pub closed spec fn spec_context(&self) -> Context {
        self.context
    }

    /// A register for cursor moves in `context`.
    pub fn new(context: Context) -> (r: MouseCursorRegister)
        ensures
            r.spec_context() == context,
    {
        MouseCursorRegister { context }
    }

    /// Runs callback `cb` on each cursor move.
    pub fn on_move(&self, hotkey: &mut Hotkey, cb: usize)
        requires
            old(hotkey).wf(),
        ensures
            final(hotkey).wf(),
            final(hotkey).context_of() == old(hotkey).context_of(),
            final(hotkey).spec_store().spec_cursor()
                == old(hotkey).spec_store().spec_cursor().push(callback_hook(self.spec_context(), cb)),
            lists_of(final(hotkey).spec_store()) == lists_of(old(hotkey).spec_store()),
            final(hotkey).spec_store().spec_remaps() == old(hotkey).spec_store().spec_remaps(),
            final(hotkey).spec_store().spec_wheel() == old(hotkey).spec_store().spec_wheel(),
    {
        hotkey.register_cursor(&self.context, cb);
    }
}

impl MouseWheelRegister {
    pub closed spec fn spec_context(&self) -> Context {
        self.context
    }

    /// A register for wheel rotations in `context`.
    pub fn new(context: Context) -> (r: MouseWheelRegister)
        ensures
            r.spec_context() == context,
    {
        MouseWheelRegister { context }
    }

    /// Runs callback `cb` on each wheel rotation.
    pub fn on_rotate(&self, hotkey: &mut Hotkey, cb: usize)
        requires
            old(hotkey).wf(),
        ensures
            final(hotkey).wf(),
            final(hotkey).context_of() == old(hotkey).context_of(),
            final(hotkey).spec_store().spec_wheel()
                == old(hotkey).spec_store().spec_wheel().push(callback_hook(self.spec_context(), cb)),
            lists_of(final(hotkey).spec_store()) == lists_of(old(hotkey).spec_store()),
            final(hotkey).spec_store().spec_remaps() == old(hotkey).spec_store().spec_remaps(),
            final(hotkey).spec_store().spec_cursor() == old(hotkey).spec_store().spec_cursor(),
    {
        hotkey.register_wheel(&self.context, cb);
    }
}

/// Registrars that hand out registers bound to a button or to the mouse.
pub trait SelectHandleTarget: RegisterHotkey {
    /// A register for `button`, in this registrar's context.
    fn bind(&self, button: Button) -> (r: ButtonRegister)
        ensures
            r.spec_context().same(&self.context_of()),
            r.spec_button() == button,
    ;

    /// A register for wheel rotations, in this registrar's context.
    fn bind_mouse_wheel(&self) -> (r: MouseWheelRegister)
        ensures
            r.spec_context().same(&self.context_of()),
    ;

    /// A register for cursor moves, in this registrar's context.
    fn bind_mouse_cursor(&self) -> (r: MouseCursorRegister)
        ensures
            r.spec_context().same(&self.context_of()),
    ;
}

impl SelectHandleTarget for Hotkey {
    fn bind(&self, button: Button) -> (r: ButtonRegister) {
        ButtonRegister::new(self.context().duplicate(), button)
    }

    fn bind_mouse_wheel(&self) -> (r: MouseWheelRegister) {
        MouseWheelRegister::new(self.context().duplicate())
    }

    fn bind_mouse_cursor(&self) -> (r: MouseCursorRegister) {
        MouseCursorRegister::new(self.context().duplicate())
    }
}

impl SelectHandleTarget for BranchedHotkey {
    fn bind(&self, button: Button) -> (r: ButtonRegister) {
        ButtonRegister::new(self.context().duplicate(), button)
    }

    fn bind_mouse_wheel(&self) -> (r: MouseWheelRegister) {
        MouseWheelRegister::new(self.context().duplicate())
    }

    fn bind_mouse_cursor(&self) -> (r: MouseCursorRegister) {
        MouseCursorRegister::new(self.context().duplicate())
    }
}

} // verus!
