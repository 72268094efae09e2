//! What the platform layer provides: sending input, and installing the hooks.
use vstd::prelude::*;

verus! {

/// Sends keyboard input and reads key state; every event sent carries the origin tag.
pub trait EmulateKeyboardInput {
    fn press(&self);

    fn release(&self);

    /// A press, then a release.
    fn click(&self) {
        self.press();
        self.release();
    }

    fn is_pressed(&self) -> bool;

    fn is_toggled(&self) -> bool;
}

/// Sends mouse input and reads mouse state; every event sent carries the origin tag.
pub trait EmulateMouseInput {
    fn press(&self);

    fn release(&self);

    /// A press, then a release.
    fn click(&self) {
        self.press();
        self.release();
    }

    fn is_pressed(&self) -> bool;

    fn get_cursor_pos() -> (i32, i32);

    fn move_abs(x: i32, y: i32);

    fn move_rel(dx: i32, dy: i32);

    fn rotate_wheel(speed: i32);
}

/// Installs the OS hooks and runs the OS event loop.
pub trait HookInstaller {
    /// Installs hooks in the way of each platform.
    fn install();

    /// Runs the event loop until it ends.
    fn handle_input();
}

/// A callback scheduled for one event.
pub trait EventCallback {
    /// Runs the callback.
    fn call(&mut self);
}

} // verus!
