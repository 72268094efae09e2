use hookmap::button::{Button, ButtonAction, Key};
use hookmap::button_arg::ButtonArg;
use hookmap::event::{ButtonEvent, CursorEvent, Event, EventBlock, WheelEvent};
use hookmap::hotkey::{Hotkey, RegisterHotkey};
use hookmap::register::SelectHandleTarget;

fn key(k: Key) -> Button {
    Button::Key(k)
}

fn button(b: Button, a: ButtonAction) -> Event {
    Event::Button(ButtonEvent::new(b, a))
}

#[test]
fn bound_button_runs_on_press_and_release() {
    let mut hotkey = Hotkey::new();
    let a = hotkey.bind(key(Key::A));
    a.on_press(&mut hotkey, 1);
    a.on_release(&mut hotkey, 2);
    hotkey.bind(key(Key::B)).on_press_or_release(&mut hotkey, 3);
    let mut engine = hotkey.install();
    assert_eq!(engine.on_event(button(key(Key::A), ButtonAction::Press)).callbacks, vec![1]);
    assert_eq!(engine.on_event(button(key(Key::A), ButtonAction::Release)).callbacks, vec![2]);
    assert_eq!(engine.on_event(button(key(Key::B), ButtonAction::Press)).callbacks, vec![3]);
    assert_eq!(engine.on_event(button(key(Key::B), ButtonAction::Release)).callbacks, vec![3]);
}

#[test]
fn bound_button_keeps_branch_context() {
    let mut hotkey = Hotkey::new();
    let blocking = hotkey.block_input_event();
    blocking.bind(key(Key::C)).on_press(&mut hotkey, 4);
    let shifted = hotkey.add_modifiers(&ButtonArg::from_button(key(Key::RShift)));
    shifted.bind(key(Key::D)).on_press(&mut hotkey, 5);
    let mut engine = hotkey.install();
    let r = engine.on_event(button(key(Key::C), ButtonAction::Press));
    assert_eq!(r.callbacks, vec![4]);
    assert_eq!(r.verdict, EventBlock::Block);
    assert!(engine.on_event(button(key(Key::D), ButtonAction::Press)).callbacks.is_empty());
    engine.on_event(button(key(Key::RShift), ButtonAction::Press));
    assert_eq!(engine.on_event(button(key(Key::D), ButtonAction::Press)).callbacks, vec![5]);
}

#[test]
fn bound_mouse_registers() {
    let mut hotkey = Hotkey::new();
    hotkey.bind_mouse_wheel().on_rotate(&mut hotkey, 6);
    hotkey.bind_mouse_cursor().on_move(&mut hotkey, 7);
    let mut engine = hotkey.install();
    assert_eq!(engine.on_event(Event::Wheel(WheelEvent { delta: 1, injected: false })).callbacks, vec![6]);
    assert_eq!(engine.on_event(Event::Cursor(CursorEvent { dx: 0, dy: 1, injected: false })).callbacks, vec![7]);
}
