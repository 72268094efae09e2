use hookmap::bridge::{capture_button, emitted};
use hookmap::button::{Button, ButtonAction, Key};
use hookmap::button_arg::{ButtonArg, ButtonArgElement};
use hookmap::event::{ButtonEvent, Event, EventBlock};
use hookmap::hotkey::{Hotkey, RegisterError, RegisterHotkey};
use hookmap::resolver::InputHandler;

fn key(k: Key) -> Button {
    Button::Key(k)
}

fn one(b: Button) -> ButtonArg {
    ButtonArg::from_button(b)
}

fn press(b: Button) -> Event {
    Event::Button(ButtonEvent::new(b, ButtonAction::Press))
}

fn release(b: Button) -> Event {
    Event::Button(ButtonEvent::new(b, ButtonAction::Release))
}

#[test]
fn simple_remap_blocks_and_sends_target() {
    let mut hotkey = Hotkey::new();
    hotkey.remap(&one(key(Key::A)), key(Key::B)).unwrap();
    hotkey.on_press(&one(key(Key::A)), 7);
    let mut engine = hotkey.install();
    let r = engine.on_event(press(key(Key::A)));
    assert_eq!(r.verdict, EventBlock::Block);
    assert_eq!(
        r.injections,
        vec![ButtonEvent { target: key(Key::B), action: ButtonAction::Press, injected: true }]
    );
    assert!(r.callbacks.is_empty());
    assert!(engine.is_pressed(key(Key::A)));
    assert!(!engine.is_pressed(key(Key::B)));
}

#[test]
fn modifier_press_runs_callback_once() {
    let mut hotkey = Hotkey::new();
    let shifted = hotkey.add_modifiers(&one(key(Key::LShift)));
    shifted.on_press(&mut hotkey, &one(key(Key::Q)), 3);
    let mut engine = hotkey.install();
    let r1 = engine.on_event(press(key(Key::LShift)));
    assert_eq!(r1.verdict, EventBlock::Dispatch);
    assert!(r1.callbacks.is_empty());
    let r2 = engine.on_event(press(key(Key::Q)));
    assert_eq!(r2.verdict, EventBlock::Dispatch);
    assert_eq!(r2.callbacks, vec![3]);
}

#[test]
fn modifier_press_needs_modifier() {
    let mut hotkey = Hotkey::new();
    let shifted = hotkey.add_modifiers(&one(key(Key::LShift)));
    shifted.on_press(&mut hotkey, &one(key(Key::Q)), 3);
    let mut engine = hotkey.install();
    let r = engine.on_event(press(key(Key::Q)));
    assert!(r.callbacks.is_empty());
    assert_eq!(r.verdict, EventBlock::Dispatch);
}

#[test]
fn latched_release_fires_once_on_modifier_release() {
    let mut hotkey = Hotkey::new();
    let ctrl = hotkey.add_modifiers(&one(key(Key::LCtrl)));
    ctrl.on_release(&mut hotkey, &one(key(Key::Space)), 9);
    let mut engine = hotkey.install();
    assert!(engine.on_event(press(key(Key::LCtrl))).callbacks.is_empty());
    assert!(engine.on_event(press(key(Key::Space))).callbacks.is_empty());
    assert!(engine.is_latched(0));
    assert_eq!(engine.on_event(release(key(Key::LCtrl))).callbacks, vec![9]);
    assert!(!engine.is_latched(0));
    assert!(engine.on_event(release(key(Key::Space))).callbacks.is_empty());
}

#[test]
fn latched_release_fires_on_trigger_release() {
    let mut hotkey = Hotkey::new();
    let ctrl = hotkey.add_modifiers(&one(key(Key::LCtrl)));
    ctrl.on_release(&mut hotkey, &one(key(Key::Space)), 9);
    let mut engine = hotkey.install();
    engine.on_event(press(key(Key::LCtrl)));
    engine.on_event(press(key(Key::Space)));
    assert_eq!(engine.on_event(release(key(Key::Space))).callbacks, vec![9]);
    assert!(engine.on_event(release(key(Key::LCtrl))).callbacks.is_empty());
}

#[test]
fn block_wins_over_dispatch() {
    let mut hotkey = Hotkey::new();
    hotkey.on_press(&one(key(Key::A)), 1);
    let blocking = hotkey.block_input_event();
    blocking.on_press(&mut hotkey, &one(key(Key::A)), 2);
    let mut engine = hotkey.install();
    let r = engine.on_event(press(key(Key::A)));
    assert_eq!(r.callbacks, vec![1, 2]);
    assert_eq!(r.verdict, EventBlock::Block);
}

#[test]
fn injected_loopback_is_passed_on() {
    let mut hotkey = Hotkey::new();
    hotkey.on_press(&one(key(Key::B)), 4);
    let mut engine = hotkey.install();
    let event = capture_button(emitted(key(Key::B), ButtonAction::Press));
    assert!(event.injected);
    let r = engine.on_event(Event::Button(event));
    assert_eq!(r.verdict, EventBlock::Dispatch);
    assert!(r.callbacks.is_empty());
    assert!(!engine.is_pressed(key(Key::B)));
}

#[test]
fn disabled_button_is_blocked() {
    let mut hotkey = Hotkey::new();
    hotkey.disable(&one(key(Key::F1)));
    let mut engine = hotkey.install();
    let r1 = engine.on_event(press(key(Key::F1)));
    let r2 = engine.on_event(release(key(Key::F1)));
    assert_eq!(r1.verdict, EventBlock::Block);
    assert_eq!(r2.verdict, EventBlock::Block);
    assert!(r1.callbacks.is_empty());
    assert!(r2.callbacks.is_empty());
}

#[test]
fn remap_of_inverted_button_is_refused() {
    let mut hotkey = Hotkey::new();
    let target = ButtonArg::new(vec![ButtonArgElement::direct(key(Key::A)), ButtonArgElement::inversion(key(Key::C))]);
    assert_eq!(hotkey.remap(&target, key(Key::B)), Err(RegisterError::InvertedRemap));
    let mut engine = hotkey.install();
    let r = engine.on_event(press(key(Key::A)));
    assert_eq!(r.verdict, EventBlock::Dispatch);
    assert!(r.injections.is_empty());
}

#[test]
fn inverted_on_press_registers_release() {
    let mut hotkey = Hotkey::new();
    hotkey.on_press(&ButtonArg::new(vec![ButtonArgElement::inversion(key(Key::A))]), 5);
    let mut engine = hotkey.install();
    assert!(engine.on_event(press(key(Key::A))).callbacks.is_empty());
    assert_eq!(engine.on_event(release(key(Key::A))).callbacks, vec![5]);
}

#[test]
fn remap_under_unmet_modifier_falls_through() {
    let mut hotkey = Hotkey::new();
    let shifted = hotkey.add_modifiers(&one(key(Key::LShift)));
    shifted.remap(&mut hotkey, &one(key(Key::A)), key(Key::B)).unwrap();
    hotkey.on_press(&one(key(Key::A)), 6);
    let mut engine = hotkey.install();
    let r = engine.on_event(press(key(Key::A)));
    assert!(r.injections.is_empty());
    assert_eq!(r.callbacks, vec![6]);
    assert_eq!(r.verdict, EventBlock::Dispatch);
    engine.on_event(press(key(Key::LShift)));
    let r = engine.on_event(press(key(Key::A)));
    assert_eq!(r.injections.len(), 1);
    assert!(r.callbacks.is_empty());
}

#[test]
fn release_required_modifier_blocks_hook() {
    let mut hotkey = Hotkey::new();
    let not_alt = hotkey.add_modifiers(&ButtonArg::new(vec![ButtonArgElement::inversion(key(Key::LAlt))]));
    not_alt.on_press(&mut hotkey, &one(key(Key::Tab)), 8);
    let mut engine = hotkey.install();
    assert_eq!(engine.on_event(press(key(Key::Tab))).callbacks, vec![8]);
    engine.on_event(press(key(Key::LAlt)));
    assert!(engine.on_event(press(key(Key::Tab))).callbacks.is_empty());
}

#[test]
fn no_hook_means_dispatch() {
    let mut engine: InputHandler = Hotkey::new().install();
    let r = engine.on_event(press(key(Key::Z)));
    assert_eq!(r.verdict, EventBlock::Dispatch);
    assert!(r.callbacks.is_empty());
    assert!(r.injections.is_empty());
}
