use hookmap::button::{Button, Key};
use hookmap::button_arg::{ButtonArg, ButtonArgElement, ExpandButtonArg};
use hookmap::event::{CursorEvent, Event, EventBlock, WheelEvent};
use hookmap::hotkey::{Hotkey, RegisterHotkey};

fn key(k: Key) -> Button {
    Button::Key(k)
}

/// Left and right Shift, as registration targets.
fn shift() -> ButtonArg {
    ButtonArg::new(vec![ButtonArgElement::direct(key(Key::LShift)), ButtonArgElement::direct(key(Key::RShift))])
}

fn arg(parts: Vec<Vec<ButtonArgElement>>) -> ButtonArg {
    ButtonArg::from_expansions(parts)
}

fn check_button_args() {
    let (a, b, c, d) = (key(Key::A), key(Key::B), key(Key::C), key(Key::D));
    assert_eq!(arg(vec![a.expand()]), ButtonArg::new(vec![ButtonArgElement::direct(a)]));
    assert_eq!(arg(vec![a.expand_inverse()]), ButtonArg::new(vec![ButtonArgElement::inversion(a)]));
    assert_eq!(
        arg(vec![a.expand(), b.expand_inverse()]),
        ButtonArg::new(vec![ButtonArgElement::direct(a), ButtonArgElement::inversion(b)])
    );
    assert_eq!(
        arg(vec![a.expand(), b.expand_inverse()]),
        ButtonArg::new(vec![ButtonArgElement::direct(a), ButtonArgElement::inversion(b)])
    );
    let button_args = ButtonArg::new(vec![ButtonArgElement::direct(a), ButtonArgElement::inversion(b)]);
    assert_eq!(arg(vec![button_args.clone().expand()]), button_args);
    assert_eq!(
        arg(vec![button_args.clone().expand(), c.expand(), d.expand_inverse()]),
        ButtonArg::new(vec![
            ButtonArgElement::direct(a),
            ButtonArgElement::inversion(b),
            ButtonArgElement::direct(c),
            ButtonArgElement::inversion(d)
        ])
    );
    assert_eq!(
        arg(vec![c.expand(), d.expand_inverse(), button_args.clone().expand()]),
        ButtonArg::new(vec![
            ButtonArgElement::direct(c),
            ButtonArgElement::inversion(d),
            ButtonArgElement::direct(a),
            ButtonArgElement::inversion(b)
        ]),
    );
}

#[test]
fn button_arg_button_args() {
    check_button_args();
}

#[test]
fn macros_button_args() {
    check_button_args();
}

#[test]
fn remap() {
    let (a, b, c) = (key(Key::A), key(Key::B), key(Key::C));
    let mut hotkey = Hotkey::new();
    assert!(hotkey.remap(&ButtonArg::from_button(a), b).is_ok());
    assert!(hotkey.remap(&arg(vec![a.expand(), b.expand()]), c).is_ok());
    assert!(hotkey.remap(&shift(), b).is_ok());
    assert!(hotkey.remap(&arg(vec![ButtonArg::from_button(a).expand(), shift().expand()]), b).is_ok());
    assert!(hotkey.remap(&arg(vec![a.expand(), ButtonArg::from_button(b).expand(), shift().expand()]), a).is_ok());
}

#[test]
fn on_press_command() {
    let (a, b) = (key(Key::A), key(Key::B));
    let mut hotkey = Hotkey::new();
    hotkey.on_press(&ButtonArg::from_button(a), 0);
    hotkey.on_press(&arg(vec![a.expand(), b.expand()]), 1);
    hotkey.on_press(&arg(vec![a.expand(), b.expand_inverse()]), 2);
    hotkey.on_press(&arg(vec![ButtonArg::from_button(a).expand()]), 3);
    hotkey.on_press(&arg(vec![ButtonArg::from_button(a).expand(), ButtonArg::from_button(b).expand()]), 4);
    hotkey.on_press(&shift(), 5);
    hotkey.on_press(&arg(vec![a.expand(), ButtonArg::from_button(b).expand(), shift().expand()]), 6);
}

#[test]
fn on_release_command() {
    let (a, b) = (key(Key::A), key(Key::B));
    let mut hotkey = Hotkey::new();
    hotkey.on_release(&ButtonArg::from_button(a), 0);
    hotkey.on_release(&arg(vec![a.expand(), b.expand()]), 1);
    hotkey.on_release(&arg(vec![a.expand(), b.expand_inverse()]), 2);
    hotkey.on_release(&arg(vec![ButtonArg::from_button(a).expand()]), 3);
    hotkey.on_release(&arg(vec![ButtonArg::from_button(a).expand(), ButtonArg::from_button(b).expand()]), 4);
    hotkey.on_release(&shift(), 5);
    hotkey.on_release(&arg(vec![a.expand(), ButtonArg::from_button(b).expand(), shift().expand()]), 6);
}

#[test]
fn disable_command() {
    let (a, b) = (key(Key::A), key(Key::B));
    let mut hotkey = Hotkey::new();
    hotkey.disable(&ButtonArg::from_button(a));
    hotkey.disable(&arg(vec![a.expand(), b.expand()]));
    hotkey.disable(&arg(vec![ButtonArg::from_button(a).expand()]));
    hotkey.disable(&arg(vec![ButtonArg::from_button(a).expand(), ButtonArg::from_button(b).expand()]));
    hotkey.disable(&shift());
    hotkey.disable(&arg(vec![a.expand(), ButtonArg::from_button(b).expand(), shift().expand()]));
}

#[test]
fn mouse_cursor_command() {
    let mut hotkey = Hotkey::new();
    hotkey.mouse_cursor(0);
    let mut engine = hotkey.install();
    let r = engine.on_event(Event::Cursor(CursorEvent { dx: 3, dy: -4, injected: false }));
    assert_eq!(r.callbacks, vec![0]);
    assert_eq!(r.verdict, EventBlock::Dispatch);
}

#[test]
fn mouse_wheel_command() {
    let mut hotkey = Hotkey::new();
    hotkey.mouse_wheel(0);
    let mut engine = hotkey.install();
    let r = engine.on_event(Event::Wheel(WheelEvent { delta: 120, injected: false }));
    assert_eq!(r.callbacks, vec![0]);
    assert_eq!(r.verdict, EventBlock::Dispatch);
}

#[test]
fn block_command() {
    let (a, b) = (key(Key::A), key(Key::B));
    let mut hotkey = Hotkey::new();
    let _empty = hotkey.block_input_event();
    let blocking = hotkey.block_input_event();
    let dispatching = blocking.dispatch_input_event();
    assert!(dispatching.remap(&mut hotkey, &ButtonArg::from_button(a), b).is_ok());
}

#[test]
fn dispatch_command() {
    let (a, b) = (key(Key::A), key(Key::B));
    let mut hotkey = Hotkey::new();
    let _empty = hotkey.dispatch_input_event();
    let dispatching = hotkey.dispatch_input_event();
    let blocking = dispatching.block_input_event();
    assert!(blocking.remap(&mut hotkey, &ButtonArg::from_button(a), b).is_ok());
}
