use hookmap::bridge::{
    capture_button, capture_mouse, emitted, is_injected, keyboard_action, keyboard_input, KeyboardAction,
    MouseAction, ORIGIN_TAG,
};
use hookmap::button::{Button, ButtonAction, Key, MouseInput};
use hookmap::event::{ButtonEvent, ButtonEventBlockMap, CursorEvent, Event, EventBlock, WheelEvent};

#[test]
fn origin_tag_is_detected() {
    assert!(is_injected(ORIGIN_TAG));
    assert!(is_injected(ORIGIN_TAG | 0x3));
    assert!(!is_injected(0));
    assert!(!is_injected(0x1));
}

#[test]
fn keyboard_flags_decode() {
    assert_eq!(keyboard_action(0), KeyboardAction::Press);
    assert_eq!(keyboard_action(0x80), KeyboardAction::Release);
    assert_eq!(keyboard_action(0x01), KeyboardAction::Press);
    let raw = keyboard_input(Key::A, 0x80, 0);
    assert_eq!(
        capture_button(raw),
        ButtonEvent { target: Button::Key(Key::A), action: ButtonAction::Release, injected: false }
    );
}

#[test]
fn emitted_input_comes_back_injected() {
    let e = capture_button(emitted(Button::Mouse(MouseInput::MButton), ButtonAction::Release));
    assert_eq!(e, ButtonEvent { target: Button::Mouse(MouseInput::MButton), action: ButtonAction::Release, injected: true });
}

#[test]
fn mouse_input_decode() {
    assert_eq!(
        capture_mouse(MouseInput::LButton, MouseAction::Press, 0),
        Event::Button(ButtonEvent::new(Button::Mouse(MouseInput::LButton), ButtonAction::Press))
    );
    assert_eq!(
        capture_mouse(MouseInput::Move, MouseAction::Move(2, -3), ORIGIN_TAG),
        Event::Cursor(CursorEvent { dx: 2, dy: -3, injected: true })
    );
    assert_eq!(
        capture_mouse(MouseInput::Wheel, MouseAction::Wheel(-120), 0),
        Event::Wheel(WheelEvent { delta: -120, injected: false })
    );
}

#[test]
fn block_map_remembers_verdicts() {
    let mut map = ButtonEventBlockMap::new();
    assert_eq!(map.get_or_default(Button::Key(Key::A)), EventBlock::Dispatch);
    assert_eq!(map.insert(Button::Key(Key::A), EventBlock::Block), None);
    assert_eq!(map.get_or_default(Button::Key(Key::A)), EventBlock::Block);
    assert_eq!(map.get_or_default(Button::Key(Key::B)), EventBlock::Dispatch);
    assert_eq!(map.insert(Button::Key(Key::A), EventBlock::Dispatch), Some(EventBlock::Block));
    assert_eq!(EventBlock::default(), EventBlock::Dispatch);
}
