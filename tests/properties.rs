use hookmap::button::{Button, ButtonAction, Key, MouseInput};
use hookmap::button_arg::ButtonArg;
use hookmap::button_set::ButtonSet;
use hookmap::event::{ButtonEvent, CursorEvent, Event, EventBlock, WheelEvent};
use hookmap::hotkey::Hotkey;
use hookmap::modifier::{ModifierPredicate, ModifierTracker};

fn key(k: Key) -> Button {
    Button::Key(k)
}

#[test]
fn tracker_holds_buttons_whose_last_event_is_press() {
    let mut engine = Hotkey::new().install();
    let events = [
        (key(Key::A), ButtonAction::Press),
        (key(Key::B), ButtonAction::Press),
        (key(Key::A), ButtonAction::Release),
        (Button::Mouse(MouseInput::LButton), ButtonAction::Press),
        (key(Key::C), ButtonAction::Release),
        (key(Key::A), ButtonAction::Press),
        (key(Key::B), ButtonAction::Release),
    ];
    for (b, a) in events {
        engine.on_event(Event::Button(ButtonEvent::new(b, a)));
    }
    assert!(engine.is_pressed(key(Key::A)));
    assert!(!engine.is_pressed(key(Key::B)));
    assert!(!engine.is_pressed(key(Key::C)));
    assert!(engine.is_pressed(Button::Mouse(MouseInput::LButton)));
}

#[test]
fn injected_event_changes_nothing() {
    let mut hotkey = Hotkey::new();
    hotkey.disable(&ButtonArg::from_button(key(Key::A)));
    let mut engine = hotkey.install();
    let r = engine.on_event(Event::Button(ButtonEvent { target: key(Key::A), action: ButtonAction::Press, injected: true }));
    assert_eq!(r.verdict, EventBlock::Dispatch);
    assert!(!engine.is_pressed(key(Key::A)));
    let r = engine.on_event(Event::Wheel(WheelEvent { delta: 1, injected: true }));
    assert_eq!(r.verdict, EventBlock::Dispatch);
}

#[test]
fn verdict_depends_on_state_only() {
    let build = || {
        let mut hotkey = Hotkey::new();
        let shifted = hookmap::hotkey::RegisterHotkey::add_modifiers(&hotkey, &ButtonArg::from_button(key(Key::LShift)));
        let blocking = hookmap::hotkey::RegisterHotkey::block_input_event(&shifted);
        blocking.on_press(&mut hotkey, &ButtonArg::from_button(key(Key::A)), 0);
        hotkey.install()
    };
    let sequence = [
        (key(Key::A), ButtonAction::Press),
        (key(Key::LShift), ButtonAction::Press),
        (key(Key::A), ButtonAction::Press),
        (key(Key::LShift), ButtonAction::Release),
        (key(Key::A), ButtonAction::Press),
    ];
    let mut running = build();
    let verdicts: Vec<EventBlock> = sequence
        .iter()
        .map(|&(b, a)| running.on_event(Event::Button(ButtonEvent::new(b, a))).verdict)
        .collect();
    for i in 0..sequence.len() {
        let mut fresh = build();
        for &(b, a) in &sequence[..i] {
            fresh.on_event(Event::Button(ButtonEvent::new(b, a)));
        }
        let (b, a) = sequence[i];
        assert_eq!(fresh.on_event(Event::Button(ButtonEvent::new(b, a))).verdict, verdicts[i]);
    }
    assert_eq!(
        verdicts,
        vec![EventBlock::Dispatch, EventBlock::Dispatch, EventBlock::Block, EventBlock::Dispatch, EventBlock::Dispatch]
    );
}

#[test]
fn repeated_press_keeps_tracker() {
    let mut tracker = ModifierTracker::new();
    tracker.set(key(Key::A), ButtonAction::Press);
    tracker.set(key(Key::A), ButtonAction::Press);
    assert!(tracker.is_pressed(key(Key::A)));
    tracker.set(key(Key::A), ButtonAction::Release);
    assert!(!tracker.is_pressed(key(Key::A)));
}

#[test]
fn empty_predicate_always_holds() {
    let p = ModifierPredicate::empty();
    let mut tracker = ModifierTracker::new();
    assert!(p.is_satisfied(&tracker));
    tracker.set(key(Key::LCtrl), ButtonAction::Press);
    tracker.set(Button::Mouse(MouseInput::RButton), ButtonAction::Press);
    assert!(p.is_satisfied(&tracker));
}

#[test]
fn mouse_events_keep_tracker() {
    let mut hotkey = Hotkey::new();
    hotkey.mouse_wheel(0);
    hotkey.mouse_cursor(1);
    let mut engine = hotkey.install();
    engine.on_event(Event::Button(ButtonEvent::new(key(Key::A), ButtonAction::Press)));
    engine.on_event(Event::Wheel(WheelEvent { delta: -120, injected: false }));
    engine.on_event(Event::Cursor(CursorEvent { dx: 1, dy: 1, injected: false }));
    assert!(engine.is_pressed(key(Key::A)));
    assert!(!engine.is_pressed(Button::Mouse(MouseInput::Wheel)));
    assert!(!engine.is_pressed(Button::Mouse(MouseInput::Move)));
}

#[test]
fn button_set_operations() {
    let a = ButtonSet::from_slice(&[key(Key::A), key(Key::B)]);
    let b = ButtonSet::from_slice(&[key(Key::B)]);
    let c = ButtonSet::from_slice(&[Button::Mouse(MouseInput::Move)]);
    assert!(b.is_subset_of(&a));
    assert!(!a.is_subset_of(&b));
    assert!(a.is_disjoint_from(&c));
    assert!(!a.is_disjoint_from(&b));
    let u = a.union(&c);
    assert!(u.contains(Button::Mouse(MouseInput::Move)));
    assert!(u.contains(key(Key::A)));
    assert!(!u.contains(key(Key::C)));
}

#[test]
fn button_positions_are_distinct() {
    assert_eq!(key(Key::Backspace).index(), 0);
    assert_eq!(key(Key::HannkakuZenkaku).index(), 119);
    assert_eq!(Button::Mouse(MouseInput::LButton).index(), 120);
    assert_eq!(Button::Mouse(MouseInput::Move).index(), 126);
}
