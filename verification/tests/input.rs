use heat_city::engine::Action;
use heat_city::input::{InputEvent, InputMap, InputState, Key, MouseButton};

#[test]
fn key_press_becomes_action_for_one_frame() {
    let map = InputMap::default();
    let mut input = InputState::new();
    input.handle_event(&InputEvent::KeyPressed(Key::W));
    assert!(input.key_down(Key::W));
    assert!(input.key_pressed(Key::W));
    // Actions are only computed at the end of the frame.
    assert!(!input.action_down(Action::MoveUp));
    input.end_frame(&map);
    assert!(input.action_down(Action::MoveUp));
    assert!(input.action_pressed(Action::MoveUp));
    input.clear_edges();
    assert!(input.key_down(Key::W));
    assert!(!input.key_pressed(Key::W));
    assert!(!input.action_pressed(Action::MoveUp));
    assert!(input.action_down(Action::MoveUp));
}

#[test]
fn key_repeat_is_not_a_new_press() {
    let mut input = InputState::new();
    input.handle_event(&InputEvent::KeyPressed(Key::Space));
    input.clear_edges();
    input.handle_event(&InputEvent::KeyPressed(Key::Space));
    assert!(input.key_down(Key::Space));
    assert!(!input.key_pressed(Key::Space));
}

#[test]
fn release_lifts_key_and_its_action() {
    let map = InputMap::default();
    let mut input = InputState::default();
    input.handle_event(&InputEvent::KeyPressed(Key::ArrowLeft));
    input.end_frame(&map);
    assert!(input.action_down(Action::MoveLeft));
    input.clear_edges();
    input.handle_event(&InputEvent::KeyReleased(Key::ArrowLeft));
    input.end_frame(&map);
    assert!(!input.key_down(Key::ArrowLeft));
    assert!(!input.action_down(Action::MoveLeft));
}

#[test]
fn movement_axes_from_held_keys() {
    let map = InputMap::default();
    let mut input = InputState::new();
    input.end_frame(&map);
    assert_eq!(input.movement_axes(), (0, 0));
    input.handle_event(&InputEvent::KeyPressed(Key::D));
    input.handle_event(&InputEvent::KeyPressed(Key::W));
    input.end_frame(&map);
    assert_eq!(input.movement_axes(), (1, -1));
    input.handle_event(&InputEvent::KeyPressed(Key::A));
    input.end_frame(&map);
    // Left and right cancel out.
    assert_eq!(input.movement_axes(), (0, -1));
}

#[test]
fn unbound_keys_drive_no_action() {
    let map = InputMap::default();
    let mut input = InputState::new();
    input.handle_event(&InputEvent::KeyPressed(Key::Other(77)));
    input.end_frame(&map);
    assert!(input.key_down(Key::Other(77)));
    for action in [
        Action::MoveUp,
        Action::MoveDown,
        Action::MoveLeft,
        Action::MoveRight,
        Action::Sprint,
        Action::Interact,
        Action::Attack,
        Action::ToggleDebug,
        Action::Escape,
    ] {
        assert!(!input.action_down(action));
    }
    assert_eq!(map.bindings.len(), 13);
}

#[test]
fn mouse_buttons_are_held_until_released() {
    let mut input = InputState::new();
    input.handle_event(&InputEvent::ButtonPressed(MouseButton::Left));
    input.handle_event(&InputEvent::ButtonPressed(MouseButton::Left));
    assert!(input.mouse_button_down(MouseButton::Left));
    assert!(!input.mouse_button_down(MouseButton::Right));
    input.clear_edges();
    assert!(input.mouse_button_down(MouseButton::Left));
    input.handle_event(&InputEvent::ButtonReleased(MouseButton::Left));
    assert!(!input.mouse_button_down(MouseButton::Left));
}
