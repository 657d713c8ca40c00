use mouse_input::button_state::ButtonState;
use mouse_input::geom::Vector;
use mouse_input::mouse::Mouse;

#[test]
fn button_presses() {
    let mut mouse = Mouse::new();
    for button in [0u32, 1, 2].iter() {
        for state in [true, false].iter() {
            mouse.process_button(*button, *state);
        }
    }
    mouse.clear_temporary_states();
    assert_eq!(mouse.left(), ButtonState::NotPressed);
    assert_eq!(mouse.right(), ButtonState::NotPressed);
    assert_eq!(mouse.middle(), ButtonState::NotPressed);
}

#[test]
fn edge_decays_after_one_retirement() {
    let mut mouse = Mouse::new();
    mouse.process_button(0, true);
    assert_eq!(mouse.left(), ButtonState::Pressed);
    mouse.clear_temporary_states();
    assert_eq!(mouse.left(), ButtonState::Held);
    mouse.process_button(0, false);
    assert_eq!(mouse.left(), ButtonState::Released);
    mouse.clear_temporary_states();
    assert_eq!(mouse.left(), ButtonState::NotPressed);
}

#[test]
fn retirement_is_idempotent() {
    let mut mouse = Mouse::new();
    mouse.process_button(0, true);
    mouse.process_button(1, false);
    mouse.process_button(2, true);
    mouse.set_pos(Vector::new(11, -7));
    mouse.clear_temporary_states();
    let once = (mouse.pos(), mouse.left(), mouse.right(), mouse.middle());
    mouse.clear_temporary_states();
    let twice = (mouse.pos(), mouse.left(), mouse.right(), mouse.middle());
    assert_eq!(once, twice);
    assert_eq!(once, (Vector::new(11, -7), ButtonState::Held, ButtonState::NotPressed, ButtonState::Held));
}

#[test]
fn later_event_overwrites_earlier_one() {
    let mut mouse = Mouse::new();
    mouse.process_button(1, true);
    mouse.process_button(1, false);
    assert_eq!(mouse.right(), ButtonState::Released);
    mouse.process_button(2, false);
    mouse.process_button(2, true);
    assert_eq!(mouse.middle(), ButtonState::Pressed);
}

#[test]
fn unknown_identifier_is_ignored() {
    let mut mouse = Mouse::new();
    mouse.process_button(0, true);
    mouse.set_pos(Vector::new(5, 6));
    mouse.process_button(3, true);
    mouse.process_button(17, false);
    assert_eq!(mouse.left(), ButtonState::Pressed);
    assert_eq!(mouse.right(), ButtonState::NotPressed);
    assert_eq!(mouse.middle(), ButtonState::NotPressed);
    assert_eq!(mouse.pos(), Vector::new(5, 6));
}

#[test]
fn position_last_write_wins() {
    let mut mouse = Mouse::new();
    assert_eq!(mouse.pos(), Vector::zero());
    mouse.set_pos(Vector::new(100, 200));
    mouse.set_pos(Vector::new(-3, 4));
    assert_eq!(mouse.pos(), Vector::new(-3, 4));
    assert_eq!(mouse.left(), ButtonState::NotPressed);
}

#[test]
fn press_and_release_across_one_frame() {
    let mut mouse = Mouse::new();
    assert_eq!(mouse.left(), ButtonState::NotPressed);
    assert_eq!(mouse.right(), ButtonState::NotPressed);
    assert_eq!(mouse.middle(), ButtonState::NotPressed);
    assert_eq!(mouse.pos(), Vector::zero());
    mouse.process_button(0, true);
    mouse.process_button(1, false);
    assert_eq!(mouse.left(), ButtonState::Pressed);
    assert_eq!(mouse.right(), ButtonState::Released);
    assert_eq!(mouse.middle(), ButtonState::NotPressed);
    mouse.clear_temporary_states();
    assert_eq!(mouse.left(), ButtonState::Held);
    assert_eq!(mouse.right(), ButtonState::NotPressed);
    assert_eq!(mouse.middle(), ButtonState::NotPressed);
}

#[test]
fn clear_temporary_keeps_level_states() {
    assert_eq!(ButtonState::Pressed.clear_temporary(), ButtonState::Held);
    assert_eq!(ButtonState::Released.clear_temporary(), ButtonState::NotPressed);
    assert_eq!(ButtonState::Held.clear_temporary(), ButtonState::Held);
    assert_eq!(ButtonState::NotPressed.clear_temporary(), ButtonState::NotPressed);
}

#[test]
fn vector_holds_its_components() {
    let v = Vector::new(-12, 34);
    assert_eq!(v.x, -12);
    assert_eq!(v.y, 34);
    let z = Vector::zero();
    assert_eq!(z.x, 0);
    assert_eq!(z.y, 0);
}
