use graphics::input::{
    add_input_cmd, handle_input, key_action, InputAction, InputEvent, InputsCommanded, Key,
    MOUSE_0_ID,
};
use graphics::ControlScheme;

#[test]
fn default_state_holds_nothing() {
    let inputs = InputsCommanded::default();
    assert!(!inputs.fwd && !inputs.back && !inputs.run && !inputs.free_look);
    assert!(!inputs.inputs_present(false));
    assert!(matches!(ControlScheme::default(), ControlScheme::NoControls));
}

#[test]
fn key_bindings() {
    assert_eq!(key_action(Key::W), Some(InputAction::Fwd));
    assert_eq!(key_action(Key::S), Some(InputAction::Back));
    assert_eq!(key_action(Key::A), Some(InputAction::Left));
    assert_eq!(key_action(Key::D), Some(InputAction::Right));
    assert_eq!(key_action(Key::Space), Some(InputAction::Up));
    assert_eq!(key_action(Key::C), Some(InputAction::Down));
    assert_eq!(key_action(Key::Q), Some(InputAction::RollCcw));
    assert_eq!(key_action(Key::E), Some(InputAction::RollCw));
    assert_eq!(key_action(Key::ShiftLeft), Some(InputAction::Run));
    assert_eq!(key_action(Key::Other), None);
}

#[test]
fn press_sets_and_release_clears() {
    let mut inputs = InputsCommanded::default();
    add_input_cmd(InputEvent::KeyPressed(Key::W), &mut inputs);
    assert!(inputs.fwd);
    assert!(inputs.is_held(InputAction::Fwd));
    assert!(!inputs.back);
    // A repeated press changes nothing.
    let before = inputs;
    add_input_cmd(InputEvent::KeyPressed(Key::W), &mut inputs);
    assert_eq!(inputs, before);
    // Flags persist until released.
    add_input_cmd(InputEvent::KeyPressed(Key::E), &mut inputs);
    assert!(inputs.fwd && inputs.roll_cw);
    add_input_cmd(InputEvent::KeyReleased(Key::W), &mut inputs);
    assert!(!inputs.fwd && inputs.roll_cw);
}

#[test]
fn unbound_key_is_ignored() {
    let mut inputs = InputsCommanded::default();
    add_input_cmd(InputEvent::KeyPressed(Key::Other), &mut inputs);
    assert_eq!(inputs, InputsCommanded::default());
}

#[test]
fn free_look_button() {
    let mut inputs = InputsCommanded::default();
    add_input_cmd(InputEvent::ButtonPressed(MOUSE_0_ID), &mut inputs);
    assert!(inputs.free_look);
    add_input_cmd(InputEvent::ButtonPressed(1), &mut inputs);
    add_input_cmd(InputEvent::ButtonReleased(1), &mut inputs);
    assert!(inputs.free_look);
    add_input_cmd(InputEvent::ButtonReleased(MOUSE_0_ID), &mut inputs);
    assert!(!inputs.free_look);
}

#[test]
fn set_held_changes_one_flag() {
    let mut inputs = InputsCommanded::default();
    inputs.set_held(InputAction::Down, true);
    let mut expected = InputsCommanded::default();
    expected.down = true;
    assert_eq!(inputs, expected);
}

#[test]
fn modifiers_are_not_inputs() {
    let mut inputs = InputsCommanded::default();
    inputs.run = true;
    inputs.free_look = true;
    assert!(!inputs.inputs_present(false));
    assert!(inputs.inputs_present(true));
    inputs.roll_ccw = true;
    assert!(inputs.inputs_present(false));
}

#[test]
fn events_reach_the_accumulator_only_under_free_camera() {
    let mut inputs = InputsCommanded::default();
    handle_input(ControlScheme::NoControls, InputEvent::KeyPressed(Key::A), &mut inputs);
    handle_input(ControlScheme::Fps, InputEvent::KeyPressed(Key::A), &mut inputs);
    assert!(!inputs.left);
    handle_input(ControlScheme::FreeCamera, InputEvent::KeyPressed(Key::A), &mut inputs);
    assert!(inputs.left);
}
