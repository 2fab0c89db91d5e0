use fidget_spinner::fx::{Fx, FX_SCALE};
use fidget_spinner::gl_state::gl_error_name;
use fidget_spinner::spinner::{update_rotation, FidgetType, InputEvent, LoopState, FULL_TURN};

#[test]
fn each_color_names_its_texture_path() {
    assert_eq!(FidgetType::Black.path(), "./textures/fidget-spinner-black.png");
    assert_eq!(FidgetType::Green.path(), "./textures/fidget-spinner-green.png");
    assert_eq!(FidgetType::Yellow.path(), "./textures/fidget-spinner-yellow.png");
}

#[test]
fn parse_accepts_the_three_colors_only() {
    assert_eq!(FidgetType::parse("black"), Some(FidgetType::Black));
    assert_eq!(FidgetType::parse("green"), Some(FidgetType::Green));
    assert_eq!(FidgetType::parse("yellow"), Some(FidgetType::Yellow));
    assert_eq!(FidgetType::parse("purple"), None);
    assert_eq!(FidgetType::parse(""), None);
    assert_eq!(FidgetType::parse("Green"), None);
    assert_eq!(FidgetType::parse("green "), None);
}

#[test]
fn green_argument_resolves_the_green_path() {
    let color = FidgetType::parse("green").unwrap();
    assert_eq!(color.path(), "./textures/fidget-spinner-green.png");
}

#[test]
fn rotation_stays_put_unless_spinning() {
    let rotate = Fx { raw: 90 * FX_SCALE };
    let delta = Fx { raw: 17 * FX_SCALE };
    assert_eq!(update_rotation(false, rotate, delta), rotate);
}

#[test]
fn rotation_advances_by_the_increment() {
    let rotate = Fx { raw: 90 * FX_SCALE };
    let delta = Fx { raw: 17 * FX_SCALE };
    assert_eq!(update_rotation(true, rotate, delta).raw, 107 * FX_SCALE);
}

#[test]
fn rotation_wraps_at_a_full_turn() {
    let rotate = Fx { raw: 350 * FX_SCALE };
    let delta = Fx { raw: 20 * FX_SCALE };
    assert_eq!(update_rotation(true, rotate, delta).raw, 10 * FX_SCALE);
    // Reaching 360 exactly wraps to 0.
    let rotate = Fx { raw: 340 * FX_SCALE };
    assert_eq!(update_rotation(true, rotate, delta).raw, 0);
    // One subtraction only, as the original policy has it.
    let rotate = Fx { raw: FULL_TURN - 1 };
    let delta = Fx { raw: FULL_TURN };
    assert_eq!(update_rotation(true, rotate, delta).raw, FULL_TURN - 1);
}

#[test]
fn a_press_toggles_spinning_once_until_released() {
    let state = LoopState::start();
    assert!(state.running && !state.spinning && !state.pressed);
    let state = state.handle_event(InputEvent::MousePressed);
    assert!(state.spinning && state.pressed);
    // Holding the button does not toggle again.
    let state = state.handle_event(InputEvent::MousePressed);
    assert!(state.spinning && state.pressed);
    let state = state.handle_event(InputEvent::MouseReleased);
    assert!(state.spinning && !state.pressed);
    // A fresh press toggles back off.
    let state = state.handle_event(InputEvent::MousePressed);
    assert!(!state.spinning && state.pressed);
    assert!(state.running);
}

#[test]
fn close_request_stops_the_loop() {
    let state = LoopState::start().handle_event(InputEvent::CloseRequested);
    assert!(!state.running);
    let state = state.handle_event(InputEvent::Other);
    assert!(!state.running);
}

#[test]
fn error_codes_name_themselves() {
    assert_eq!(gl_error_name(0x0500), Some("INVALID_ENUM"));
    assert_eq!(gl_error_name(0x0501), Some("INVALID_VALUE"));
    assert_eq!(gl_error_name(0x0502), Some("INVALID_OPERATION"));
    assert_eq!(gl_error_name(0x0503), Some("STACK_OVERFLOW"));
    assert_eq!(gl_error_name(0x0505), Some("OUT_OF_MEMORY"));
    assert_eq!(gl_error_name(0x0506), Some("INVALID_FRAMEBUFFER_OPERATION"));
    assert_eq!(gl_error_name(0), None);
    assert_eq!(gl_error_name(42), None);
}
