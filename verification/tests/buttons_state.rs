use crankit_input::Button;
use crankit_input::ButtonSet;
use crankit_input::ButtonsState;

const ALL: [Button; 6] = [
    Button::Left,
    Button::Right,
    Button::Up,
    Button::Down,
    Button::A,
    Button::B,
];

fn sample_state() -> ButtonsState {
    let current = ButtonSet::from_iter(&[Button::A, Button::Right]);
    let pushed = ButtonSet::from_iter(&[Button::Right]);
    let released = ButtonSet::from_iter(&[Button::Up]);
    ButtonsState::new(current, pushed, released)
}

#[test]
fn new_stores_the_three_sets() {
    let state = sample_state();
    assert_eq!(state.current, ButtonSet::from_iter(&[Button::A, Button::Right]));
    assert_eq!(state.pushed, ButtonSet::from_iter(&[Button::Right]));
    assert_eq!(state.released, ButtonSet::from_iter(&[Button::Up]));
}

#[test]
fn queries_delegate_to_the_matching_set() {
    let state = sample_state();
    for b in ALL {
        assert_eq!(state.is_pressed(b), state.current.contains(b));
        assert_eq!(state.is_just_pressed(b), state.pushed.contains(b));
        assert_eq!(state.is_just_released(b), state.released.contains(b));
    }
    assert!(state.is_pressed(Button::A));
    assert!(state.is_pressed(Button::Right));
    assert!(!state.is_pressed(Button::Up));
    assert!(state.is_just_pressed(Button::Right));
    assert!(!state.is_just_pressed(Button::A));
    assert!(state.is_just_released(Button::Up));
    assert!(!state.is_just_released(Button::Right));
}

#[test]
fn any_queries_delegate_to_contains_any() {
    let state = sample_state();
    let actions = ButtonSet::from_iter(&[Button::A, Button::B]);
    let directions = ButtonSet::d_pad_buttons();
    assert_eq!(state.is_any_pressed(actions), state.current.contains_any(actions));
    assert!(state.is_any_pressed(actions));
    assert!(state.is_any_pressed(directions));
    assert!(!state.is_any_just_pressed(actions));
    assert!(state.is_any_just_pressed(directions));
    assert!(!state.is_any_just_released(actions));
    assert!(state.is_any_just_released(directions));
    assert!(!state.is_any_pressed(ButtonSet::new()));
}

#[test]
fn d_pad_queries_project_the_matching_set() {
    let state = sample_state();
    assert_eq!(state.d_pad::<i8>(), [1, 0]);
    assert_eq!(state.d_pad_just_pressed::<i8>(), [1, 0]);
    assert_eq!(state.d_pad_just_released::<i8>(), [0, -1]);
    assert_eq!(state.d_pad::<f32>(), [1.0, 0.0]);
    assert_eq!(state.d_pad::<i32>(), [1, 0]);
}

#[test]
fn pushed_and_released_may_overlap() {
    let blip = ButtonSet::from(Button::B);
    let state = ButtonsState::new(ButtonSet::new(), blip, blip);
    assert!(state.is_just_pressed(Button::B));
    assert!(state.is_just_released(Button::B));
    assert!(!state.is_pressed(Button::B));
}

#[test]
fn input_system_assembles_the_frame() {
    let state = crankit_input::InputSystem::buttons_state(1 | 16, 16, 0);
    assert_eq!(
        state,
        ButtonsState::new(
            ButtonSet::from_iter(&[Button::Left, Button::B]),
            ButtonSet::from(Button::B),
            ButtonSet::new(),
        )
    );
    assert!(state.is_pressed(Button::Left));
    assert!(state.is_just_pressed(Button::B));
    for b in ALL {
        assert!(!state.is_just_released(b));
    }
}

#[test]
fn state_from_raw_masks() {
    let state = ButtonsState::new(
        ButtonSet::from_raw(2 | 32),
        ButtonSet::from_raw(32),
        ButtonSet::from_raw(4),
    );
    assert!(state.is_pressed(Button::Right));
    assert!(state.is_pressed(Button::A));
    assert!(state.is_just_pressed(Button::A));
    assert!(!state.is_just_pressed(Button::Right));
    assert!(state.is_just_released(Button::Up));
    assert_eq!(state.d_pad::<i8>(), [1, 0]);
}
