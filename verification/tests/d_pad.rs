use crankit_input::Button;
use crankit_input::ButtonSet;

fn set_of(buttons: &[Button]) -> ButtonSet {
    ButtonSet::from_iter(buttons)
}

#[test]
fn d_pad_vector() {
    let cases: [(&[Button], [i8; 2]); 8] = [
        (&[], [0, 0]),
        (&[Button::Up], [0, -1]),
        (&[Button::Down], [0, 1]),
        (&[Button::Left], [-1, 0]),
        (&[Button::Right], [1, 0]),
        (&[Button::Right, Button::Down, Button::Up], [1, 0]),
        (&[Button::Left, Button::Right, Button::Up], [0, -1]),
        (
            &[Button::Left, Button::Right, Button::Up, Button::Down],
            [0, 0],
        ),
    ];
    for (buttons, expected) in cases {
        let set = set_of(buttons);
        assert_eq!(set.d_pad_i8(), expected);
        assert_eq!(set.d_pad::<i8>(), expected);
        assert_eq!(
            set.d_pad::<i32>(),
            [i32::from(expected[0]), i32::from(expected[1])]
        );
        assert_eq!(
            set.d_pad::<f32>(),
            [f32::from(expected[0]), f32::from(expected[1])]
        );
        assert_eq!(
            set.d_pad::<f64>(),
            [f64::from(expected[0]), f64::from(expected[1])]
        );
    }
}

#[test]
fn d_pad_of_empty_set_is_zero_in_every_representation() {
    let empty = ButtonSet::new();
    assert_eq!(empty.d_pad_i8(), [0, 0]);
    assert_eq!(empty.d_pad::<i8>(), [0, 0]);
    assert_eq!(empty.d_pad::<i16>(), [0, 0]);
    assert_eq!(empty.d_pad::<i32>(), [0, 0]);
    assert_eq!(empty.d_pad::<i64>(), [0, 0]);
    assert_eq!(empty.d_pad::<f32>(), [0.0, 0.0]);
    assert_eq!(empty.d_pad::<f64>(), [0.0, 0.0]);
}

#[test]
fn d_pad_ignores_action_buttons() {
    let set = set_of(&[Button::A, Button::B, Button::Down]);
    assert_eq!(set.d_pad_i8(), [0, 1]);
}

#[test]
fn d_pad_opposite_directions_cancel() {
    assert_eq!(set_of(&[Button::Left, Button::Right]).d_pad_i8(), [0, 0]);
    assert_eq!(set_of(&[Button::Up, Button::Down]).d_pad_i8(), [0, 0]);
    assert_eq!(
        set_of(&[Button::Left, Button::Down, Button::Up]).d_pad_i8(),
        [-1, 0]
    );
}
