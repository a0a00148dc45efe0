use crankit_input::Button;
use crankit_input::ButtonSet;

#[test]
fn new_set_contains_no_button() {
    let s = ButtonSet::new();
    for b in [
        Button::Left,
        Button::Right,
        Button::Up,
        Button::Down,
        Button::A,
        Button::B,
    ] {
        assert!(!s.contains(b));
    }
}

#[test]
fn default_is_empty() {
    assert_eq!(ButtonSet::default(), ButtonSet::new());
}

#[test]
fn insert_makes_only_that_button_contained() {
    for b in [
        Button::Left,
        Button::Right,
        Button::Up,
        Button::Down,
        Button::A,
        Button::B,
    ] {
        let mut s = ButtonSet::new();
        s.insert(b);
        assert!(s.contains(b));
        for other in [
            Button::Left,
            Button::Right,
            Button::Up,
            Button::Down,
            Button::A,
            Button::B,
        ] {
            assert_eq!(s.contains(other), other == b);
        }
    }
}

#[test]
fn insert_is_idempotent() {
    let mut once = ButtonSet::new();
    once.insert(Button::A);
    let mut twice = ButtonSet::new();
    twice.insert(Button::A);
    twice.insert(Button::A);
    assert_eq!(once, twice);
}

#[test]
fn contains_on_pairs() {
    let a = ButtonSet::from(Button::A);
    let b = ButtonSet::from(Button::B);
    let ab = a | b;
    assert!(a.contains(Button::A));
    assert!(!a.contains(Button::B));
    assert!(!b.contains(Button::A));
    assert!(b.contains(Button::B));
    assert!(ab.contains(Button::A));
    assert!(ab.contains(Button::B));
    assert!(!ab.contains(Button::Up));
    assert!((ab | Button::Up).contains(Button::Up));
}

#[test]
fn contains_agrees_with_contains_any_of_a_singleton() {
    let sets = [
        ButtonSet::new(),
        ButtonSet::from(Button::A),
        ButtonSet::from_iter(&[Button::A, Button::B]),
        ButtonSet::from_iter(&[Button::A, Button::B, Button::Up]),
        ButtonSet::d_pad_buttons(),
    ];
    for s in sets {
        for b in [
            Button::Left,
            Button::Right,
            Button::Up,
            Button::Down,
            Button::A,
            Button::B,
        ] {
            assert_eq!(s.contains(b), s.contains_any(b.into()));
        }
    }
}

#[test]
fn contains_any_table() {
    let empty = ButtonSet::new();
    let a = ButtonSet::from_iter(&[Button::A]);
    let ab = ButtonSet::from_iter(&[Button::A, Button::B]);
    assert!(!empty.contains_any(a));
    assert!(!empty.contains_any(ab));
    assert!(!empty.contains_any(empty));
    assert!(!a.contains_any(empty));
    assert!(a.contains_any(a));
    assert!(ab.contains_any(a));
    assert!(ab.contains_any(ab));
    assert!(a.contains_any(ab));
}

#[test]
fn contains_any_is_false_on_disjoint_sets() {
    let directions = ButtonSet::from_iter(&[Button::Left, Button::Right, Button::Up, Button::Down]);
    let actions = ButtonSet::from_iter(&[Button::A, Button::B]);
    assert!(!directions.contains_any(actions));
    assert!(!actions.contains_any(directions));
    assert!(directions.contains_any(ButtonSet::d_pad_buttons()));
}

#[test]
fn union_and_intersection_operators() {
    let a = ButtonSet::from(Button::A);
    let left = ButtonSet::from(Button::Left);
    let both = a | left;
    assert!(both.contains(Button::A) && both.contains(Button::Left));
    assert_eq!(both & a, a);
    assert_eq!(both & left, left);
    assert_eq!(a & left, ButtonSet::new());
    assert_eq!(both & Button::A, a);
    assert_eq!(a & Button::Left, ButtonSet::new());
}

#[test]
fn union_commutative_associative_empty_identity() {
    let e = ButtonSet::new();
    let a = ButtonSet::from_iter(&[Button::A, Button::Up]);
    let b = ButtonSet::from_iter(&[Button::B, Button::Up, Button::Left]);
    let c = ButtonSet::from_iter(&[Button::Down]);
    assert_eq!(a | b, b | a);
    assert_eq!((a | b) | c, a | (b | c));
    assert_eq!(a | e, a);
    assert_eq!(e | a, a);
    assert_eq!(a & b, b & a);
    assert_eq!((a & b) & c, a & (b & c));
}

#[test]
fn from_iter_is_order_independent_and_duplicate_insensitive() {
    let ab = ButtonSet::from_iter(&[Button::A, Button::B]);
    let ba = ButtonSet::from_iter(&[Button::B, Button::A]);
    let aab = ButtonSet::from_iter(&[Button::A, Button::A, Button::B]);
    assert_eq!(ab, ba);
    assert_eq!(ab, aab);
    assert_eq!(ButtonSet::from_iter(&[]), ButtonSet::new());
}

#[test]
fn extend_adds_all_buttons() {
    let mut s = ButtonSet::from(Button::A);
    s.extend(&[Button::Left, Button::Up]);
    assert!(s.contains(Button::A));
    assert!(s.contains(Button::Left));
    assert!(s.contains(Button::Up));
    assert!(!s.contains(Button::B));
    assert_eq!(
        s,
        ButtonSet::from_iter(&[Button::A, Button::Left, Button::Up])
    );
}

#[test]
fn from_raw_reads_the_hardware_bits() {
    assert_eq!(ButtonSet::from_raw(0), ButtonSet::new());
    let s = ButtonSet::from_raw(1 | 8 | 32);
    assert!(s.contains(Button::Left));
    assert!(s.contains(Button::Down));
    assert!(s.contains(Button::A));
    assert!(!s.contains(Button::Right));
    assert!(!s.contains(Button::Up));
    assert!(!s.contains(Button::B));
    assert_eq!(
        s,
        ButtonSet::from_iter(&[Button::Left, Button::Down, Button::A])
    );
}

#[test]
fn from_raw_drops_bits_that_are_no_buttons() {
    assert_eq!(ButtonSet::from_raw(0xffff_ffc0), ButtonSet::new());
    assert_eq!(ButtonSet::from_raw(0x40 | 2), ButtonSet::from(Button::Right));
}

#[test]
fn d_pad_buttons_are_the_four_directions() {
    let d = ButtonSet::d_pad_buttons();
    assert!(d.contains(Button::Left));
    assert!(d.contains(Button::Right));
    assert!(d.contains(Button::Up));
    assert!(d.contains(Button::Down));
    assert!(!d.contains(Button::A));
    assert!(!d.contains(Button::B));
}
