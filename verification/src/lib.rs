//! An ergonomic input API for a handheld device with a directional pad,
//! two action buttons, and a rotary crank.
//!
//! The library classifies one input frame's raw button masks into a
//! [`ButtonsState`]: the buttons currently held, those that just became
//! pressed, and those that just became released, each stored as a
//! [`ButtonSet`]. A `ButtonSet` is a bitmask-backed unordered collection of
//! [`Button`] values supporting insertion, union, intersection, membership
//! tests, and projection of its directional members onto a 2D vector.
//!
//! Hardware polling itself is out of scope: an adapter obtains the three raw
//! masks once per frame and hands them to [`ButtonSet::from_raw`].

mod button;
mod button_set;
mod laws;
mod state;

pub use button::lemma_mask_injective;
pub use button::lemma_mask_values;
pub use button::Button;
pub use button_set::dpad_x;
pub use button_set::dpad_y;
pub use button_set::lemma_from_mask_spec_mask;
pub use button_set::lemma_mask_determines_set;
pub use button_set::lemma_seq_mask_membership;
pub use button_set::lemma_view_bit;
pub use button_set::seq_mask;
pub use button_set::ButtonSet;
pub use laws::lemma_contains_any_characterization;
pub use laws::lemma_empty_contains_no_button;
pub use laws::lemma_from_buttons_order_insensitive;
pub use laws::lemma_insert_membership;
pub use laws::lemma_intersection_associative;
pub use laws::lemma_intersection_commutative;
pub use laws::lemma_members_determine_set;
pub use laws::lemma_union_associative;
pub use laws::lemma_union_commutative;
pub use laws::lemma_union_empty_identity;
pub use state::ButtonsState;
pub use state::InputSystem;
