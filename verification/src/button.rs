use vstd::prelude::*;

verus! {

/// A button on the device: four directional buttons and two action buttons.
///
/// Each button owns one fixed bit position in the raw hardware mask; the
/// mapping is given by [`Button::mask_spec`] and is an external contract
/// shared with the hardware, not free to change.
#[derive(Debug, Clone, Copy, PartialEq, Eq, Structural)]
pub enum Button {
    Left,
    Right,
    Up,
    Down,
    A,
    B,
}

impl Button {
    /// The single bit that stands for this button in a raw hardware mask.
    pub open spec fn mask_spec(self) -> u8 {
        match self {
            Button::Left => 1,
            Button::Right => 2,
            Button::Up => 4,
            Button::Down => 8,
            Button::B => 16,
            Button::A => 32,
        }
    }

    /// Returns the bit of this button as a one-bit mask.
    pub fn mask(self) -> (r: u8)
        ensures
            r == self.mask_spec(),
    {
        match self {
            Button::Left => 1,
            Button::Right => 2,
            Button::Up => 4,
            Button::Down => 8,
            Button::B => 16,
            Button::A => 32,
        }
    }
}

/// Every button's mask is one of the six low-order single-bit values.
pub proof fn lemma_mask_values(b: Button)
    ensures
        b.mask_spec() == 1 || b.mask_spec() == 2 || b.mask_spec() == 4 || b.mask_spec() == 8
            || b.mask_spec() == 16 || b.mask_spec() == 32,
{
}

/// Distinct buttons have distinct masks, so the button-to-bit mapping is a
/// bijection between the six buttons and six of the low-order bits.
pub proof fn lemma_mask_injective(b1: Button, b2: Button)
    ensures
        (b1.mask_spec() == b2.mask_spec()) <==> (b1 == b2),
{
}

} // verus!
