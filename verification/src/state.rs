use crate::button::Button;
use crate::button_set::dpad_x;
use crate::button_set::dpad_y;
use crate::button_set::ButtonSet;
use vstd::prelude::*;
use vstd::std_specs::convert::FromSpec;

verus! {

/// One frame's classification of the buttons: an immutable snapshot of the
/// buttons currently held, those that just became pressed, and those that
/// just became released.
///
/// The three sets are stored exactly as the hardware supplied them; in
/// particular `pushed` and `released` may overlap when the hardware reports a
/// press and a release within one polling window.
#[non_exhaustive]
#[derive(Debug, Clone, Copy, PartialEq, Eq, Structural)]
pub struct ButtonsState {
    /// Buttons currently being pressed.
    pub current: ButtonSet,
    /// Buttons that have just started to be pressed: not pressed last frame,
    /// pressed now.
    pub pushed: ButtonSet,
    /// Buttons that have just been released: pressed last frame, no longer
    /// pressed.
    pub released: ButtonSet,
}

impl ButtonsState {
    /// Assembles the snapshot of one frame from its three sets.
    pub fn new(current: ButtonSet, pushed: ButtonSet, released: ButtonSet) -> (r: ButtonsState)
        ensures
            r.current == current,
            r.pushed == pushed,
            r.released == released,
    {
        ButtonsState { current, pushed, released }
    }

    /// Returns true if the given button is currently pressed.
    pub fn is_pressed(self, button: Button) -> (r: bool)
        ensures
            r == self.current@.contains(button),
    {
        self.current.contains(button)
    }

    /// Returns true if the given button has just started to be pressed,
    /// meaning it was not pressed last frame and is now currently pressed.
    pub fn is_just_pressed(self, button: Button) -> (r: bool)
        ensures
            r == self.pushed@.contains(button),
    {
        self.pushed.contains(button)
    }

    /// Returns true if the given button has just been released, meaning it
    /// was pressed last frame and is no longer pressed.
    pub fn is_just_released(self, button: Button) -> (r: bool)
        ensures
            r == self.released@.contains(button),
    {
        self.released.contains(button)
    }

    /// Returns true if any of the given buttons is currently pressed.
    pub fn is_any_pressed(&self, buttons: ButtonSet) -> (r: bool)
        ensures
            r == (self.current.mask_spec() & buttons.mask_spec() != 0),
            !r ==> self.current@.disjoint(buttons@),
            self.current.wf() && buttons.wf() ==> r == !self.current@.disjoint(buttons@),
    {
        self.current.contains_any(buttons)
    }

    /// Returns true if any of the given buttons was just pressed.
    pub fn is_any_just_pressed(&self, buttons: ButtonSet) -> (r: bool)
        ensures
            r == (self.pushed.mask_spec() & buttons.mask_spec() != 0),
            !r ==> self.pushed@.disjoint(buttons@),
            self.pushed.wf() && buttons.wf() ==> r == !self.pushed@.disjoint(buttons@),
    {
        self.pushed.contains_any(buttons)
    }

    /// Returns true if any of the given buttons was just released.
    pub fn is_any_just_released(&self, buttons: ButtonSet) -> (r: bool)
        ensures
            r == (self.released.mask_spec() & buttons.mask_spec() != 0),
            !r ==> self.released@.disjoint(buttons@),
            self.released.wf() && buttons.wf() ==> r == !self.released@.disjoint(buttons@),
    {
        self.released.contains_any(buttons)
    }

    /// Returns the currently pressed state of the d-pad as a 2D vector; see
    /// [`ButtonSet::d_pad`].
    pub fn d_pad<T: From<i8>>(self) -> (r: [T; 2])
        ensures
            <T as FromSpec<i8>>::obeys_from_spec() ==> r[0] == <T as FromSpec<i8>>::from_spec(
                dpad_x(self.current@) as i8,
            ) && r[1] == <T as FromSpec<i8>>::from_spec(dpad_y(self.current@) as i8),
    {
        self.current.d_pad()
    }

    /// Returns the d-pad buttons that have just started to be pressed as a
    /// 2D vector; see [`ButtonSet::d_pad`].
    pub fn d_pad_just_pressed<T: From<i8>>(self) -> (r: [T; 2])
        ensures
            <T as FromSpec<i8>>::obeys_from_spec() ==> r[0] == <T as FromSpec<i8>>::from_spec(
                dpad_x(self.pushed@) as i8,
            ) && r[1] == <T as FromSpec<i8>>::from_spec(dpad_y(self.pushed@) as i8),
    {
        self.pushed.d_pad()
    }

    /// Returns the d-pad buttons that have just been released as a 2D
    /// vector; see [`ButtonSet::d_pad`].
    pub fn d_pad_just_released<T: From<i8>>(self) -> (r: [T; 2])
        ensures
            <T as FromSpec<i8>>::obeys_from_spec() ==> r[0] == <T as FromSpec<i8>>::from_spec(
                dpad_x(self.released@) as i8,
            ) && r[1] == <T as FromSpec<i8>>::from_spec(dpad_y(self.released@) as i8),
    {
        self.released.d_pad()
    }
}

/// The pure core of the input-system entry point: it classifies the three
/// raw per-frame masks that the hardware adapter obtained into a
/// [`ButtonsState`]. Polling the hardware itself, and the crank readings,
/// stay with the adapter outside this library.
pub struct InputSystem;

impl InputSystem {
    /// Wraps each raw mask of one frame into a [`ButtonSet`] and assembles
    /// the frame's [`ButtonsState`]. The masks are taken exactly as supplied:
    /// whether `pushed` and `released` overlap is the hardware's affair.
    pub fn buttons_state(current: u32, pushed: u32, released: u32) -> (r: ButtonsState)
        ensures
            r.current.mask_spec() == (current & 0x3f) as u8,
            r.pushed.mask_spec() == (pushed & 0x3f) as u8,
            r.released.mask_spec() == (released & 0x3f) as u8,
            r.current.wf() && r.pushed.wf() && r.released.wf(),
            forall|b: Button| r.current@.contains(b) == (current & (b.mask_spec() as u32) != 0),
            forall|b: Button| r.pushed@.contains(b) == (pushed & (b.mask_spec() as u32) != 0),
            forall|b: Button| r.released@.contains(b) == (released & (b.mask_spec() as u32) != 0),
    {
        ButtonsState::new(
            ButtonSet::from_raw(current),
            ButtonSet::from_raw(pushed),
            ButtonSet::from_raw(released),
        )
    }
}

} // verus!
