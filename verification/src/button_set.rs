use crate::button::lemma_mask_injective;
use crate::button::lemma_mask_values;
use crate::button::Button;
use vstd::prelude::*;
use vstd::std_specs::convert::FromSpec;

verus! {

/// Horizontal component of the directional projection of a button set:
/// `Right` contributes `+1`, `Left` contributes `-1`, everything else `0`.
pub open spec fn dpad_x(s: Set<Button>) -> int {
    (if s.contains(Button::Right) {
        1int
    } else {
        0int
    }) - (if s.contains(Button::Left) {
        1int
    } else {
        0int
    })
}

/// Vertical component of the directional projection of a button set, with the
/// screen's `y` axis pointing down: `Down` contributes `+1`, `Up` `-1`.
pub open spec fn dpad_y(s: Set<Button>) -> int {
    (if s.contains(Button::Down) {
        1int
    } else {
        0int
    }) - (if s.contains(Button::Up) {
        1int
    } else {
        0int
    })
}

/// The bitmask obtained by folding the masks of a sequence of buttons
/// together, the way repeated insertion builds a [`ButtonSet`].
pub open spec fn seq_mask(s: Seq<Button>) -> u8
    decreases s.len(),
{
    if s.len() == 0 {
        0u8
    } else {
        seq_mask(s.drop_last()) | s.last().mask_spec()
    }
}

/// An unordered set of [`Button`] values, backed by a bitmask with one bit
/// per button.
///
/// The empty set is the all-zero mask, union and intersection are bitwise
/// `|` and `&` of the masks, and membership is "the button's bit is set".
/// Equal masks denote equal sets no matter how they were built.
#[derive(Debug, Clone, Copy, PartialEq, Eq, Structural)]
pub struct ButtonSet {
    mask: u8,
}

impl View for ButtonSet {
    type V = Set<Button>;

    /// A `ButtonSet` abstracts to the set of buttons whose bits are set.
    open spec fn view(&self) -> Set<Button> {
        Set::new(|b: Button| self.mask_spec() & b.mask_spec() != 0)
    }
}

impl ButtonSet {
    /// The backing bitmask of this set.
    pub closed spec fn mask_spec(self) -> u8 {
        self.mask
    }

    /// The `ButtonSet` whose backing bitmask is `m`.
    pub closed spec fn from_mask_spec(m: u8) -> ButtonSet {
        ButtonSet { mask: m }
    }

    /// A set is well formed when its mask holds button bits only. Every
    /// constructor of this library yields a well-formed set; a raw hardware
    /// mask has its other bits dropped on the way in.
    pub open spec fn wf(self) -> bool {
        self.mask_spec() & 0x3f == self.mask_spec()
    }

    /// The set holding exactly one button.
    pub open spec fn singleton_spec(b: Button) -> ButtonSet {
        ButtonSet::from_mask_spec(b.mask_spec())
    }

    /// The union of two sets: the bitwise `|` of their masks.
    pub open spec fn union_spec(self, other: ButtonSet) -> ButtonSet {
        ButtonSet::from_mask_spec(self.mask_spec() | other.mask_spec())
    }

    /// The intersection of two sets: the bitwise `&` of their masks.
    pub open spec fn intersection_spec(self, other: ButtonSet) -> ButtonSet {
        ButtonSet::from_mask_spec(self.mask_spec() & other.mask_spec())
    }
}

/// The mask of the set built from a mask is that mask.
pub broadcast proof fn lemma_from_mask_spec_mask(m: u8)
    ensures
        (#[trigger] ButtonSet::from_mask_spec(m)).mask_spec() == m,
{
}

/// A button is a member of a set's abstraction exactly when its bit is set
/// in the backing mask.
pub proof fn lemma_view_bit(s: ButtonSet, b: Button)
    ensures
        s@.contains(b) == (s.mask_spec() & b.mask_spec() != 0),
{
}

/// Two sets with the same backing mask are the same set.
pub proof fn lemma_mask_determines_set(a: ButtonSet, b: ButtonSet)
    requires
        a.mask_spec() == b.mask_spec(),
    ensures
        a == b,
{
}

/// Membership under a mask extended by one button's bit: the inserted button
/// is a member, and no other button's membership changes.
pub(crate) proof fn lemma_or_single_bit(m: u8, b: Button, x: Button)
    ensures
        ((m | b.mask_spec()) & x.mask_spec() != 0) == ((m & x.mask_spec() != 0) || x == b),
{
    let k = b.mask_spec();
    let j = x.mask_spec();
    lemma_mask_values(b);
    lemma_mask_values(x);
    lemma_mask_injective(b, x);
    assert(((m | k) & j != 0) == ((m & j != 0) || k == j)) by (bit_vector)
        requires
            (k == 1 || k == 2 || k == 4 || k == 8 || k == 16 || k == 32) && (j == 1 || j == 2 || j
                == 4 || j == 8 || j == 16 || j == 32),
    ;
}

/// A button is in the union of two masks exactly when it is in one of them.
proof fn lemma_union_membership(m1: u8, m2: u8, x: Button)
    ensures
        ((m1 | m2) & x.mask_spec() != 0) == ((m1 & x.mask_spec() != 0) || (m2 & x.mask_spec()
            != 0)),
{
    let j = x.mask_spec();
    lemma_mask_values(x);
    assert(((m1 | m2) & j != 0) == ((m1 & j != 0) || (m2 & j != 0))) by (bit_vector)
        requires
            j == 1 || j == 2 || j == 4 || j == 8 || j == 16 || j == 32,
    ;
}

/// A button is in the intersection of two masks exactly when it is in both.
proof fn lemma_intersection_membership(m1: u8, m2: u8, x: Button)
    ensures
        ((m1 & m2) & x.mask_spec() != 0) == ((m1 & x.mask_spec() != 0) && (m2 & x.mask_spec()
            != 0)),
{
    let j = x.mask_spec();
    lemma_mask_values(x);
    assert(((m1 & m2) & j != 0) == ((m1 & j != 0) && (m2 & j != 0))) by (bit_vector)
        requires
            j == 1 || j == 2 || j == 4 || j == 8 || j == 16 || j == 32,
    ;
}

impl ButtonSet {
    /// Returns the empty set: no button is a member.
    pub fn new() -> (r: ButtonSet)
        ensures
            r.mask_spec() == 0,
            r@ == Set::<Button>::empty(),
            r.wf(),
    {
        let r = ButtonSet { mask: 0 };
        proof {
            assert(0u8 & 0x3f == 0u8) by (bit_vector);
            assert forall|b: Button| !r@.contains(b) by {
                lemma_mask_values(b);
                let j = b.mask_spec();
                assert(0u8 & j == 0) by (bit_vector);
            }
            assert(r@ =~= Set::<Button>::empty());
        }
        r
    }

    /// Sets the given button's bit, adding it to the set. Inserting a button
    /// that is already present leaves the set unchanged.
    pub fn insert(&mut self, button: Button)
        ensures
            final(self).mask_spec() == old(self).mask_spec() | button.mask_spec(),
            final(self)@ == old(self)@.insert(button),
            old(self).wf() ==> final(self).wf(),
    {
        let ghost m = self.mask;
        self.mask = self.mask | button.mask();
        proof {
            let k = button.mask_spec();
            assert forall|x: Button| final(self)@.contains(x) == old(self)@.insert(
                button,
            ).contains(x) by {
                lemma_or_single_bit(m, button, x);
            }
            assert(final(self)@ =~= old(self)@.insert(button));
            lemma_mask_values(button);
            assert((m & 0x3f == m && (k == 1 || k == 2 || k == 4 || k == 8 || k == 16 || k == 32))
                ==> ((m | k) & 0x3f == (m | k))) by (bit_vector);
        }
    }

    /// Returns true exactly when the given button's bit is set.
    pub fn contains(self, button: Button) -> (r: bool)
        ensures
            r == (self.mask_spec() & button.mask_spec() != 0),
            r == self@.contains(button),
    {
        self.mask & button.mask() != 0
    }

    /// Returns true exactly when this set and `buttons` have a set bit in
    /// common: a test that the intersection is non-empty, weaker than a
    /// subset or equality test.
    pub fn contains_any(self, buttons: ButtonSet) -> (r: bool)
        ensures
            r == (self.mask_spec() & buttons.mask_spec() != 0),
            !r ==> self@.disjoint(buttons@),
            self.wf() && buttons.wf() ==> r == !self@.disjoint(buttons@),
    {
        proof {
            lemma_contains_any_disjoint(self, buttons);
        }
        self.mask & buttons.mask != 0
    }
}

impl ButtonSet {
    /// Returns the set of the four directional buttons.
    pub fn d_pad_buttons() -> (r: ButtonSet)
        ensures
            r.mask_spec() == 15,
            r.wf(),
            forall|b: Button|
                r@.contains(b) == (b == Button::Left || b == Button::Right || b == Button::Up || b
                    == Button::Down),
    {
        let r = ButtonSet { mask: 15 };
        proof {
            assert(15u8 & 0x3f == 15u8) by (bit_vector);
            assert forall|b: Button|
                r@.contains(b) == (b == Button::Left || b == Button::Right || b == Button::Up || b
                    == Button::Down) by {
                lemma_mask_values(b);
                let j = b.mask_spec();
                assert((15u8 & j != 0) == (j == 1 || j == 2 || j == 4 || j == 8)) by (bit_vector)
                    requires
                        j == 1 || j == 2 || j == 4 || j == 8 || j == 16 || j == 32,
                ;
                lemma_mask_injective(b, Button::Left);
                lemma_mask_injective(b, Button::Right);
                lemma_mask_injective(b, Button::Up);
                lemma_mask_injective(b, Button::Down);
            }
        }
        r
    }

    /// Reinterprets a raw hardware bitmask as a set: each of the six button
    /// bits carries over, and every other bit of the raw mask is dropped, so
    /// that stray hardware bits are never taken for buttons.
    pub fn from_raw(raw: u32) -> (r: ButtonSet)
        ensures
            r.mask_spec() == (raw & 0x3f) as u8,
            r.wf(),
            forall|b: Button| r@.contains(b) == (raw & (b.mask_spec() as u32) != 0),
    {
        let r = ButtonSet { mask: (raw & 0x3f) as u8 };
        proof {
            assert(((raw & 0x3f) as u8) & 0x3f == ((raw & 0x3f) as u8)) by (bit_vector);
            assert forall|b: Button| r@.contains(b) == (raw & (b.mask_spec() as u32) != 0) by {
                lemma_mask_values(b);
                let j = b.mask_spec();
                assert((((raw & 0x3f) as u8) & j != 0) == (raw & (j as u32) != 0)) by (bit_vector)
                    requires
                        j == 1 || j == 2 || j == 4 || j == 8 || j == 16 || j == 32,
                ;
            }
        }
        r
    }

    /// Folds every button of the slice into a fresh set. The result does not
    /// depend on the order of the slice, and repeated buttons are absorbed.
    pub fn from_iter(buttons: &[Button]) -> (r: ButtonSet)
        ensures
            r.mask_spec() == seq_mask(buttons@),
            r@ == buttons@.to_set(),
            r.wf(),
    {
        let mut r = ButtonSet::new();
        r.extend(buttons);
        proof {
            let m = seq_mask(buttons@);
            assert(0u8 | m == m) by (bit_vector);
            assert(r@ =~= buttons@.to_set());
        }
        r
    }

    /// Inserts every button of the slice into this set.
    pub fn extend(&mut self, buttons: &[Button])
        ensures
            final(self).mask_spec() == old(self).mask_spec() | seq_mask(buttons@),
            final(self)@ == old(self)@.union(buttons@.to_set()),
            old(self).wf() ==> final(self).wf(),
    {
        let ghost m0 = self.mask_spec();
        proof {
            assert(buttons@.take(0) =~= Seq::<Button>::empty());
            assert(m0 | 0u8 == m0) by (bit_vector);
        }
        let mut i: usize = 0;
        while i < buttons.len()
            invariant
                i <= buttons.len(),
                self.mask_spec() == m0 | seq_mask(buttons@.take(i as int)),
            decreases buttons.len() - i,
        {
            proof {
                lemma_seq_mask_step(buttons@, i as int);
                let b = seq_mask(buttons@.take(i as int));
                let c = buttons@[i as int].mask_spec();
                assert((m0 | b) | c == m0 | (b | c)) by (bit_vector);
            }
            self.insert(buttons[i]);
            i = i + 1;
        }
        proof {
            assert(buttons@.take(buttons@.len() as int) =~= buttons@);
            let m = seq_mask(buttons@);
            assert forall|x: Button|
                final(self)@.contains(x) == old(self)@.union(buttons@.to_set()).contains(x) by {
                lemma_union_membership(m0, m, x);
                lemma_seq_mask_membership(buttons@, x);
            }
            assert(final(self)@ =~= old(self)@.union(buttons@.to_set()));
            if old(self).wf() {
                lemma_seq_mask_wf(buttons@);
                assert((m0 & 0x3f == m0 && m & 0x3f == m) ==> (m0 | m) & 0x3f == (m0 | m)) by (
                bit_vector);
            }
        }
    }

    /// Returns the directional members of this set summed into a 2D vector,
    /// with `x` pointing right and `y` pointing down: `Left` adds `[-1, 0]`,
    /// `Right` `[1, 0]`, `Up` `[0, -1]`, `Down` `[0, 1]`. Opposite buttons
    /// held together cancel, and the action buttons contribute nothing.
    pub fn d_pad_i8(self) -> (r: [i8; 2])
        ensures
            r[0] as int == dpad_x(self@),
            r[1] as int == dpad_y(self@),
    {
        let mut x: i8 = 0;
        let mut y: i8 = 0;
        if self.contains(Button::Up) {
            y = y - 1;
        }
        if self.contains(Button::Down) {
            y = y + 1;
        }
        if self.contains(Button::Left) {
            x = x - 1;
        }
        if self.contains(Button::Right) {
            x = x + 1;
        }
        [x, y]
    }

    /// [`ButtonSet::d_pad_i8`] with each component converted into a
    /// caller-chosen numeric representation.
    pub fn d_pad<T: From<i8>>(self) -> (r: [T; 2])
        ensures
            <T as FromSpec<i8>>::obeys_from_spec() ==> r[0] == <T as FromSpec<i8>>::from_spec(
                dpad_x(self@) as i8,
            ) && r[1] == <T as FromSpec<i8>>::from_spec(dpad_y(self@) as i8),
    {
        let v = self.d_pad_i8();
        [T::from(v[0]), T::from(v[1])]
    }
}

/// A singleton set is well formed and holds exactly its button.
proof fn lemma_singleton_props(b: Button)
    ensures
        ButtonSet::singleton_spec(b).wf(),
        ButtonSet::singleton_spec(b)@ == Set::<Button>::empty().insert(b),
{
    lemma_mask_values(b);
    let k = b.mask_spec();
    assert(k & 0x3f == k) by (bit_vector)
        requires
            k == 1 || k == 2 || k == 4 || k == 8 || k == 16 || k == 32,
    ;
    assert forall|x: Button|
        ButtonSet::singleton_spec(b)@.contains(x) == Set::<Button>::empty().insert(b).contains(
            x,
        ) by {
        lemma_mask_values(x);
        lemma_mask_injective(b, x);
        let j = x.mask_spec();
        assert((k & j != 0) == (k == j)) by (bit_vector)
            requires
                (k == 1 || k == 2 || k == 4 || k == 8 || k == 16 || k == 32) && (j == 1 || j == 2
                    || j == 4 || j == 8 || j == 16 || j == 32),
        ;
    }
    assert(ButtonSet::singleton_spec(b)@ =~= Set::<Button>::empty().insert(b));
}

/// The union of two sets abstracts to the union of their views and keeps
/// well-formedness.
proof fn lemma_union_props(a: ButtonSet, b: ButtonSet, r: ButtonSet)
    requires
        r == a.union_spec(b),
    ensures
        r@ == a@.union(b@),
        a.wf() && b.wf() ==> r.wf(),
{
    let m1 = a.mask_spec();
    let m2 = b.mask_spec();
    assert forall|x: Button| r@.contains(x) == a@.union(b@).contains(x) by {
        lemma_union_membership(m1, m2, x);
    }
    assert(r@ =~= a@.union(b@));
    assert((m1 & 0x3f == m1 && m2 & 0x3f == m2) ==> (m1 | m2) & 0x3f == (m1 | m2)) by (bit_vector);
}

/// The intersection of two sets abstracts to the intersection of their views
/// and is well formed as soon as one operand is.
proof fn lemma_intersection_props(a: ButtonSet, b: ButtonSet, r: ButtonSet)
    requires
        r == a.intersection_spec(b),
    ensures
        r@ == a@.intersect(b@),
        a.wf() || b.wf() ==> r.wf(),
{
    let m1 = a.mask_spec();
    let m2 = b.mask_spec();
    assert forall|x: Button| r@.contains(x) == a@.intersect(b@).contains(x) by {
        lemma_intersection_membership(m1, m2, x);
    }
    assert(r@ =~= a@.intersect(b@));
    assert(m1 & 0x3f == m1 ==> (m1 & m2) & 0x3f == (m1 & m2)) by (bit_vector);
    assert(m2 & 0x3f == m2 ==> (m1 & m2) & 0x3f == (m1 & m2)) by (bit_vector);
}

impl core::ops::BitOr for ButtonSet {
    type Output = ButtonSet;

    /// The union of two sets, leaving both operands unchanged.
    fn bitor(self, rhs: ButtonSet) -> (r: ButtonSet)
        ensures
            r == self.union_spec(rhs),
            r.mask_spec() == self.mask_spec() | rhs.mask_spec(),
            r@ == self@.union(rhs@),
            self.wf() && rhs.wf() ==> r.wf(),
    {
        let r = ButtonSet { mask: self.mask | rhs.mask };
        proof {
            lemma_union_props(self, rhs, r);
        }
        r
    }
}

impl vstd::std_specs::ops::BitOrSpecImpl for ButtonSet {
    open spec fn obeys_bitor_spec() -> bool {
        true
    }

    open spec fn bitor_req(self, rhs: ButtonSet) -> bool {
        true
    }

    open spec fn bitor_spec(self, rhs: ButtonSet) -> ButtonSet {
        self.union_spec(rhs)
    }
}

impl core::ops::BitOr<Button> for ButtonSet {
    type Output = ButtonSet;

    /// The union of a set and a single button, taken as a singleton set.
    fn bitor(self, rhs: Button) -> (r: ButtonSet)
        ensures
            r == self.union_spec(ButtonSet::singleton_spec(rhs)),
            r.mask_spec() == self.mask_spec() | rhs.mask_spec(),
            r@ == self@.insert(rhs),
            self.wf() ==> r.wf(),
    {
        let r = ButtonSet { mask: self.mask | rhs.mask() };
        proof {
            lemma_singleton_props(rhs);
            lemma_union_props(self, ButtonSet::singleton_spec(rhs), r);
            assert(r@ =~= self@.insert(rhs));
        }
        r
    }
}

impl vstd::std_specs::ops::BitOrSpecImpl<Button> for ButtonSet {
    open spec fn obeys_bitor_spec() -> bool {
        true
    }

    open spec fn bitor_req(self, rhs: Button) -> bool {
        true
    }

    open spec fn bitor_spec(self, rhs: Button) -> ButtonSet {
        self.union_spec(ButtonSet::singleton_spec(rhs))
    }
}

impl core::ops::BitAnd for ButtonSet {
    type Output = ButtonSet;

    /// The intersection of two sets, leaving both operands unchanged.
    fn bitand(self, rhs: ButtonSet) -> (r: ButtonSet)
        ensures
            r == self.intersection_spec(rhs),
            r.mask_spec() == self.mask_spec() & rhs.mask_spec(),
            r@ == self@.intersect(rhs@),
            self.wf() || rhs.wf() ==> r.wf(),
    {
        let r = ButtonSet { mask: self.mask & rhs.mask };
        proof {
            lemma_intersection_props(self, rhs, r);
        }
        r
    }
}

impl vstd::std_specs::ops::BitAndSpecImpl for ButtonSet {
    open spec fn obeys_bitand_spec() -> bool {
        true
    }

    open spec fn bitand_req(self, rhs: ButtonSet) -> bool {
        true
    }

    open spec fn bitand_spec(self, rhs: ButtonSet) -> ButtonSet {
        self.intersection_spec(rhs)
    }
}

impl core::ops::BitAnd<Button> for ButtonSet {
    type Output = ButtonSet;

    /// The intersection of a set and a single button, taken as a singleton
    /// set: the singleton if the button is a member, the empty set otherwise.
    fn bitand(self, rhs: Button) -> (r: ButtonSet)
        ensures
            r == self.intersection_spec(ButtonSet::singleton_spec(rhs)),
            r.mask_spec() == self.mask_spec() & rhs.mask_spec(),
            forall|x: Button| r@.contains(x) == (self@.contains(x) && x == rhs),
            r.wf(),
    {
        let r = ButtonSet { mask: self.mask & rhs.mask() };
        proof {
            lemma_singleton_props(rhs);
            lemma_intersection_props(self, ButtonSet::singleton_spec(rhs), r);
        }
        r
    }
}

impl vstd::std_specs::ops::BitAndSpecImpl<Button> for ButtonSet {
    open spec fn obeys_bitand_spec() -> bool {
        true
    }

    open spec fn bitand_req(self, rhs: Button) -> bool {
        true
    }

    open spec fn bitand_spec(self, rhs: Button) -> ButtonSet {
        self.intersection_spec(ButtonSet::singleton_spec(rhs))
    }
}

impl core::convert::From<Button> for ButtonSet {
    /// The singleton set holding exactly the given button.
    fn from(b: Button) -> (r: ButtonSet)
        ensures
            r == ButtonSet::singleton_spec(b),
            r.mask_spec() == b.mask_spec(),
            r@ == Set::<Button>::empty().insert(b),
            r.wf(),
    {
        let r = ButtonSet { mask: b.mask() };
        proof {
            lemma_singleton_props(b);
        }
        r
    }
}

impl vstd::std_specs::convert::FromSpecImpl<Button> for ButtonSet {
    open spec fn obeys_from_spec() -> bool {
        true
    }

    open spec fn from_spec(v: Button) -> ButtonSet {
        ButtonSet::singleton_spec(v)
    }
}

impl core::default::Default for ButtonSet {
    /// The empty set.
    fn default() -> (r: ButtonSet)
        ensures
            r.mask_spec() == 0,
            r@ == Set::<Button>::empty(),
            r.wf(),
    {
        ButtonSet::new()
    }
}

/// The mask built from a sequence of buttons holds button bits only.
pub(crate) proof fn lemma_seq_mask_wf(s: Seq<Button>)
    ensures
        seq_mask(s) & 0x3f == seq_mask(s),
    decreases s.len(),
{
    if s.len() == 0 {
        assert(0u8 & 0x3f == 0u8) by (bit_vector);
    } else {
        lemma_seq_mask_wf(s.drop_last());
        lemma_mask_values(s.last());
        let m = seq_mask(s.drop_last());
        let k = s.last().mask_spec();
        assert((m & 0x3f == m && (k == 1 || k == 2 || k == 4 || k == 8 || k == 16 || k == 32)) ==> (
        m | k) & 0x3f == (m | k)) by (bit_vector);
    }
}

/// A button's bit is set in the mask of a sequence exactly when the button
/// occurs in the sequence.
pub proof fn lemma_seq_mask_membership(s: Seq<Button>, b: Button)
    ensures
        (seq_mask(s) & b.mask_spec() != 0) == s.contains(b),
    decreases s.len(),
{
    let j = b.mask_spec();
    if s.len() == 0 {
        assert(0u8 & j == 0) by (bit_vector);
        assert(!s.contains(b));
    } else {
        lemma_seq_mask_membership(s.drop_last(), b);
        lemma_or_single_bit(seq_mask(s.drop_last()), s.last(), b);
        assert(s.drop_last().contains(b) ==> s.contains(b)) by {
            if s.drop_last().contains(b) {
                let i = choose|i: int|
                    0 <= i < s.drop_last().len() && s.drop_last()[i] == b;
                assert(s[i] == b);
            }
        }
        assert(s.last() == b ==> s.contains(b)) by {
            if s.last() == b {
                assert(s[s.len() - 1] == b);
            }
        }
        assert(s.contains(b) ==> (s.drop_last().contains(b) || s.last() == b)) by {
            if s.contains(b) {
                let i = choose|i: int| 0 <= i < s.len() && s[i] == b;
                if i < s.len() - 1 {
                    assert(s.drop_last()[i] == b);
                }
            }
        }
    }
}

/// Extending a mask one button at a time walks the sequence front to back.
proof fn lemma_seq_mask_step(s: Seq<Button>, i: int)
    requires
        0 <= i < s.len(),
    ensures
        seq_mask(s.take(i + 1)) == seq_mask(s.take(i)) | s[i].mask_spec(),
{
    assert(s.take(i + 1).drop_last() =~= s.take(i));
    assert(s.take(i + 1).last() == s[i]);
}

/// The mask-overlap test agrees with set disjointness: an empty mask
/// intersection means no shared button, and for well-formed sets a non-empty
/// mask intersection names at least one shared button.
pub(crate) proof fn lemma_contains_any_disjoint(a: ButtonSet, b: ButtonSet)
    ensures
        (a.mask_spec() & b.mask_spec() == 0) ==> a@.disjoint(b@),
        a.wf() && b.wf() && (a.mask_spec() & b.mask_spec() != 0) ==> !a@.disjoint(b@),
{
    let m1 = a.mask_spec();
    let m2 = b.mask_spec();
    if m1 & m2 == 0 {
        assert forall|x: Button| !(a@.contains(x) && b@.contains(x)) by {
            lemma_intersection_membership(m1, m2, x);
            let j = x.mask_spec();
            assert(m1 & m2 == 0 ==> (m1 & m2) & j == 0) by (bit_vector);
        }
    }
    if a.wf() && b.wf() && m1 & m2 != 0 {
        assert((m1 & 1 != 0 && m2 & 1 != 0) || (m1 & 2 != 0 && m2 & 2 != 0) || (m1 & 4 != 0 && m2
            & 4 != 0) || (m1 & 8 != 0 && m2 & 8 != 0) || (m1 & 16 != 0 && m2 & 16 != 0) || (m1 & 32
            != 0 && m2 & 32 != 0)) by (bit_vector)
            requires
                m1 & 0x3f == m1 && m2 & 0x3f == m2 && m1 & m2 != 0,
        ;
        if m1 & 1 != 0 && m2 & 1 != 0 {
            assert(a@.contains(Button::Left) && b@.contains(Button::Left));
        } else if m1 & 2 != 0 && m2 & 2 != 0 {
            assert(a@.contains(Button::Right) && b@.contains(Button::Right));
        } else if m1 & 4 != 0 && m2 & 4 != 0 {
            assert(a@.contains(Button::Up) && b@.contains(Button::Up));
        } else if m1 & 8 != 0 && m2 & 8 != 0 {
            assert(a@.contains(Button::Down) && b@.contains(Button::Down));
        } else if m1 & 16 != 0 && m2 & 16 != 0 {
            assert(a@.contains(Button::B) && b@.contains(Button::B));
        } else {
            assert(a@.contains(Button::A) && b@.contains(Button::A));
        }
    }
}

} // verus!
