use crate::button::Button;
use crate::button_set::lemma_contains_any_disjoint;
use crate::button_set::lemma_from_mask_spec_mask;
use crate::button_set::lemma_mask_determines_set;
use crate::button_set::lemma_or_single_bit;
use crate::button_set::lemma_seq_mask_membership;
use crate::button_set::lemma_seq_mask_wf;
use crate::button_set::lemma_view_bit;
use crate::button_set::seq_mask;
use crate::button_set::ButtonSet;
use vstd::prelude::*;

verus! {

broadcast use lemma_from_mask_spec_mask;

/// Two well-formed masks that agree on every button's bit are equal.
proof fn lemma_wf_masks_extensional(m1: u8, m2: u8)
    requires
        m1 & 0x3f == m1,
        m2 & 0x3f == m2,
        (m1 & 1 != 0) == (m2 & 1 != 0),
        (m1 & 2 != 0) == (m2 & 2 != 0),
        (m1 & 4 != 0) == (m2 & 4 != 0),
        (m1 & 8 != 0) == (m2 & 8 != 0),
        (m1 & 16 != 0) == (m2 & 16 != 0),
        (m1 & 32 != 0) == (m2 & 32 != 0),
    ensures
        m1 == m2,
{
    assert(m1 == m2) by (bit_vector)
        requires
            m1 & 0x3f == m1 && m2 & 0x3f == m2 && ((m1 & 1 != 0) == (m2 & 1 != 0)) && ((m1 & 2
                != 0) == (m2 & 2 != 0)) && ((m1 & 4 != 0) == (m2 & 4 != 0)) && ((m1 & 8 != 0) == (
            m2 & 8 != 0)) && ((m1 & 16 != 0) == (m2 & 16 != 0)) && ((m1 & 32 != 0) == (m2 & 32
                != 0)),
    ;
}

/// A set with the all-zero mask, as [`ButtonSet::new`] returns it, contains
/// no button at all.
pub proof fn lemma_empty_contains_no_button(s: ButtonSet, b: Button)
    requires
        s.mask_spec() == 0,
    ensures
        !s@.contains(b),
{
    let j = b.mask_spec();
    assert(0u8 & j == 0) by (bit_vector);
}

/// Inserting a button `c` into a set makes `c` a member, and changes no
/// other button's membership: afterwards a button `b` different from `c` is
/// a member exactly when it already was one.
pub proof fn lemma_insert_membership(s: ButtonSet, t: ButtonSet, b: Button, c: Button)
    requires
        t.mask_spec() == s.mask_spec() | c.mask_spec(),
    ensures
        c == b ==> t@.contains(b),
        c != b ==> t@.contains(b) == s@.contains(b),
{
    lemma_or_single_bit(s.mask_spec(), c, b);
}

/// For well-formed sets the mask-overlap test that `contains_any` performs
/// holds exactly when the two sets share a member; in particular it is false
/// for every pair of disjoint sets.
pub proof fn lemma_contains_any_characterization(a: ButtonSet, b: ButtonSet)
    requires
        a.wf(),
        b.wf(),
    ensures
        (a.mask_spec() & b.mask_spec() != 0) == !a@.disjoint(b@),
{
    lemma_contains_any_disjoint(a, b);
}

/// Union of button sets is commutative.
pub proof fn lemma_union_commutative(a: ButtonSet, b: ButtonSet)
    ensures
        a.union_spec(b) == b.union_spec(a),
{
    let m1 = a.mask_spec();
    let m2 = b.mask_spec();
    assert(m1 | m2 == m2 | m1) by (bit_vector);
}

/// Union of button sets is associative.
pub proof fn lemma_union_associative(a: ButtonSet, b: ButtonSet, c: ButtonSet)
    ensures
        a.union_spec(b).union_spec(c) == a.union_spec(b.union_spec(c)),
{
    let m1 = a.mask_spec();
    let m2 = b.mask_spec();
    let m3 = c.mask_spec();
    assert((m1 | m2) | m3 == m1 | (m2 | m3)) by (bit_vector);
}

/// The empty set is the identity of union.
pub proof fn lemma_union_empty_identity(a: ButtonSet, e: ButtonSet)
    requires
        e.mask_spec() == 0,
    ensures
        a.union_spec(e) == a,
        e.union_spec(a) == a,
{
    let m = a.mask_spec();
    assert(m | 0u8 == m && 0u8 | m == m) by (bit_vector);
    lemma_mask_determines_set(a.union_spec(e), a);
    lemma_mask_determines_set(e.union_spec(a), a);
}

/// Intersection of button sets is commutative.
pub proof fn lemma_intersection_commutative(a: ButtonSet, b: ButtonSet)
    ensures
        a.intersection_spec(b) == b.intersection_spec(a),
{
    let m1 = a.mask_spec();
    let m2 = b.mask_spec();
    assert(m1 & m2 == m2 & m1) by (bit_vector);
}

/// Intersection of button sets is associative.
pub proof fn lemma_intersection_associative(a: ButtonSet, b: ButtonSet, c: ButtonSet)
    ensures
        a.intersection_spec(b).intersection_spec(c) == a.intersection_spec(
            b.intersection_spec(c),
        ),
{
    let m1 = a.mask_spec();
    let m2 = b.mask_spec();
    let m3 = c.mask_spec();
    assert((m1 & m2) & m3 == m1 & (m2 & m3)) by (bit_vector);
}

/// Well-formed sets with the same members are the same set: a `ButtonSet` is
/// determined by its abstraction, no matter how it was built.
pub proof fn lemma_members_determine_set(a: ButtonSet, b: ButtonSet)
    requires
        a.wf(),
        b.wf(),
        a@ == b@,
    ensures
        a == b,
{
    let m1 = a.mask_spec();
    let m2 = b.mask_spec();
    lemma_view_bit(a, Button::Left);
    lemma_view_bit(b, Button::Left);
    lemma_view_bit(a, Button::Right);
    lemma_view_bit(b, Button::Right);
    lemma_view_bit(a, Button::Up);
    lemma_view_bit(b, Button::Up);
    lemma_view_bit(a, Button::Down);
    lemma_view_bit(b, Button::Down);
    lemma_view_bit(a, Button::B);
    lemma_view_bit(b, Button::B);
    lemma_view_bit(a, Button::A);
    lemma_view_bit(b, Button::A);
    lemma_wf_masks_extensional(m1, m2);
    lemma_mask_determines_set(a, b);
}

/// A button is in the member set of a sequence exactly when it occurs in
/// the sequence.
proof fn lemma_seq_to_set_contains(s: Seq<Button>, b: Button)
    ensures
        s.to_set().contains(b) == s.contains(b),
{
}

/// Building a set by folding a sequence of buttons, as
/// [`ButtonSet::from_iter`] does, depends only on which buttons occur in the
/// sequence: two sequences with the same members — in any order, with any
/// repetitions — fold to the same set.
pub proof fn lemma_from_buttons_order_insensitive(
    s1: Seq<Button>,
    s2: Seq<Button>,
    r1: ButtonSet,
    r2: ButtonSet,
)
    requires
        s1.to_set() == s2.to_set(),
        r1.mask_spec() == seq_mask(s1),
        r2.mask_spec() == seq_mask(s2),
    ensures
        r1 == r2,
{
    lemma_seq_mask_wf(s1);
    lemma_seq_mask_wf(s2);
    lemma_seq_mask_membership(s1, Button::Left);
    lemma_seq_mask_membership(s2, Button::Left);
    lemma_seq_mask_membership(s1, Button::Right);
    lemma_seq_mask_membership(s2, Button::Right);
    lemma_seq_mask_membership(s1, Button::Up);
    lemma_seq_mask_membership(s2, Button::Up);
    lemma_seq_mask_membership(s1, Button::Down);
    lemma_seq_mask_membership(s2, Button::Down);
    lemma_seq_mask_membership(s1, Button::B);
    lemma_seq_mask_membership(s2, Button::B);
    lemma_seq_mask_membership(s1, Button::A);
    lemma_seq_mask_membership(s2, Button::A);
    lemma_seq_to_set_contains(s1, Button::Left);
    lemma_seq_to_set_contains(s2, Button::Left);
    lemma_seq_to_set_contains(s1, Button::Right);
    lemma_seq_to_set_contains(s2, Button::Right);
    lemma_seq_to_set_contains(s1, Button::Up);
    lemma_seq_to_set_contains(s2, Button::Up);
    lemma_seq_to_set_contains(s1, Button::Down);
    lemma_seq_to_set_contains(s2, Button::Down);
    lemma_seq_to_set_contains(s1, Button::B);
    lemma_seq_to_set_contains(s2, Button::B);
    lemma_seq_to_set_contains(s1, Button::A);
    lemma_seq_to_set_contains(s2, Button::A);
    lemma_wf_masks_extensional(seq_mask(s1), seq_mask(s2));
    lemma_mask_determines_set(r1, r2);
}

} // verus!
