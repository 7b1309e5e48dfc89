//! Safe-area insets and the layout margin that they give.
//!
//! The safe area is what remains of the screen once hardware features (a
//! notch, a home indicator) are left out. The host reports it as four insets
//! in whole logical points.

use vstd::prelude::*;

verus! {

/// The largest inset that a layout margin can hold.
pub const MAX_MARGIN: i32 = 127;

/// Safe-area insets in whole logical points, as the host last reported them.
#[derive(Clone, Copy, PartialEq, Eq, Debug, Structural)]
pub struct SafeAreaInsets {
    pub top: i32,
    pub right: i32,
    pub bottom: i32,
    pub left: i32,
}

/// An inward layout margin, in whole logical points.
#[derive(Clone, Copy, PartialEq, Eq, Debug, Structural)]
pub struct Margin {
    pub top: i8,
    pub right: i8,
    pub bottom: i8,
    pub left: i8,
}

/// An inset brought into the range of a margin: a negative inset counts as
/// zero, one above the largest margin as the largest margin.
pub open spec fn clamped(inset: i32) -> i8 {
    if inset < 0 {
        0i8
    } else if inset > MAX_MARGIN {
        127i8
    } else {
        inset as i8
    }
}

/// The layout margin that a set of insets gives: each side clamped.
pub open spec fn margin_of(insets: SafeAreaInsets) -> Margin {
    Margin {
        top: clamped(insets.top),
        right: clamped(insets.right),
        bottom: clamped(insets.bottom),
        left: clamped(insets.left),
    }
}

/// Brings one inset into the range of a margin.
pub fn clamp_inset(inset: i32) -> (side: i8)
    ensures
        side == clamped(inset),
        0 <= side <= MAX_MARGIN,
        0 <= inset <= MAX_MARGIN ==> side == inset,
{
    if inset < 0 {
        0
    } else if inset > MAX_MARGIN {
        127
    } else {
        narrow(inset)
    }
}

/// The same number in the margin's integer type.
fn narrow(inset: i32) -> (side: i8)
    requires
        0 <= inset <= MAX_MARGIN,
    ensures
        side == inset,
{
    inset as i8
}

impl SafeAreaInsets {
    /// The insets with the given four sides.
    pub fn new(top: i32, right: i32, bottom: i32, left: i32) -> (insets: SafeAreaInsets)
        ensures
            insets == (SafeAreaInsets { top, right, bottom, left }),
    {
        SafeAreaInsets { top, right, bottom, left }
    }

    /// No inset on any side.
    pub open spec fn zero() -> SafeAreaInsets {
        SafeAreaInsets { top: 0, right: 0, bottom: 0, left: 0 }
    }

    /// The inward layout margin for these insets. Never fails: a negative
    /// inset gives a margin of zero on that side, an inset beyond the
    /// margin's range the largest margin.
    pub fn to_margin(&self) -> (margin: Margin)
        ensures
            margin == margin_of(*self),
    {
        Margin {
            top: clamp_inset(self.top),
            right: clamp_inset(self.right),
            bottom: clamp_inset(self.bottom),
            left: clamp_inset(self.left),
        }
    }
}

impl Default for SafeAreaInsets {
    fn default() -> (insets: SafeAreaInsets)
        ensures
            insets == SafeAreaInsets::zero(),
    {
        SafeAreaInsets { top: 0, right: 0, bottom: 0, left: 0 }
    }
}

/// A margin is never negative and never wider than the largest margin,
/// whatever the insets; a negative inset gives zero on its side, and an inset
/// within range is kept as it is.
pub proof fn lemma_margin_is_clamped(insets: SafeAreaInsets)
    ensures
        0 <= margin_of(insets).top <= MAX_MARGIN,
        0 <= margin_of(insets).right <= MAX_MARGIN,
        0 <= margin_of(insets).bottom <= MAX_MARGIN,
        0 <= margin_of(insets).left <= MAX_MARGIN,
        insets.top < 0 ==> margin_of(insets).top == 0,
        insets.right < 0 ==> margin_of(insets).right == 0,
        insets.bottom < 0 ==> margin_of(insets).bottom == 0,
        insets.left < 0 ==> margin_of(insets).left == 0,
        0 <= insets.top <= MAX_MARGIN ==> margin_of(insets).top == insets.top,
        0 <= insets.right <= MAX_MARGIN ==> margin_of(insets).right == insets.right,
        0 <= insets.bottom <= MAX_MARGIN ==> margin_of(insets).bottom == insets.bottom,
        0 <= insets.left <= MAX_MARGIN ==> margin_of(insets).left == insets.left,
{
}

} // verus!
