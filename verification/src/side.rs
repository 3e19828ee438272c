//! The screen edge a bar is anchored to, and the strip of the output that a
//! bar on that edge covers.

use vstd::prelude::*;
use crate::text::{chars_of, spells, spells_word};

verus! {

/// One of the four edges of an output.
#[derive(Copy, Clone, Debug, PartialEq, Eq, Structural)]
pub enum Side {
    Top,
    Bottom,
    Left,
    Right,
}

/// The answer to a text that names no edge.
#[derive(Copy, Clone, Debug, PartialEq, Eq, Structural)]
pub struct InvalidSide;

/// The edge that `s` names: its English name or the first letter of it, in
/// either case of the ASCII letters.
pub open spec fn side_named(s: Seq<char>) -> Option<Side> {
    if spells(s, "b"@) || spells(s, "bottom"@) {
        Some(Side::Bottom)
    } else if spells(s, "t"@) || spells(s, "top"@) {
        Some(Side::Top)
    } else if spells(s, "l"@) || spells(s, "left"@) {
        Some(Side::Left)
    } else if spells(s, "r"@) || spells(s, "right"@) {
        Some(Side::Right)
    } else {
        None
    }
}

impl Side {
    /// Whether a bar on this edge runs from left to right.
    pub open spec fn horizontal(self) -> bool {
        self == Side::Top || self == Side::Bottom
    }

    /// The strip along this edge that is `size` deep, on an output of
    /// `dims.0` by `dims.1`: its left, its top, its width and its height.
    pub open spec fn strip(self, size: int, dims: (int, int)) -> (int, int, int, int) {
        match self {
            Side::Top => (0, 0, dims.0, size),
            Side::Bottom => (0, dims.1 - size, dims.0, size),
            Side::Left => (0, 0, size, dims.1),
            Side::Right => (dims.0 - size, 0, size, dims.1),
        }
    }

    /// The next edge against the clock.
    pub open spec fn spec_ccw(self) -> Side {
        match self {
            Side::Top => Side::Left,
            Side::Left => Side::Bottom,
            Side::Bottom => Side::Right,
            Side::Right => Side::Top,
        }
    }

    /// The next edge with the clock.
    pub open spec fn spec_cw(self) -> Side {
        match self {
            Side::Top => Side::Right,
            Side::Right => Side::Bottom,
            Side::Bottom => Side::Left,
            Side::Left => Side::Top,
        }
    }

    /// Whether a bar on this edge runs from left to right.
    pub fn is_horizontal(self) -> (r: bool)
        ensures
            r == self.horizontal(),
    {
        match self {
            Side::Top | Side::Bottom => true,
            Side::Left | Side::Right => false,
        }
    }

    /// The strip along this edge that is `size` deep, on an output of `dims`:
    /// its left, its top, its width and its height. The one difference that is
    /// formed has to fit the integer type.
    pub fn compute_size(self, size: i32, dims: (i32, i32)) -> (r: (i32, i32, i32, i32))
        requires
            self == Side::Bottom ==> i32::MIN <= dims.1 - size <= i32::MAX,
            self == Side::Right ==> i32::MIN <= dims.0 - size <= i32::MAX,
        ensures
            (r.0 as int, r.1 as int, r.2 as int, r.3 as int) == self.strip(
                size as int,
                (dims.0 as int, dims.1 as int),
            ),
    {
        let (w, h) = dims;
        match self {
            Side::Top => (0, 0, w, size),
            Side::Bottom => (0, h - size, w, size),
            Side::Left => (0, 0, size, h),
            Side::Right => (w - size, 0, size, h),
        }
    }

    /// The next edge against the clock.
    #[verifier::when_used_as_spec(spec_ccw)]
    pub fn ccw(self) -> (r: Side)
        ensures
            r == self.spec_ccw(),
    {
        match self {
            Side::Top => Side::Left,
            Side::Left => Side::Bottom,
            Side::Bottom => Side::Right,
            Side::Right => Side::Top,
        }
    }

    /// The next edge with the clock.
    #[verifier::when_used_as_spec(spec_cw)]
    pub fn cw(self) -> (r: Side)
        ensures
            r == self.spec_cw(),
    {
        match self {
            Side::Top => Side::Right,
            Side::Right => Side::Bottom,
            Side::Bottom => Side::Left,
            Side::Left => Side::Top,
        }
    }

    /// The edge that `s` names, if it names one.
    pub fn parse(s: &str) -> (r: Option<Side>)
        ensures
            r == side_named(s@),
    {
        let v = chars_of(s);
        let n = v.len();
        assert(v@.subrange(0, n as int) =~= s@);
        if spells_word(&v, 0, n, "b") || spells_word(&v, 0, n, "bottom") {
            Some(Side::Bottom)
        } else if spells_word(&v, 0, n, "t") || spells_word(&v, 0, n, "top") {
            Some(Side::Top)
        } else if spells_word(&v, 0, n, "l") || spells_word(&v, 0, n, "left") {
            Some(Side::Left)
        } else if spells_word(&v, 0, n, "r") || spells_word(&v, 0, n, "right") {
            Some(Side::Right)
        } else {
            None
        }
    }
}

/// Turning with the clock and against it cancel, and four turns one way come
/// back to the edge they began at.
pub proof fn lemma_turns(side: Side)
    ensures
        side.cw().ccw() == side,
        side.ccw().cw() == side,
        side.cw().cw().cw().cw() == side,
        side.cw().horizontal() != side.horizontal(),
{
}

impl Default for Side {
    /// A bar sits at the bottom unless it is told otherwise.
    fn default() -> (r: Side)
        ensures
            r == Side::Bottom,
    {
        Side::Bottom
    }
}

impl core::str::FromStr for Side {
    type Err = InvalidSide;

    /// The edge that `s` names, and `InvalidSide` where it names none.
    fn from_str(s: &str) -> (r: Result<Side, InvalidSide>)
        ensures
            r == (match side_named(s@) {
                Some(side) => Ok::<Side, InvalidSide>(side),
                None => Err::<Side, InvalidSide>(InvalidSide),
            }),
    {
        match Side::parse(s) {
            Some(side) => Ok(side),
            None => Err(InvalidSide),
        }
    }
}

} // verus!
