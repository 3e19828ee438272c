//! Charge levels: how full a battery is, in whole millionths of a full charge.

use vstd::prelude::*;

verus! {

/// The number of millionths in a full charge.
pub const FULL: u32 = 1_000_000;

/// A charge level between empty and full, both included.
#[derive(Copy, Clone, Debug, PartialEq, Eq, Structural)]
pub struct Level {
    pub(crate) millionths: u32,
}

impl View for Level {
    type V = int;

    /// The level in millionths of a full charge.
    open(crate) spec fn view(&self) -> int {
        self.millionths as int
    }
}

impl Level {
    /// Every level lies between empty and full.
    #[verifier::type_invariant]
    pub open(crate) spec fn wf(self) -> bool {
        self.millionths <= FULL
    }

    /// The level of `millionths`, unless that is more than a full charge.
    pub fn new(millionths: u32) -> (r: Option<Level>)
        ensures
            match r {
                Some(level) => millionths <= FULL && level@ == millionths,
                None => millionths > FULL,
            },
    {
        if millionths <= FULL {
            Some(Level { millionths })
        } else {
            None
        }
    }

    /// The level of `millionths`, unless that is less than nothing or more
    /// than a full charge.
    pub fn from_millionths(millionths: i64) -> (r: Option<Level>)
        ensures
            match r {
                Some(level) => 0 <= millionths <= FULL && level@ == millionths,
                None => millionths < 0 || millionths > FULL,
            },
    {
        if 0 <= millionths && millionths <= FULL as i64 {
            Some(Level { millionths: millionths as u32 })
        } else {
            None
        }
    }

    /// The level of `millionths`, with anything above a full charge read as full.
    pub fn saturating(millionths: u32) -> (level: Level)
        ensures
            level@ == if millionths <= FULL { millionths as int } else { FULL as int },
    {
        if millionths <= FULL {
            Level { millionths }
        } else {
            Level { millionths: FULL }
        }
    }

    /// The empty battery.
    pub fn empty() -> (level: Level)
        ensures
            level@ == 0,
    {
        Level { millionths: 0 }
    }

    /// The half-charged battery.
    pub fn half() -> (level: Level)
        ensures
            level@ == FULL / 2,
    {
        Level { millionths: FULL / 2 }
    }

    /// The full battery.
    pub fn full() -> (level: Level)
        ensures
            level@ == FULL,
    {
        Level { millionths: FULL }
    }

    /// The level in millionths of a full charge.
    pub fn millionths(&self) -> (m: u32)
        ensures
            m == self@,
            m <= FULL,
    {
        proof {
            use_type_invariant(self);
        }
        self.millionths
    }

    /// What is missing from a full charge.
    pub fn complement(&self) -> (level: Level)
        ensures
            level@ == FULL - self@,
    {
        proof {
            use_type_invariant(self);
        }
        Level { millionths: FULL - self.millionths }
    }
}

} // verus!
