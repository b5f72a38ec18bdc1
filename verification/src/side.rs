use vstd::prelude::*;

verus! {

/// One of the two players, and with it one half of the court.
#[derive(Clone, Copy, Debug, PartialEq, Eq, Structural)]
pub enum Side {
    Left,
    Right,
}

impl Side {
    /// The opposite side.
    pub open spec fn spec_toggle(self) -> Side {
        match self {
            Side::Left => Side::Right,
            Side::Right => Side::Left,
        }
    }

    /// Returns the opposite side.
    pub fn toggle(self) -> (r: Side)
        ensures
            r == self.spec_toggle(),
    {
        match self {
            Side::Left => Side::Right,
            Side::Right => Side::Left,
        }
    }

    /// Upper-case name of the side, for banners such as the winner screen.
    pub fn label(self) -> (s: &'static str)
        ensures
            self == Side::Left ==> s@ == "LEFT"@,
            self == Side::Right ==> s@ == "RIGHT"@,
    {
        match self {
            Side::Left => "LEFT",
            Side::Right => "RIGHT",
        }
    }
}

} // verus!
