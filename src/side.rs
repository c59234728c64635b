//! The two sides of the court, and their protocol encoding as `u8`.

use vstd::prelude::*;

verus! {

/// One of the two sides of the court: the left player or the right player.
#[derive(Clone, Copy, Debug, PartialEq, Eq, Structural)]
pub enum Side {
    Left,
    Right,
}

/// Error returned when a `u8` names no side.
#[derive(Clone, Copy, Debug, PartialEq, Eq, Structural)]
pub enum SideCastError {
    /// A side is either `0` for `Left` or `1` for `Right`; the offending value is kept.
    InvalidInteger(u8),
}

/// The side facing the given one.
pub open spec fn opposite(s: Side) -> Side {
    match s {
        Side::Left => Side::Right,
        Side::Right => Side::Left,
    }
}

/// The protocol's integer for a side.
pub open spec fn side_code(s: Side) -> u8 {
    match s {
        Side::Left => 0,
        Side::Right => 1,
    }
}

/// The side that a protocol integer names, if any.
pub open spec fn side_of_code(n: u8) -> Result<Side, SideCastError> {
    if n == 0 {
        Ok(Side::Left)
    } else if n == 1 {
        Ok(Side::Right)
    } else {
        Err(SideCastError::InvalidInteger(n))
    }
}

impl Side {
    /// The side facing this one.
    pub fn opposite(self) -> (r: Side)
        ensures
            r == opposite(self),
    {
        match self {
            Side::Left => Side::Right,
            Side::Right => Side::Left,
        }
    }

    /// Index of this side's entry in a `[left, right]` pair.
    pub fn index(self) -> (r: usize)
        ensures
            r == side_code(self) as usize,
    {
        match self {
            Side::Left => 0,
            Side::Right => 1,
        }
    }

    /// The side chosen by a fair coin: `true` gives `Left`, `false` gives `Right`.
    pub fn from_coin(coin: bool) -> (r: Side)
        ensures
            r == (if coin { Side::Left } else { Side::Right }),
    {
        if coin {
            Side::Left
        } else {
            Side::Right
        }
    }
}

impl core::ops::Not for Side {
    type Output = Side;

    fn not(self) -> (r: Side) {
        self.opposite()
    }
}

impl vstd::std_specs::ops::NotSpecImpl for Side {
    open spec fn obeys_not_spec() -> bool {
        true
    }

    open spec fn not_req(self) -> bool {
        true
    }

    open spec fn not_spec(self) -> Side {
        opposite(self)
    }
}

impl From<Side> for u8 {
    fn from(value: Side) -> (r: u8) {
        match value {
            Side::Left => 0,
            Side::Right => 1,
        }
    }
}

impl vstd::std_specs::convert::FromSpecImpl<Side> for u8 {
    open spec fn obeys_from_spec() -> bool {
        true
    }

    open spec fn from_spec(v: Side) -> u8 {
        side_code(v)
    }
}

impl TryFrom<u8> for Side {
    type Error = SideCastError;

    fn try_from(value: u8) -> (r: Result<Side, SideCastError>) {
        match value {
            0 => Ok(Side::Left),
            1 => Ok(Side::Right),
            n => Err(SideCastError::InvalidInteger(n)),
        }
    }
}

impl vstd::std_specs::convert::TryFromSpecImpl<u8> for Side {
    open spec fn obeys_try_from_spec() -> bool {
        true
    }

    open spec fn try_from_spec(v: u8) -> Result<Side, SideCastError> {
        side_of_code(v)
    }
}

/// Encoding a side as `u8` and decoding it back gives the same side; decoding
/// succeeds exactly on `0` and `1`, and encoding the decoded side gives the integer back.
pub proof fn lemma_side_code_round_trip(s: Side, n: u8)
    ensures
        side_of_code(side_code(s)) == Ok::<Side, SideCastError>(s),
        side_of_code(n).is_ok() <==> (n == 0 || n == 1),
        side_of_code(n) matches Ok(t) ==> side_code(t) == n,
        !(n == 0 || n == 1) ==> side_of_code(n) == Err::<Side, SideCastError>(SideCastError::InvalidInteger(n)),
{
}

} // verus!
