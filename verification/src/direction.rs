use vstd::prelude::*;

verus! {

/// Direction label of a bar, as in the Pine Script model: -1, 0 or +1.
#[derive(Debug, Clone, Copy, PartialEq, Eq, Structural, Hash)]
pub enum Direction {
    Short,
    Neutral,
    Long,
}

/// The integer value of a direction label.
pub open spec fn direction_value(d: Direction) -> int {
    match d {
        Direction::Short => -1,
        Direction::Neutral => 0,
        Direction::Long => 1,
    }
}

/// The direction an integer stands for; values other than -1, 0 and 1 mean `Neutral`.
pub open spec fn direction_of(v: int) -> Direction {
    if v == -1 {
        Direction::Short
    } else if v == 1 {
        Direction::Long
    } else {
        Direction::Neutral
    }
}

impl Direction {
    /// Converts an integer label into a direction (unknown values become `Neutral`).
    pub fn from_i32(value: i32) -> (d: Direction)
        ensures
            d == direction_of(value as int),
    {
        if value == -1 {
            Direction::Short
        } else if value == 1 {
            Direction::Long
        } else {
            Direction::Neutral
        }
    }

    /// The integer label of this direction.
    pub fn to_i32(&self) -> (v: i32)
        ensures
            v as int == direction_value(*self),
    {
        match self {
            Direction::Short => -1,
            Direction::Neutral => 0,
            Direction::Long => 1,
        }
    }
}

impl From<i32> for Direction {
    fn from(value: i32) -> (d: Direction) {
        Direction::from_i32(value)
    }
}

impl vstd::std_specs::convert::FromSpecImpl<i32> for Direction {
    open spec fn obeys_from_spec() -> bool {
        true
    }

    open spec fn from_spec(v: i32) -> Direction {
        direction_of(v as int)
    }
}

impl From<Direction> for i32 {
    fn from(d: Direction) -> (v: i32) {
        d.to_i32()
    }
}

impl vstd::std_specs::convert::FromSpecImpl<Direction> for i32 {
    open spec fn obeys_from_spec() -> bool {
        true
    }

    open spec fn from_spec(d: Direction) -> i32 {
        direction_value(d) as i32
    }
}

/// Converting a direction to its integer and back gives the same direction.
pub proof fn lemma_direction_round_trip(d: Direction)
    ensures
        direction_of(direction_value(d)) == d,
{
}

/// Every integer maps to a direction whose value lies in -1..=1, and
/// integers already in that range are kept.
pub proof fn lemma_direction_from_value(v: int)
    ensures
        -1 <= direction_value(direction_of(v)) <= 1,
        -1 <= v <= 1 ==> direction_value(direction_of(v)) == v,
{
}

} // verus!
