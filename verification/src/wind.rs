//! The wind direction that a reading of the vane's angle sensor stands for.

use vstd::prelude::*;

verus! {

/// Readings per full turn of the angle sensor.
pub const FULL_TURN: u16 = 4096;

/// One of the eight principal winds, or none for a reading beyond a full
/// turn.
#[derive(Debug, Clone, Copy, PartialEq, Eq, Structural)]
pub enum Direction {
    N,
    NE,
    E,
    SE,
    S,
    SW,
    W,
    NW,
    Invalid,
}

/// The direction whose sector of 45 degrees holds the angle of `reading`,
/// which is `reading` times 360 / 4096 degrees: sector `k` runs from
/// `45 * k` degrees up to, not including, `45 * (k + 1)`.
pub open spec fn direction_of(reading: u16) -> Direction {
    if reading * 360 < 45 * FULL_TURN {
        Direction::N
    } else if reading * 360 < 90 * FULL_TURN {
        Direction::NE
    } else if reading * 360 < 135 * FULL_TURN {
        Direction::E
    } else if reading * 360 < 180 * FULL_TURN {
        Direction::SE
    } else if reading * 360 < 225 * FULL_TURN {
        Direction::S
    } else if reading * 360 < 270 * FULL_TURN {
        Direction::SW
    } else if reading * 360 < 315 * FULL_TURN {
        Direction::W
    } else if reading * 360 < 360 * FULL_TURN {
        Direction::NW
    } else {
        Direction::Invalid
    }
}

/// The name under which a direction is reported.
pub open spec fn label_of(direction: Direction) -> Seq<char> {
    match direction {
        Direction::N => "N"@,
        Direction::NE => "NE"@,
        Direction::E => "E"@,
        Direction::SE => "SE"@,
        Direction::S => "S"@,
        Direction::SW => "SW"@,
        Direction::W => "W"@,
        Direction::NW => "NW"@,
        Direction::Invalid => "Invalid Angle"@,
    }
}

/// Tells the wind direction for a reading of the angle sensor.
pub fn get_wind_direction(reading: u16) -> (direction: Direction)
    ensures
        direction == direction_of(reading),
{
    let sector = reading / 512;
    if sector == 0 {
        Direction::N
    } else if sector == 1 {
        Direction::NE
    } else if sector == 2 {
        Direction::E
    } else if sector == 3 {
        Direction::SE
    } else if sector == 4 {
        Direction::S
    } else if sector == 5 {
        Direction::SW
    } else if sector == 6 {
        Direction::W
    } else if sector == 7 {
        Direction::NW
    } else {
        Direction::Invalid
    }
}

/// Gives the name under which a direction is reported.
pub fn direction_label(direction: Direction) -> (label: &'static str)
    ensures
        label@ == label_of(direction),
{
    match direction {
        Direction::N => "N",
        Direction::NE => "NE",
        Direction::E => "E",
        Direction::SE => "SE",
        Direction::S => "S",
        Direction::SW => "SW",
        Direction::W => "W",
        Direction::NW => "NW",
        Direction::Invalid => "Invalid Angle",
    }
}

} // verus!
