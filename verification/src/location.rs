//! Grid coordinates and the operations that combine them with directions
//! and offsets.

use crate::world::{Direction, Distance};
use vstd::prelude::*;
use vstd::std_specs::ops::{AddSpecImpl, SubSpecImpl};

verus! {

/// A cell address: `x` grows to the east, `y` to the north, and `(0, 0)` is
/// the south-west corner.
#[derive(Clone, Copy, Debug, PartialEq, Eq, Structural)]
pub struct Location(pub usize, pub usize);

/// A coordinate moved by a signed amount and kept within what a coordinate
/// can hold: it stops at zero and at the largest `usize`.
pub open spec fn clamped(coordinate: int) -> usize {
    if coordinate < 0 {
        0
    } else if coordinate > usize::MAX {
        usize::MAX
    } else {
        coordinate as usize
    }
}

/// A coordinate moved by a signed amount, clamped.
fn moved(coordinate: usize, by: i32) -> (to: usize)
    ensures
        to == clamped(coordinate + by),
{
    if by >= 0 {
        let up: usize = by as usize;
        if coordinate > usize::MAX - up {
            usize::MAX
        } else {
            coordinate + up
        }
    } else {
        let down: usize = (-(by as i64)) as usize;
        if coordinate < down {
            0
        } else {
            coordinate - down
        }
    }
}

/// The signed amount that leads from one coordinate to another.
fn difference(to: usize, from: usize) -> (by: i32)
    requires
        i32::MIN <= to - from <= i32::MAX,
    ensures
        by == to - from,
{
    if to >= from {
        (to - from) as i32
    } else {
        (-((from - to) as i64)) as i32
    }
}

impl Location {
    /// A step in the given direction stays within what a coordinate can
    /// hold at its upper end.
    pub open spec fn fits(self, direction: Direction) -> bool {
        self.0 + direction.dx() <= usize::MAX && self.1 + direction.dy() <= usize::MAX
    }

    /// The neighbouring cell in the given direction, if both of its
    /// coordinates are non-negative.
    pub open spec fn step(self, direction: Direction) -> Option<Location>
        recommends
            self.fits(direction),
    {
        if self.0 + direction.dx() < 0 || self.1 + direction.dy() < 0 {
            None
        } else {
            Some(Location((self.0 + direction.dx()) as usize, (self.1 + direction.dy()) as usize))
        }
    }

    /// This cell moved by `(dx, dy)`, each coordinate clamped.
    pub open spec fn shifted(self, dx: int, dy: int) -> Location {
        Location(clamped(self.0 + dx), clamped(self.1 + dy))
    }

    /// The offset that leads from `origin` to this cell.
    pub open spec fn offset_from(self, origin: Location) -> Distance
        recommends
            i32::MIN <= self.0 - origin.0 <= i32::MAX,
            i32::MIN <= self.1 - origin.1 <= i32::MAX,
    {
        Distance((self.0 - origin.0) as i32, (self.1 - origin.1) as i32)
    }

    /// The offset from a cell to its neighbour in a direction is that
    /// direction's offset.
    pub proof fn lemma_step_offset(self, direction: Direction)
        requires
            self.fits(direction),
            self.step(direction) is Some,
        ensures
            self.step(direction)->0.offset_from(self).0 == direction.dx(),
            self.step(direction)->0.offset_from(self).1 == direction.dy(),
    {
    }

    /// Where a step and the step back can both be taken, the offsets to the
    /// two neighbours are each other's negation.
    pub proof fn lemma_opposite_steps(self, direction: Direction)
        requires
            self.fits(direction),
            self.fits(direction.opposite()),
            self.step(direction) is Some,
            self.step(direction.opposite()) is Some,
        ensures
            ({
                let there = self.step(direction)->0.offset_from(self);
                let back = self.step(direction.opposite())->0.offset_from(self);
                there.0 == -back.0 && there.1 == -back.1
            }),
    {
        self.lemma_step_offset(direction);
        self.lemma_step_offset(direction.opposite());
        direction.lemma_opposite_negates();
    }
}

impl AddSpecImpl<Direction> for Location {
    open spec fn obeys_add_spec() -> bool {
        true
    }

    open spec fn add_req(self, rhs: Direction) -> bool {
        self.fits(rhs)
    }

    open spec fn add_spec(self, rhs: Direction) -> Option<Location> {
        self.step(rhs)
    }
}

impl core::ops::Add<Direction> for Location {
    type Output = Option<Location>;

    /// One step in the given direction. There is no such cell exactly when
    /// the step would make a coordinate negative.
    fn add(self, rhs: Direction) -> (neighbour: Option<Location>)
        ensures
            neighbour is None <==> self.0 + rhs.dx() < 0 || self.1 + rhs.dy() < 0,
            neighbour matches Some(l) ==> l.0 == self.0 + rhs.dx() && l.1 == self.1 + rhs.dy(),
    {
        let delta = rhs.delta();
        if (delta.0 < 0 && self.0 == 0) || (delta.1 < 0 && self.1 == 0) {
            None
        } else {
            Some(Location(moved(self.0, delta.0), moved(self.1, delta.1)))
        }
    }
}

impl AddSpecImpl<(i32, i32)> for Location {
    open spec fn obeys_add_spec() -> bool {
        true
    }

    open spec fn add_req(self, rhs: (i32, i32)) -> bool {
        true
    }

    open spec fn add_spec(self, rhs: (i32, i32)) -> Location {
        self.shifted(rhs.0 as int, rhs.1 as int)
    }
}

impl core::ops::Add<(i32, i32)> for Location {
    type Output = Location;

    /// This cell moved by a signed offset; a coordinate that would leave the
    /// range of coordinates stays at its end.
    fn add(self, rhs: (i32, i32)) -> (shifted: Location)
        ensures
            shifted.0 == clamped(self.0 + rhs.0),
            shifted.1 == clamped(self.1 + rhs.1),
    {
        Location(moved(self.0, rhs.0), moved(self.1, rhs.1))
    }
}

impl SubSpecImpl<Location> for Location {
    open spec fn obeys_sub_spec() -> bool {
        true
    }

    open spec fn sub_req(self, rhs: Location) -> bool {
        &&& i32::MIN <= self.0 - rhs.0 <= i32::MAX
        &&& i32::MIN <= self.1 - rhs.1 <= i32::MAX
    }

    open spec fn sub_spec(self, rhs: Location) -> Distance {
        self.offset_from(rhs)
    }
}

impl core::ops::Sub<Location> for Location {
    type Output = Distance;

    /// The offset that leads from `rhs` to this cell.
    fn sub(self, rhs: Location) -> (offset: Distance)
        ensures
            offset.0 == self.0 - rhs.0,
            offset.1 == self.1 - rhs.1,
    {
        Distance(difference(self.0, rhs.0), difference(self.1, rhs.1))
    }
}

} // verus!
