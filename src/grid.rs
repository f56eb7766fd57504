use vstd::prelude::*;

verus! {

/// Side of one grid cell, in screen units.
pub const DOT_SIZE: u32 = 20;

/// A cell of the grid, as (column, row). Rows grow downwards.
#[derive(Clone, Copy, PartialEq, Eq, Debug, Structural)]
pub struct Point(pub i32, pub i32);

/// One of the four headings the snake can take.
#[derive(Clone, Copy, PartialEq, Eq, Debug, Structural)]
pub enum MoveType {
    Up,
    Down,
    Right,
    Left,
}

/// A grid cell as a pair of unbounded integers.
pub type Cell = (int, int);

impl Point {
    pub open spec fn cell(self) -> Cell {
        (self.0 as int, self.1 as int)
    }

    /// Whether the component-wise sum of `self` and `rhs` is representable.
    pub open spec fn can_add(self, rhs: Point) -> bool {
        i32::MIN <= self.0 + rhs.0 <= i32::MAX && i32::MIN <= self.1 + rhs.1 <= i32::MAX
    }

    /// Component-wise sum.
    pub fn add(self, rhs: Point) -> (r: Point)
        requires
            self.can_add(rhs),
        ensures
            r.cell() == plus(self.cell(), rhs.cell()),
    {
        Point(self.0 + rhs.0, self.1 + rhs.1)
    }
}

pub open spec fn plus(a: Cell, b: Cell) -> Cell {
    (a.0 + b.0, a.1 + b.1)
}

pub open spec fn negate(a: Cell) -> Cell {
    (-a.0, -a.1)
}

/// The one-cell step taken in direction `d`.
pub open spec fn delta(d: MoveType) -> Cell {
    match d {
        MoveType::Up => (0, -1),
        MoveType::Down => (0, 1),
        MoveType::Right => (1, 0),
        MoveType::Left => (-1, 0),
    }
}

/// The direction pointing the other way.
pub open spec fn opposite(d: MoveType) -> MoveType {
    match d {
        MoveType::Up => MoveType::Down,
        MoveType::Down => MoveType::Up,
        MoveType::Right => MoveType::Left,
        MoveType::Left => MoveType::Right,
    }
}

impl MoveType {
    /// The unit step for this direction.
    pub fn delta(&self) -> (r: Point)
        ensures
            r.cell() == delta(*self),
    {
        match self {
            MoveType::Up => Point(0, -1),
            MoveType::Down => Point(0, 1),
            MoveType::Right => Point(1, 0),
            MoveType::Left => Point(-1, 0),
        }
    }
}

/// Every step is a unit vector along exactly one axis.
pub proof fn lemma_delta_is_unit(d: MoveType)
    ensures
        (delta(d).0 == 0) != (delta(d).1 == 0),
        delta(d).0 * delta(d).0 + delta(d).1 * delta(d).1 == 1,
{
}

/// Distinct directions have distinct steps, and the step of `e` is the
/// negation of the step of `d` exactly when `e` is the opposite of `d`;
/// so the directions pair up as Up/Down and Left/Right.
pub proof fn lemma_delta_pairs(d: MoveType, e: MoveType)
    ensures
        d != e ==> delta(d) != delta(e),
        delta(e) == negate(delta(d)) <==> e == opposite(d),
        opposite(opposite(d)) == d,
        opposite(d) != d,
{
}

/// Top-left screen corner of the square drawn for cell `p`, or `None` when
/// it lies beyond the screen coordinate range.
pub fn cell_origin(p: Point) -> (r: Option<(i32, i32)>)
    ensures
        r == (if fits_i32(p.0 * DOT_SIZE) && fits_i32(p.1 * DOT_SIZE) {
            Some(((p.0 * DOT_SIZE) as i32, (p.1 * DOT_SIZE) as i32))
        } else {
            None::<(i32, i32)>
        }),
{
    let size = DOT_SIZE as i32;
    match (p.0.checked_mul(size), p.1.checked_mul(size)) {
        (Some(x), Some(y)) => Some((x, y)),
        _ => None,
    }
}

pub open spec fn fits_i32(v: int) -> bool {
    i32::MIN <= v <= i32::MAX
}

} // verus!
