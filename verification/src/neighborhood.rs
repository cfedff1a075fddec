//! The Moore neighborhood: the eight tiles surrounding a grid cell.

use vstd::prelude::*;

use crate::vector::Point;

verus! {

/// An enumeration representing the 8 possible neighbors in a Moore
/// neighborhood, in clockwise order starting from straight up (negative y).
#[derive(Debug, Clone, Copy, PartialEq, Eq, Structural, Hash)]
pub enum MooreNeighbor {
    Up,
    RightUp,
    Right,
    RightDown,
    Down,
    LeftDown,
    Left,
    LeftUp,
}

impl MooreNeighbor {
    /// The position of each neighbor in the clockwise enumeration order.
    pub open spec fn spec_index(self) -> int {
        match self {
            MooreNeighbor::Up => 0,
            MooreNeighbor::RightUp => 1,
            MooreNeighbor::Right => 2,
            MooreNeighbor::RightDown => 3,
            MooreNeighbor::Down => 4,
            MooreNeighbor::LeftDown => 5,
            MooreNeighbor::Left => 6,
            MooreNeighbor::LeftUp => 7,
        }
    }

    /// The neighbor at a given position of the enumeration order.
    pub open spec fn spec_from_index(idx: int) -> Option<MooreNeighbor> {
        if idx == 0 {
            Some(MooreNeighbor::Up)
        } else if idx == 1 {
            Some(MooreNeighbor::RightUp)
        } else if idx == 2 {
            Some(MooreNeighbor::Right)
        } else if idx == 3 {
            Some(MooreNeighbor::RightDown)
        } else if idx == 4 {
            Some(MooreNeighbor::Down)
        } else if idx == 5 {
            Some(MooreNeighbor::LeftDown)
        } else if idx == 6 {
            Some(MooreNeighbor::Left)
        } else if idx == 7 {
            Some(MooreNeighbor::LeftUp)
        } else {
            None
        }
    }

    /// The offset from a cell to this neighbor.
    pub open spec fn spec_offset(self) -> Point {
        match self {
            MooreNeighbor::LeftUp => Point { x: -1i32, y: -1i32 },
            MooreNeighbor::Up => Point { x: 0i32, y: -1i32 },
            MooreNeighbor::RightUp => Point { x: 1i32, y: -1i32 },
            MooreNeighbor::Right => Point { x: 1i32, y: 0i32 },
            MooreNeighbor::RightDown => Point { x: 1i32, y: 1i32 },
            MooreNeighbor::Down => Point { x: 0i32, y: 1i32 },
            MooreNeighbor::LeftDown => Point { x: -1i32, y: 1i32 },
            MooreNeighbor::Left => Point { x: -1i32, y: 0i32 },
        }
    }

    /// Returns the neighbor at position `int` of the enumeration order, or
    /// `None` past the end.
    pub fn from_index(index: usize) -> (r: Option<MooreNeighbor>)
        ensures
            r == MooreNeighbor::spec_from_index(index as int),
    {
        match index {
            0 => Some(MooreNeighbor::Up),
            1 => Some(MooreNeighbor::RightUp),
            2 => Some(MooreNeighbor::Right),
            3 => Some(MooreNeighbor::RightDown),
            4 => Some(MooreNeighbor::Down),
            5 => Some(MooreNeighbor::LeftDown),
            6 => Some(MooreNeighbor::Left),
            7 => Some(MooreNeighbor::LeftUp),
            _ => None,
        }
    }

    /// Returns the position of this neighbor in the enumeration order.
    pub fn to_index(self) -> (r: usize)
        ensures
            r == self.spec_index(),
    {
        match self {
            MooreNeighbor::Up => 0,
            MooreNeighbor::RightUp => 1,
            MooreNeighbor::Right => 2,
            MooreNeighbor::RightDown => 3,
            MooreNeighbor::Down => 4,
            MooreNeighbor::LeftDown => 5,
            MooreNeighbor::Left => 6,
            MooreNeighbor::LeftUp => 7,
        }
    }

    /// Calls the closure `f` once for each neighbor, in enumeration order.
    #[verifier::loop_isolation(false)]
    pub fn for_each<F: FnMut(MooreNeighbor)>(f: F)
        requires
            forall|cb: F, n: MooreNeighbor| #[trigger] call_requires(cb, (n,)),
    {
        let mut f = f;
        let mut idx: usize = 0;
        while idx < 8
            decreases 8 - idx,
        {
            match MooreNeighbor::from_index(idx) {
                Some(n) => f(n),
                None => (),
            }
            idx = idx + 1;
        }
    }

    /// Returns a vector of all neighbors, in enumeration order.
    pub fn all() -> (r: Vec<MooreNeighbor>)
        ensures
            r@.len() == 8,
            forall|i: int|
                0 <= i < 8 ==> Some(#[trigger] r@[i]) == MooreNeighbor::spec_from_index(i),
    {
        let mut res: Vec<MooreNeighbor> = Vec::new();
        let mut idx: usize = 0;
        while idx < 8
            invariant
                idx <= 8,
                res@.len() == idx,
                forall|i: int|
                    0 <= i < idx ==> Some(#[trigger] res@[i]) == MooreNeighbor::spec_from_index(i),
            decreases 8 - idx,
        {
            match MooreNeighbor::from_index(idx) {
                Some(n) => res.push(n),
                None => (),
            }
            idx = idx + 1;
        }
        res
    }

    /// Returns the neighbor on the diametrically opposite side.
    pub fn opposite(&self) -> (r: MooreNeighbor)
        ensures
            r.spec_index() == (self.spec_index() + 4) % 8,
    {
        let idx = (self.to_index() + 4) % 8;
        match MooreNeighbor::from_index(idx) {
            Some(n) => n,
            None => MooreNeighbor::Up,
        }
    }

    /// Returns the offset from the origin to the neighboring point.
    pub fn offset(&self) -> (r: Point)
        ensures
            r == self.spec_offset(),
    {
        let (dx, dy): (i32, i32) = match self {
            MooreNeighbor::LeftUp => (-1, -1),
            MooreNeighbor::Up => (0, -1),
            MooreNeighbor::RightUp => (1, -1),
            MooreNeighbor::Right => (1, 0),
            MooreNeighbor::RightDown => (1, 1),
            MooreNeighbor::Down => (0, 1),
            MooreNeighbor::LeftDown => (-1, 1),
            MooreNeighbor::Left => (-1, 0),
        };
        Point { x: dx, y: dy }
    }

    /// The index of each neighbor in a row-major 3x3 window whose center
    /// cell (index 4) has no neighbor.
    pub open spec fn spec_window_index(self) -> int {
        match self {
            MooreNeighbor::LeftUp => 0,
            MooreNeighbor::Up => 1,
            MooreNeighbor::RightUp => 2,
            MooreNeighbor::Left => 3,
            MooreNeighbor::Right => 5,
            MooreNeighbor::LeftDown => 6,
            MooreNeighbor::Down => 7,
            MooreNeighbor::RightDown => 8,
        }
    }

    /// Returns the index of this neighbor in a row-major 3x3 window.
    pub fn window_index(&self) -> (r: usize)
        ensures
            r == self.spec_window_index(),
    {
        match self {
            MooreNeighbor::LeftUp => 0,
            MooreNeighbor::Up => 1,
            MooreNeighbor::RightUp => 2,
            MooreNeighbor::Left => 3,
            MooreNeighbor::Right => 5,
            MooreNeighbor::LeftDown => 6,
            MooreNeighbor::Down => 7,
            MooreNeighbor::RightDown => 8,
        }
    }

    /// Returns the neighbor at the given index of a row-major 3x3 window, or
    /// `None` for the center cell and out-of-window indices.
    pub fn from_window_index(index: usize) -> (r: Option<MooreNeighbor>)
        ensures
            r matches Some(n) ==> n.spec_window_index() == index,
            r is None <==> index == 4 || index > 8,
    {
        match index {
            0 => Some(MooreNeighbor::LeftUp),
            1 => Some(MooreNeighbor::Up),
            2 => Some(MooreNeighbor::RightUp),
            3 => Some(MooreNeighbor::Left),
            5 => Some(MooreNeighbor::Right),
            6 => Some(MooreNeighbor::LeftDown),
            7 => Some(MooreNeighbor::Down),
            8 => Some(MooreNeighbor::RightDown),
            _ => None,
        }
    }
}

} // verus!
