use vstd::prelude::*;

verus! {

/// A cell of the board.
#[derive(Clone, Copy, Debug, PartialEq, Eq, Structural)]
pub struct Position {
    pub x: i32,
    pub y: i32,
}

/// A step vector; each component is -1, 0 or 1.
#[derive(Clone, Copy, Debug, PartialEq, Eq, Structural)]
pub struct MovingDir {
    pub dx: i32,
    pub dy: i32,
}

/// The direction in which a gun fires, as a step vector.
#[derive(Clone, Copy, Debug, PartialEq, Eq, Structural)]
pub struct ShootingDir {
    pub dir: MovingDir,
}

/// The step vector of a direction index: up, right, down, left.
pub open spec fn dir_of_index(index: int) -> (int, int) {
    if index == 0 {
        (0, -1)
    } else if index == 1 {
        (1, 0)
    } else if index == 2 {
        (0, 1)
    } else {
        (-1, 0)
    }
}

impl Position {
    pub fn new(x: i32, y: i32) -> (r: Position)
        ensures
            r.x == x && r.y == y,
    {
        Position { x, y }
    }

    /// The cell one step along `dir`.
    pub open spec fn spec_add(self, dir: MovingDir) -> Position {
        Position { x: (self.x + dir.dx) as i32, y: (self.y + dir.dy) as i32 }
    }

    pub fn add(&self, dir: &MovingDir) -> (r: Position)
        requires
            dir.wf(),
            i32::MIN < self.x < i32::MAX,
            i32::MIN < self.y < i32::MAX,
        ensures
            r == self.spec_add(*dir),
            r.x == self.x + dir.dx,
            r.y == self.y + dir.dy,
    {
        Position { x: self.x + dir.dx, y: self.y + dir.dy }
    }
}

impl MovingDir {
    pub open spec fn wf(self) -> bool {
        -1 <= self.dx <= 1 && -1 <= self.dy <= 1
    }

    pub open spec fn spec_is_empty(self) -> bool {
        self.dx == 0 && self.dy == 0
    }

    pub fn new(dx: i32, dy: i32) -> (r: MovingDir)
        requires
            -1 <= dx <= 1,
            -1 <= dy <= 1,
        ensures
            r.dx == dx && r.dy == dy,
            r.wf(),
    {
        MovingDir { dx, dy }
    }

    pub fn zero() -> (r: MovingDir)
        ensures
            r.dx == 0 && r.dy == 0,
            r.wf(),
    {
        MovingDir { dx: 0, dy: 0 }
    }

    /// Direction 0..3 is up, right, down, left; any larger index is left.
    pub fn by_index(index: usize) -> (r: MovingDir)
        ensures
            (r.dx as int, r.dy as int) == dir_of_index(index as int),
            r.wf(),
            !r.spec_is_empty(),
    {
        if index == 0 {
            MovingDir { dx: 0, dy: -1 }
        } else if index == 1 {
            MovingDir { dx: 1, dy: 0 }
        } else if index == 2 {
            MovingDir { dx: 0, dy: 1 }
        } else {
            MovingDir { dx: -1, dy: 0 }
        }
    }

    pub fn x(&self) -> (r: i32)
        ensures
            r == self.dx,
    {
        self.dx
    }

    pub fn y(&self) -> (r: i32)
        ensures
            r == self.dy,
    {
        self.dy
    }

    pub fn is_empty(&self) -> (r: bool)
        ensures
            r == self.spec_is_empty(),
    {
        self.dx == 0 && self.dy == 0
    }
}

/// The direction index of a step vector: the inverse of `dir_of_index` on
/// the four unit vectors; every other vector maps to 3.
pub open spec fn index_of_dir(dx: int, dy: int) -> int {
    if dx == 0 && dy == -1 {
        0
    } else if dx == 1 && dy == 0 {
        1
    } else if dx == 0 && dy == 1 {
        2
    } else {
        3
    }
}

impl ShootingDir {
    pub fn by_index(index: usize) -> (r: ShootingDir)
        ensures
            (r.dir.dx as int, r.dir.dy as int) == dir_of_index(index as int),
            r.dir.wf(),
    {
        ShootingDir { dir: MovingDir::by_index(index) }
    }

    pub fn to_index(&self) -> (r: usize)
        ensures
            r == index_of_dir(self.dir.dx as int, self.dir.dy as int),
            r < 4,
    {
        if self.dir.dx == 0 && self.dir.dy == -1 {
            0
        } else if self.dir.dx == 1 && self.dir.dy == 0 {
            1
        } else if self.dir.dx == 0 && self.dir.dy == 1 {
            2
        } else {
            3
        }
    }
}

} // verus!
