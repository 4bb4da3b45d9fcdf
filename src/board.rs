use vstd::prelude::*;
use crate::geom::Position;

verus! {

/// The largest board side that the grids accept.
pub const MAX_SIDE: i32 = 4096;

/// The extent of the board: cells `(x, y)` with `0 <= x < width`, `0 <= y < height`.
#[derive(Clone, Copy, Debug, PartialEq, Eq, Structural)]
pub struct Board {
    pub width: i32,
    pub height: i32,
}

impl Board {
    pub open spec fn wf(self) -> bool {
        0 < self.width <= MAX_SIDE && 0 < self.height <= MAX_SIDE
    }

    pub open spec fn contains(self, p: Position) -> bool {
        0 <= p.x < self.width && 0 <= p.y < self.height
    }

    pub open spec fn area(self) -> int {
        self.width * self.height
    }

    /// Row-major index of a cell.
    pub open spec fn index(self, p: Position) -> int {
        p.y * self.width + p.x
    }

    pub fn new(width: i32, height: i32) -> (r: Board)
        requires
            0 < width <= MAX_SIDE,
            0 < height <= MAX_SIDE,
        ensures
            r.width == width && r.height == height,
            r.wf(),
    {
        Board { width, height }
    }

    pub fn cells(&self) -> (r: usize)
        requires
            self.wf(),
        ensures
            r == self.area(),
    {
        proof {
            lemma_area_bound(self.width as int, self.height as int);
        }
        (self.width as usize) * (self.height as usize)
    }

    pub fn contains_exec(&self, p: &Position) -> (r: bool)
        ensures
            r == self.contains(*p),
    {
        0 <= p.x && p.x < self.width && 0 <= p.y && p.y < self.height
    }

    pub fn index_exec(&self, p: &Position) -> (r: usize)
        requires
            self.wf(),
            self.contains(*p),
        ensures
            r == self.index(*p),
            r < self.area(),
    {
        proof {
            lemma_index_in_area(*self, *p);
        }
        (p.y as usize) * (self.width as usize) + (p.x as usize)
    }
}

proof fn lemma_area_bound(w: int, h: int)
    requires
        0 < w <= MAX_SIDE,
        0 < h <= MAX_SIDE,
    ensures
        0 < w * h <= MAX_SIDE * MAX_SIDE,
{
    assert(0 < w * h <= MAX_SIDE * MAX_SIDE) by (nonlinear_arith)
        requires
            0 < w <= MAX_SIDE,
            0 < h <= MAX_SIDE,
    ;
}

/// A cell of the board has an index below the board's area.
pub proof fn lemma_index_in_area(b: Board, p: Position)
    requires
        b.wf(),
        b.contains(p),
    ensures
        0 <= b.index(p) < b.area(),
        b.area() <= MAX_SIDE * MAX_SIDE,
{
    let w = b.width as int;
    let h = b.height as int;
    let x = p.x as int;
    let y = p.y as int;
    assert(0 <= y * w + x < w * h) by (nonlinear_arith)
        requires
            0 <= x < w,
            0 <= y < h,
    ;
    lemma_area_bound(w, h);
}

/// Distinct cells of the board have distinct indices.
pub proof fn lemma_index_injective(b: Board, p: Position, q: Position)
    requires
        b.wf(),
        b.contains(p),
        b.contains(q),
        b.index(p) == b.index(q),
    ensures
        p == q,
{
    let w = b.width as int;
    let (px, py, qx, qy) = (p.x as int, p.y as int, q.x as int, q.y as int);
    assert(py == qy) by (nonlinear_arith)
        requires
            0 <= px < w,
            0 <= qx < w,
            py * w + px == qy * w + qx,
    {
        if py < qy {
            assert(py * w + w <= qy * w);
        } else if py > qy {
            assert(qy * w + w <= py * w);
        }
    }
}

} // verus!
