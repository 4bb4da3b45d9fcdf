use vstd::prelude::*;
use crate::board::{Board, lemma_index_in_area, lemma_index_injective};
use crate::geom::Position;

verus! {

/// What `do_damage` does to a ledger: the cell is marked, and a hard mark
/// is never downgraded within the tick. Cells off the board are not kept.
pub open spec fn spec_do_damage(m: Map<Position, bool>, b: Board, p: Position, hard: bool) -> Map<
    Position,
    bool,
> {
    if b.contains(p) {
        m.insert(p, (m.contains_key(p) && m[p]) || hard)
    } else {
        m
    }
}

/// Cells damaged during the current tick; `true` marks hard damage.
pub struct DamageMap {
    pub board: Board,
    pub cells: Vec<Option<bool>>,
}

impl DamageMap {
    pub open spec fn wf(&self) -> bool {
        self.board.wf() && self.cells@.len() == self.board.area()
    }

    pub open spec fn mark(&self, p: Position) -> Option<bool> {
        if self.board.contains(p) {
            self.cells@[self.board.index(p)]
        } else {
            None
        }
    }

    pub open spec fn view(&self) -> Map<Position, bool> {
        Map::new(|p: Position| self.mark(p).is_some(), |p: Position| self.mark(p).unwrap())
    }

    pub fn new(board: Board) -> (r: DamageMap)
        requires
            board.wf(),
        ensures
            r.wf(),
            r.board == board,
            r.view() == Map::<Position, bool>::empty(),
    {
        let n = board.cells();
        let mut cells: Vec<Option<bool>> = Vec::new();
        let mut i: usize = 0;
        while i < n
            invariant
                n == board.area(),
                i <= n,
                cells@.len() == i,
                forall|j: int| 0 <= j < i ==> cells@[j].is_none(),
            decreases n - i,
        {
            cells.push(None);
            i = i + 1;
        }
        let r = DamageMap { board, cells };
        assert forall|p: Position| r.board.contains(p) implies r.mark(p).is_none() by {
            lemma_index_in_area(board, p);
        }
        assert(r.view() =~= Map::<Position, bool>::empty());
        r
    }

    /// Forgets every mark; done at the boundary between ticks.
    pub fn clear(&mut self)
        requires
            old(self).wf(),
        ensures
            final(self).wf(),
            final(self).board == old(self).board,
            final(self).view() == Map::<Position, bool>::empty(),
    {
        let b = self.board;
        *self = DamageMap::new(b);
    }

    pub fn do_damage(&mut self, p: &Position, hard: bool)
        requires
            old(self).wf(),
        ensures
            final(self).wf(),
            final(self).board == old(self).board,
            final(self).view() == spec_do_damage(old(self).view(), old(self).board, *p, hard),
    {
        if !self.board.contains_exec(p) {
            return;
        }
        let k = self.board.index_exec(p);
        let was_hard = match self.cells[k] {
            Some(h) => h,
            None => false,
        };
        self.cells.set(k, Some(was_hard || hard));
        proof {
            lemma_index_in_area(self.board, *p);
            assert forall|q: Position| self.board.contains(q) && q != *p implies self.mark(q) == old(
                self,
            ).mark(q) by {
                lemma_index_in_area(self.board, q);
                if self.board.index(q) == self.board.index(*p) {
                    lemma_index_injective(self.board, q, *p);
                }
            }
            assert(self.view() =~= spec_do_damage(old(self).view(), self.board, *p, hard));
        }
    }

    pub fn is_damaged(&self, p: &Position) -> (r: bool)
        requires
            self.wf(),
        ensures
            r == self.view().contains_key(*p),
    {
        if !self.board.contains_exec(p) {
            return false;
        }
        let k = self.board.index_exec(p);
        self.cells[k].is_some()
    }

    pub fn is_hard(&self, p: &Position) -> (r: bool)
        requires
            self.wf(),
        ensures
            r == (self.view().contains_key(*p) && self.view()[*p]),
    {
        if !self.board.contains_exec(p) {
            return false;
        }
        let k = self.board.index_exec(p);
        match self.cells[k] {
            Some(h) => h,
            None => false,
        }
    }
}

} // verus!
