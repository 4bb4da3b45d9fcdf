use vstd::prelude::*;
use crate::board::{Board, lemma_index_in_area, lemma_index_injective};
use crate::geom::Position;
use crate::world::EntityId;

verus! {

/// What `mv` does to an occupancy map: the occupant of `from`, if any,
/// now stands at `to` (or leaves the index when `to` is off the board).
pub open spec fn spec_mv(m: Map<Position, EntityId>, b: Board, from: Position, to: Position) -> Map<
    Position,
    EntityId,
> {
    if m.contains_key(from) {
        if b.contains(to) {
            m.remove(from).insert(to, m[from])
        } else {
            m.remove(from)
        }
    } else {
        m
    }
}

/// Per-tick lookup from a cell to the entity standing on it, beside the
/// level's static walls. Each cell holds at most one entity.
pub struct Occupied {
    pub board: Board,
    pub walls: Vec<bool>,
    pub cells: Vec<Option<EntityId>>,
}

impl Occupied {
    pub open spec fn wf(&self) -> bool {
        &&& self.board.wf()
        &&& self.walls@.len() == self.board.area()
        &&& self.cells@.len() == self.board.area()
    }

    pub open spec fn occupant(&self, p: Position) -> Option<EntityId> {
        if self.board.contains(p) {
            self.cells@[self.board.index(p)]
        } else {
            None
        }
    }

    /// The entities of the index, by cell.
    pub open spec fn view(&self) -> Map<Position, EntityId> {
        Map::new(|p: Position| self.occupant(p).is_some(), |p: Position| self.occupant(p).unwrap())
    }

    /// Cells off the board count as walls.
    pub open spec fn is_wall(&self, p: Position) -> bool {
        !self.board.contains(p) || self.walls@[self.board.index(p)]
    }

    pub open spec fn spec_is_occupied(&self, p: Position) -> bool {
        self.is_wall(p) || self.view().contains_key(p)
    }

    proof fn lemma_set_cell(old: &Occupied, new: &Occupied, k: Position, v: Option<EntityId>)
        requires
            old.wf(),
            old.board.contains(k),
            new.board == old.board,
            new.cells@ == old.cells@.update(old.board.index(k), v),
        ensures
            new.view() == (match v {
                Some(e) => old.view().insert(k, e),
                None => old.view().remove(k),
            }),
    {
        lemma_index_in_area(old.board, k);
        assert forall|p: Position| old.board.contains(p) && p != k implies new.occupant(p)
            == old.occupant(p) by {
            lemma_index_in_area(old.board, p);
            if old.board.index(p) == old.board.index(k) {
                lemma_index_injective(old.board, p, k);
            }
        }
        let target = match v {
            Some(e) => old.view().insert(k, e),
            None => old.view().remove(k),
        };
        assert(new.view() =~= target);
    }

    /// An index with the given walls and no entity.
    pub fn empty(board: Board, walls: &Vec<bool>) -> (r: Occupied)
        requires
            board.wf(),
            walls@.len() == board.area(),
        ensures
            r.wf(),
            r.board == board,
            r.walls@ == walls@,
            r.view() == Map::<Position, EntityId>::empty(),
    {
        let n = board.cells();
        let mut w: Vec<bool> = Vec::new();
        let mut cells: Vec<Option<EntityId>> = Vec::new();
        let mut i: usize = 0;
        while i < n
            invariant
                n == board.area(),
                walls@.len() == n,
                i <= n,
                w@ == walls@.subrange(0, i as int),
                cells@.len() == i,
                forall|j: int| 0 <= j < i ==> cells@[j].is_none(),
            decreases n - i,
        {
            w.push(walls[i]);
            cells.push(None);
            i = i + 1;
        }
        assert(w@ =~= walls@);
        let r = Occupied { board, walls: w, cells };
        assert forall|p: Position| r.board.contains(p) implies r.occupant(p).is_none() by {
            lemma_index_in_area(board, p);
        }
        assert(r.view() =~= Map::<Position, EntityId>::empty());
        r
    }

    /// Records `id` as the occupant of `p`, replacing any earlier one.
    pub fn insert(&mut self, p: &Position, id: EntityId)
        requires
            old(self).wf(),
            old(self).board.contains(*p),
        ensures
            final(self).wf(),
            final(self).board == old(self).board,
            final(self).walls@ == old(self).walls@,
            final(self).view() == old(self).view().insert(*p, id),
    {
        let k = self.board.index_exec(p);
        self.cells.set(k, Some(id));
        proof {
            Occupied::lemma_set_cell(old(self), self, *p, Some(id));
        }
    }

    pub fn is_occupied(&self, p: &Position) -> (r: bool)
        requires
            self.wf(),
        ensures
            r == self.spec_is_occupied(*p),
    {
        if !self.board.contains_exec(p) {
            return true;
        }
        let k = self.board.index_exec(p);
        self.walls[k] || self.cells[k].is_some()
    }

    /// The level's static wall at `p`; cells off the board count as walls.
    pub fn is_wall_exec(&self, p: &Position) -> (r: bool)
        requires
            self.wf(),
        ensures
            r == self.is_wall(*p),
    {
        if !self.board.contains_exec(p) {
            return true;
        }
        let k = self.board.index_exec(p);
        self.walls[k]
    }

    /// The occupant that `get_entity` reports at `p`.
    pub open spec fn get_entity_spec(&self, p: Position) -> Option<EntityId> {
        if self.view().contains_key(p) {
            Some(self.view()[p])
        } else {
            None
        }
    }

    pub fn get_entity(&self, p: &Position) -> (r: Option<EntityId>)
        requires
            self.wf(),
        ensures
            r == self.get_entity_spec(*p),
    {
        if !self.board.contains_exec(p) {
            return None;
        }
        let k = self.board.index_exec(p);
        self.cells[k]
    }

    /// Takes the occupant of `p` out of the index.
    pub fn remove(&mut self, p: &Position)
        requires
            old(self).wf(),
        ensures
            final(self).wf(),
            final(self).board == old(self).board,
            final(self).walls@ == old(self).walls@,
            final(self).view() == old(self).view().remove(*p),
            injective(old(self).view()) ==> injective(final(self).view()),
    {
        proof {
            if injective(self.view()) {
                lemma_remove_keeps_injective(self.view(), *p);
            }
        }
        if !self.board.contains_exec(p) {
            assert(self.view() =~= old(self).view().remove(*p));
            return;
        }
        let k = self.board.index_exec(p);
        self.cells.set(k, None);
        proof {
            Occupied::lemma_set_cell(old(self), self, *p, None);
        }
    }

    /// Moves the occupant of `from` to `to`, so that later queries in the
    /// same tick see the committed move.
    pub fn mv(&mut self, from: &Position, to: &Position)
        requires
            old(self).wf(),
        ensures
            final(self).wf(),
            final(self).board == old(self).board,
            final(self).walls@ == old(self).walls@,
            final(self).view() == spec_mv(old(self).view(), old(self).board, *from, *to),
            injective(old(self).view()) ==> injective(final(self).view()),
    {
        proof {
            if injective(self.view()) {
                lemma_mv_keeps_injective(self.view(), self.board, *from, *to);
            }
        }
        match self.get_entity(from) {
            None => {},
            Some(e) => {
                self.remove(from);
                if self.board.contains_exec(to) {
                    self.insert(to, e);
                }
            },
        }
    }
}

/// Each cell of an index has at most one occupant: two entities the
/// index reports at one cell are the same entity.
pub proof fn lemma_single_occupant(occ: &Occupied, p: Position, a: EntityId, b: EntityId)
    requires
        occ.wf(),
        occ.get_entity_spec(p) == Some(a),
        occ.get_entity_spec(p) == Some(b),
    ensures
        a == b,
{
}

/// No entity is indexed at two cells.
pub open spec fn injective(m: Map<Position, EntityId>) -> bool {
    forall|p: Position, q: Position|
        #![trigger m[p], m[q]]
        m.contains_key(p) && m.contains_key(q) && m[p] == m[q] ==> p == q
}

/// Moving an occupant keeps every entity at one cell at most, so a
/// sequence of `mv` and `remove` calls never indexes one entity twice.
pub proof fn lemma_mv_keeps_injective(m: Map<Position, EntityId>, b: Board, from: Position, to: Position)
    requires
        injective(m),
    ensures
        injective(spec_mv(m, b, from, to)),
{
    let r = spec_mv(m, b, from, to);
    assert forall|p: Position, q: Position|
        #![trigger r[p], r[q]]
        r.contains_key(p) && r.contains_key(q) && r[p] == r[q] implies p == q by {
        if m.contains_key(from) && b.contains(to) {
            if p != to && q != to {
                assert(m[p] == r[p] && m[q] == r[q]);
            } else if p == to && q != to {
                assert(m[q] == r[q] && m[from] == r[p]);
                assert(q != from);
            } else if q == to && p != to {
                assert(m[p] == r[p] && m[from] == r[q]);
                assert(p != from);
            }
        } else {
            assert(m[p] == r[p] && m[q] == r[q]);
        }
    }
}

/// Removing an occupant keeps the index injective.
pub proof fn lemma_remove_keeps_injective(m: Map<Position, EntityId>, p: Position)
    requires
        injective(m),
    ensures
        injective(m.remove(p)),
{
    let r = m.remove(p);
    assert forall|x: Position, y: Position|
        #![trigger r[x], r[y]]
        r.contains_key(x) && r.contains_key(y) && r[x] == r[y] implies x == y by {
        assert(m[x] == r[x] && m[y] == r[y]);
    }
}

} // verus!

verus! {

/// The state a behavior pass threads through its entities: the records,
/// the occupancy index, the damage ledger and the issued commands.
pub type PassState = (
    Seq<crate::components::Record>,
    Map<Position, EntityId>,
    Map<Position, bool>,
    Seq<crate::world::CommandModel>,
);

/// A cell is occupied when it is off the board, a wall of the level, or
/// holds an indexed entity.
pub open spec fn occupied_in(b: Board, walls: Seq<bool>, m: Map<Position, EntityId>, p: Position) -> bool {
    !b.contains(p) || walls[b.index(p)] || m.contains_key(p)
}

} // verus!
