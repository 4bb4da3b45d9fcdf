use vstd::prelude::*;
use crate::board::{Board, lemma_index_in_area};
use crate::components::Record;
use crate::geom::Position;
use crate::occupancy::{injective, Occupied};
use crate::world::{apply_commands, CommandModel, EntityId, World, WorldModel};

verus! {

/// The entities that the occupancy index holds, built in store order: a
/// later entity on a cell replaces an earlier one. Walls, despawned
/// entities and entities without a cell on the board are left out.
pub open spec fn index_of(b: Board, rs: Seq<Record>) -> Map<Position, EntityId>
    decreases rs.len(),
{
    if rs.len() == 0 {
        Map::empty()
    } else {
        let m = index_of(b, rs.drop_last());
        let r = rs.last();
        if r.alive && !r.tags.wall && r.position.is_some() && b.contains(r.position.unwrap()) {
            m.insert(r.position.unwrap(), (rs.len() - 1) as EntityId)
        } else {
            m
        }
    }
}

/// The index built from a world holds each entity at one cell at most, and
/// only entities of that world.
pub proof fn lemma_index_of_injective(b: Board, rs: Seq<Record>)
    requires
        rs.len() <= usize::MAX,
    ensures
        injective(index_of(b, rs)),
        forall|p: Position| #[trigger] index_of(b, rs).contains_key(p) ==> index_of(b, rs)[p] < rs.len(),
    decreases rs.len(),
{
    if rs.len() > 0 {
        lemma_index_of_injective(b, rs.drop_last());
        let m = index_of(b, rs.drop_last());
        let r = index_of(b, rs);
        assert forall|p: Position, q: Position|
            #![trigger r[p], r[q]]
            r.contains_key(p) && r.contains_key(q) && r[p] == r[q] implies p == q by {
            let last = rs.last();
            if last.alive && !last.tags.wall && last.position.is_some() && b.contains(
                last.position.unwrap(),
            ) {
                let k = last.position.unwrap();
                assert(r == m.insert(k, (rs.len() - 1) as EntityId));
                if p != k && q != k {
                    assert(m[p] == r[p] && m[q] == r[q]);
                } else if p == k && q != k {
                    assert(m.contains_key(q) && m[q] == r[q]);
                    assert(m[q] < rs.drop_last().len());
                } else if q == k && p != k {
                    assert(m.contains_key(p) && m[p] == r[p]);
                    assert(m[p] < rs.drop_last().len());
                }
            } else {
                assert(r == m);
            }
        }
    }
}

/// The static geometry of the current level and what it asks of the player.
pub struct LevelInfo {
    pub board: Board,
    pub screws: usize,
    pub walls: Vec<bool>,
}

impl LevelInfo {
    pub open spec fn wf(&self) -> bool {
        self.board.wf() && self.walls@.len() == self.board.area()
    }

    pub open spec fn is_wall(&self, p: Position) -> bool {
        !self.board.contains(p) || self.walls@[self.board.index(p)]
    }

    /// A live entity with a cell stands on the board, and its moving
    /// direction, if any, is a unit step or zero.
    pub open spec fn record_holds(&self, r: Record) -> bool {
        r.alive ==> {
            &&& (r.position.is_some() ==> self.board.contains(r.position.unwrap()))
            &&& (r.moving_dir.is_some() ==> r.moving_dir.unwrap().wf())
        }
    }

    /// Every live entity stands on the board and steps by at most one cell.
    pub open spec fn holds(&self, rs: Seq<Record>) -> bool {
        forall|i: int| 0 <= i < rs.len() ==> #[trigger] self.record_holds(rs[i])
    }

    /// Every entity that the commands spawn meets `record_holds`.
    pub open spec fn spawns_hold(&self, cs: Seq<CommandModel>) -> bool {
        forall|k: int|
            0 <= k < cs.len() && (#[trigger] cs[k]) is Spawn ==> self.record_holds(cs[k]->Spawn_0)
    }

    /// Applying commands whose spawns meet `record_holds` to a world that
    /// `holds` gives a world that `holds`.
    pub proof fn lemma_apply_holds(&self, w: WorldModel, cs: Seq<CommandModel>)
        requires
            self.holds(w.0),
            self.spawns_hold(cs),
        ensures
            self.holds(apply_commands(w, cs).0),
        decreases cs.len(),
    {
        if cs.len() > 0 {
            let init = cs.drop_last();
            assert forall|k: int| 0 <= k < init.len() && (#[trigger] init[k]) is Spawn implies self.record_holds(
                init[k]->Spawn_0,
            ) by {
                assert(init[k] == cs[k]);
            }
            self.lemma_apply_holds(w, init);
            let before = apply_commands(w, init);
            let after = apply_commands(w, cs);
            assert(cs[cs.len() - 1] == cs.last());
            assert forall|i: int| 0 <= i < after.0.len() implies #[trigger] self.record_holds(after.0[i]) by {
                if i < before.0.len() {
                    assert(self.record_holds(before.0[i]));
                }
            }
        }
    }

    /// A level without walls.
    pub fn new(board: Board, screws: usize) -> (r: LevelInfo)
        requires
            board.wf(),
        ensures
            r.wf(),
            r.board == board,
            r.screws == screws,
            forall|p: Position| board.contains(p) ==> !r.is_wall(p),
    {
        let n = board.cells();
        let mut walls: Vec<bool> = Vec::new();
        let mut i: usize = 0;
        while i < n
            invariant
                n == board.area(),
                i <= n,
                walls@.len() == i,
                forall|j: int| 0 <= j < i ==> !walls@[j],
            decreases n - i,
        {
            walls.push(false);
            i = i + 1;
        }
        let r = LevelInfo { board, screws, walls };
        assert forall|p: Position| board.contains(p) implies !r.is_wall(p) by {
            lemma_index_in_area(board, p);
        }
        r
    }

    /// Marks `p` as a wall of the level geometry.
    pub fn add_wall(&mut self, p: &Position)
        requires
            old(self).wf(),
            old(self).board.contains(*p),
        ensures
            final(self).wf(),
            final(self).board == old(self).board,
            final(self).screws == old(self).screws,
            final(self).walls@ == old(self).walls@.update(old(self).board.index(*p), true),
            final(self).is_wall(*p),
    {
        let k = self.board.index_exec(p);
        self.walls.set(k, true);
    }

    /// Checks `holds` at run time, for callers outside the verified code.
    pub fn holds_for(&self, world: &World) -> (r: bool)
        requires
            self.wf(),
        ensures
            r == self.holds(world.records@),
    {
        let n = world.records.len();
        let mut i: usize = 0;
        while i < n
            invariant
                n == world.records@.len(),
                i <= n,
                forall|j: int| 0 <= j < i ==> #[trigger] self.record_holds(world.records@[j]),
            decreases n - i,
        {
            let r = world.records[i];
            if r.alive {
                match r.position {
                    Some(p) => {
                        if !self.board.contains_exec(&p) {
                            assert(!self.record_holds(world.records@[i as int]));
                            return false;
                        }
                    },
                    None => {},
                }
                match r.moving_dir {
                    Some(d) => {
                        if !(-1 <= d.dx && d.dx <= 1 && -1 <= d.dy && d.dy <= 1) {
                            assert(!self.record_holds(world.records@[i as int]));
                            return false;
                        }
                    },
                    None => {},
                }
            }
            i = i + 1;
        }
        true
    }

    /// Builds this tick's occupancy index from the level's walls and the
    /// world's non-wall entities.
    pub fn get_occupied(&self, world: &World) -> (r: Occupied)
        requires
            self.wf(),
        ensures
            r.wf(),
            r.board == self.board,
            r.walls@ == self.walls@,
            r.view() == index_of(self.board, world.records@),
            injective(r.view()),
    {
        let mut occ = Occupied::empty(self.board, &self.walls);
        let n = world.records.len();
        let mut i: usize = 0;
        while i < n
            invariant
                n == world.records@.len(),
                i <= n,
                occ.wf(),
                occ.board == self.board,
                occ.walls@ == self.walls@,
                occ.view() == index_of(self.board, world.records@.subrange(0, i as int)),
            decreases n - i,
        {
            let r = world.records[i];
            assert(world.records@.subrange(0, i + 1).drop_last() =~= world.records@.subrange(0, i as int));
            if r.alive && !r.tags.wall {
                match r.position {
                    Some(p) => {
                        if self.board.contains_exec(&p) {
                            occ.insert(&p, i);
                        }
                    },
                    None => {},
                }
            }
            i = i + 1;
        }
        assert(world.records@.subrange(0, n as int) =~= world.records@);
        proof {
            lemma_index_of_injective(self.board, world.records@);
        }
        occ
    }
}

} // verus!
