use vstd::prelude::*;
use crate::components::{Bundle, Record, Tags, Tiles, Usable};
use crate::geom::ShootingDir;

verus! {

/// An index into the world's component stores; never reused.
pub type EntityId = usize;

/// A deferred change to the set of entities.
#[derive(Debug)]
pub enum Command {
    Spawn(Bundle),
    Despawn(EntityId),
    RemoveMoveable(EntityId),
    InsertUsable(EntityId, Usable),
    InsertTiles(EntityId, Tiles),
    InsertShootingDir(EntityId, ShootingDir),
}

/// The buffer of commands issued during a pass; applied after it.
pub struct Commands {
    pub queue: Vec<Command>,
}

impl Commands {
    pub open spec fn view(&self) -> Seq<CommandModel> {
        self.queue@.map_values(|c: Command| c@)
    }

    pub fn new() -> (r: Commands)
        ensures
            r.view() == Seq::<CommandModel>::empty(),
    {
        Commands { queue: Vec::new() }
    }

    pub fn spawn(&mut self, b: Bundle)
        ensures
            final(self).view() == old(self).view().push(CommandModel::Spawn(b.record, b.tiles@)),
    {
        let ghost v = Command::Spawn(b)@;
        self.queue.push(Command::Spawn(b));
        assert(self.view() =~= old(self).view().push(v));
    }

    pub fn despawn(&mut self, id: EntityId)
        ensures
            final(self).view() == old(self).view().push(CommandModel::Despawn(id)),
    {
        self.queue.push(Command::Despawn(id));
        assert(self.view() =~= old(self).view().push(CommandModel::Despawn(id)));
    }

    pub fn push(&mut self, c: Command)
        ensures
            final(self).view() == old(self).view().push(c@),
    {
        let ghost v = c@;
        self.queue.push(c);
        assert(self.view() =~= old(self).view().push(v));
    }
}

/// The entities, as component stores indexed by `EntityId`.
pub struct World {
    pub records: Vec<Record>,
    pub tiles: Vec<Tiles>,
}

/// The world's contents: records and frame sequences.
pub type WorldModel = (Seq<Record>, Seq<Seq<u32>>);

/// A command with its frames as a sequence.
pub enum CommandModel {
    Spawn(Record, Seq<u32>),
    Despawn(EntityId),
    RemoveMoveable(EntityId),
    InsertUsable(EntityId, Usable),
    InsertTiles(EntityId, Seq<u32>),
    InsertShootingDir(EntityId, ShootingDir),
}

impl View for Command {
    type V = CommandModel;

    open spec fn view(&self) -> CommandModel {
        match self {
            Command::Spawn(b) => CommandModel::Spawn(b.record, b.tiles@),
            Command::Despawn(id) => CommandModel::Despawn(*id),
            Command::RemoveMoveable(id) => CommandModel::RemoveMoveable(*id),
            Command::InsertUsable(id, u) => CommandModel::InsertUsable(*id, *u),
            Command::InsertTiles(id, t) => CommandModel::InsertTiles(*id, t@),
            Command::InsertShootingDir(id, d) => CommandModel::InsertShootingDir(*id, *d),
        }
    }
}

/// What one command does to the world. Commands on a despawned entity,
/// or on one that never existed, change nothing.
pub open spec fn apply_command(w: WorldModel, c: CommandModel) -> WorldModel {
    let (rs, ts) = w;
    match c {
        CommandModel::Spawn(r, t) => (rs.push(r), ts.push(t)),
        CommandModel::Despawn(id) => if id < rs.len() {
            (rs.update(id as int, Record { alive: false, ..rs[id as int] }), ts)
        } else {
            w
        },
        CommandModel::RemoveMoveable(id) => if id < rs.len() && rs[id as int].alive {
            let r = rs[id as int];
            (rs.update(id as int, Record { tags: Tags { moveable: false, ..r.tags }, ..r }), ts)
        } else {
            w
        },
        CommandModel::InsertUsable(id, u) => if id < rs.len() && rs[id as int].alive {
            (rs.update(id as int, Record { usable: Some(u), ..rs[id as int] }), ts)
        } else {
            w
        },
        CommandModel::InsertTiles(id, t) => if id < rs.len() && rs[id as int].alive {
            (rs, ts.update(id as int, t))
        } else {
            w
        },
        CommandModel::InsertShootingDir(id, d) => if id < rs.len() && rs[id as int].alive {
            (rs.update(id as int, Record { shooting_dir: Some(d), ..rs[id as int] }), ts)
        } else {
            w
        },
    }
}

/// What a queue of commands does to the world, applied in order.
pub open spec fn apply_commands(w: WorldModel, cs: Seq<CommandModel>) -> WorldModel
    decreases cs.len(),
{
    if cs.len() == 0 {
        w
    } else {
        apply_command(apply_commands(w, cs.drop_last()), cs.last())
    }
}

/// Applying a queue with one more command applies that command last.
pub proof fn lemma_apply_push(w: WorldModel, cs: Seq<CommandModel>, c: CommandModel)
    ensures
        apply_commands(w, cs.push(c)) == apply_command(apply_commands(w, cs), c),
        apply_commands(w, Seq::empty()) == w,
{
    assert(cs.push(c).drop_last() =~= cs);
}

impl World {
    pub open spec fn wf(&self) -> bool {
        self.records@.len() == self.tiles@.len()
    }

    pub open spec fn model(&self) -> WorldModel {
        (self.records@, self.tiles@.map_values(|t: Tiles| t@))
    }

    pub fn new() -> (r: World)
        ensures
            r.wf(),
            r.records@.len() == 0,
    {
        World { records: Vec::new(), tiles: Vec::new() }
    }

    pub fn len(&self) -> (r: usize)
        requires
            self.wf(),
        ensures
            r == self.records@.len(),
    {
        self.records.len()
    }

    /// Spawns a bundle at once; its identifier is the store length before.
    pub fn spawn(&mut self, b: Bundle) -> (id: EntityId)
        requires
            old(self).wf(),
        ensures
            final(self).wf(),
            id == old(self).records@.len(),
            final(self).model() == apply_command(old(self).model(), CommandModel::Spawn(b.record, b.tiles@)),
    {
        let id = self.records.len();
        let ghost tb = b.tiles@;
        self.records.push(b.record);
        self.tiles.push(b.tiles);
        assert(self.model().1 =~= old(self).model().1.push(tb));
        id
    }

    /// Applies one command.
    pub fn apply_one(&mut self, c: Command)
        requires
            old(self).wf(),
        ensures
            final(self).wf(),
            final(self).model() == apply_command(old(self).model(), c@),
    {
        match c {
            Command::Spawn(b) => {
                self.spawn(b);
            },
            Command::Despawn(id) => {
                if id < self.records.len() {
                    let mut r = self.records[id];
                    r.alive = false;
                    self.records.set(id, r);
                }
            },
            Command::RemoveMoveable(id) => {
                if id < self.records.len() && self.records[id].alive {
                    let mut r = self.records[id];
                    r.tags.moveable = false;
                    self.records.set(id, r);
                }
            },
            Command::InsertUsable(id, u) => {
                if id < self.records.len() && self.records[id].alive {
                    let mut r = self.records[id];
                    r.usable = Some(u);
                    self.records.set(id, r);
                }
            },
            Command::InsertTiles(id, t) => {
                if id < self.records.len() && self.records[id].alive {
                    let ghost tv = t@;
                    self.tiles.set(id, t);
                    assert(self.model().1 =~= old(self).model().1.update(id as int, tv));
                }
            },
            Command::InsertShootingDir(id, d) => {
                if id < self.records.len() && self.records[id].alive {
                    let mut r = self.records[id];
                    r.shooting_dir = Some(d);
                    self.records.set(id, r);
                }
            },
        }
    }

    /// Applies the buffered commands in the order they were issued and
    /// empties the buffer.
    pub fn apply(&mut self, cmds: &mut Commands)
        requires
            old(self).wf(),
        ensures
            final(self).wf(),
            final(self).model() == apply_commands(old(self).model(), old(cmds).view()),
            final(cmds).view().len() == 0,
    {
        let ghost all = cmds.view();
        let mut rest: Vec<Command> = Vec::new();
        std::mem::swap(&mut rest, &mut cmds.queue);
        let n = rest.len();
        let mut done: usize = 0;
        let ghost w0 = self.model();
        while rest.len() > 0
            invariant
                self.wf(),
                all.len() == n,
                done + rest@.len() == all.len(),
                rest@.map_values(|c: Command| c@) == all.subrange(done as int, all.len() as int),
                self.model() == apply_commands(w0, all.subrange(0, done as int)),
                cmds.queue@.len() == 0,
            decreases rest@.len(),
        {
            let ghost before = rest@;
            assert(before.map_values(|c: Command| c@)[0] == all[done as int]);
            let c = rest.remove(0);
            assert(c@ == all[done as int]);
            self.apply_one(c);
            assert(rest@ =~= before.subrange(1, before.len() as int));
            assert(all.subrange(0, done + 1).drop_last() =~= all.subrange(0, done as int));
            done = done + 1;
            assert forall|j: int| 0 <= j < rest@.len() implies rest@.map_values(|c: Command| c@)[j]
                == all.subrange(done as int, all.len() as int)[j] by {
                assert(rest@[j] == before[j + 1]);
                assert(before.map_values(|c: Command| c@)[j + 1] == all[done + j]);
            }
            assert(rest@.map_values(|c: Command| c@) =~= all.subrange(done as int, all.len() as int));
        }
        assert(all.subrange(0, all.len() as int) =~= all);
    }
}

} // verus!
