use vstd::prelude::*;
use crate::blasters::{blaster_pass, move_blaster_head};
use crate::bullets::{bullet_pass, move_bullet};
use crate::capsules::{activate_capsule_system, capsule_pass, Inventory, Sound};
use crate::damage::DamageMap;
use crate::frame_cnt::FrameCnt;
use crate::geom::Position;
use crate::level::{index_of, LevelInfo};
use crate::push_boxes::{move_pushbox, push_box_pass};
use crate::world::{apply_commands, CommandModel, Commands, World, WorldModel};

verus! {

/// The world, cues and ledger after one keyframe: bullets, then push boxes,
/// then blaster heads, then capsules, each seeing the moves committed
/// before it; the commands they issue are applied at the end, in order.
pub open spec fn keyframe_result(
    level: &LevelInfo,
    w: WorldModel,
    screws: nat,
    sounds: Seq<Sound>,
) -> (WorldModel, Seq<Sound>, Map<Position, bool>) {
    let b = level.board;
    let walls = level.walls@;
    let n = w.0.len() as int;
    let s1 = bullet_pass(b, walls, (w.0, index_of(b, w.0), Map::empty(), Seq::empty()), n);
    let s2 = push_box_pass(b, walls, (s1.0, index_of(b, s1.0), s1.2, Seq::empty()), n);
    let s3 = blaster_pass(b, walls, (s2.0, index_of(b, s2.0), Map::empty(), s1.3), n);
    let c = capsule_pass(s3.0, screws, level.screws as nat, (s3.3, sounds), n);
    (apply_commands((s3.0, w.1), c.0), c.1, s2.2)
}

/// The state the tick driver owns and lends to one system at a time.
pub struct Game {
    pub world: World,
    pub level: LevelInfo,
    pub damage: DamageMap,
    pub frames: FrameCnt,
    pub inventory: Inventory,
    pub sounds: Vec<Sound>,
}

impl Game {
    pub open spec fn wf(&self) -> bool {
        &&& self.level.wf()
        &&& self.world.wf()
        &&& self.level.holds(self.world.records@)
        &&& self.damage.wf()
        &&& self.damage.board == self.level.board
        &&& self.frames.wf()
    }

    /// A game on an empty world.
    pub fn new(level: LevelInfo, key_frame_interval: u32) -> (r: Game)
        requires
            level.wf(),
            key_frame_interval > 0,
        ensures
            r.wf(),
            r.world.records@.len() == 0,
            r.frames.interval == key_frame_interval,
            r.inventory.screws == 0,
    {
        let board = level.board;
        Game {
            world: World::new(),
            level,
            damage: DamageMap::new(board),
            frames: FrameCnt::new(key_frame_interval),
            inventory: Inventory { screws: 0 },
            sounds: Vec::new(),
        }
    }

    /// One frame. The damage ledger starts empty; on a keyframe the systems
    /// run in their fixed order and their commands are applied after them;
    /// off a keyframe the world does not change. Then the counter advances.
    pub fn frame(&mut self)
        requires
            old(self).wf(),
        ensures
            final(self).wf(),
            final(self).level == old(self).level,
            final(self).inventory == old(self).inventory,
            final(self).frames.interval == old(self).frames.interval,
            final(self).frames.phase == (if old(self).frames.phase + 1 == old(self).frames.interval {
                0
            } else {
                old(self).frames.phase + 1
            }),
            !old(self).frames.spec_is_keyframe() ==> final(self).world.model() == old(self).world.model()
                && final(self).sounds@ == old(self).sounds@ && final(self).damage.view()
                == Map::<Position, bool>::empty(),
            old(self).frames.spec_is_keyframe() ==> ({
                let r = keyframe_result(
                    &old(self).level,
                    old(self).world.model(),
                    old(self).inventory.screws as nat,
                    old(self).sounds@,
                );
                final(self).world.model() == r.0 && final(self).sounds@ == r.1
                    && final(self).damage.view() == r.2
            }),
    {
        self.damage.clear();
        let mut commands = Commands::new();
        move_bullet(&mut commands, &self.frames, &self.level, &mut self.damage, &mut self.world);
        move_pushbox(&self.frames, &self.level, &mut self.damage, &mut self.world);
        move_blaster_head(&mut commands, &self.frames, &self.level, &mut self.world);
        activate_capsule_system(
            &mut commands,
            &self.frames,
            &self.inventory,
            &self.level,
            &mut self.sounds,
            &self.world,
        );
        proof {
            self.level.lemma_apply_holds(self.world.model(), commands.view());
            if !self.frames.spec_is_keyframe() {
                assert(commands.view() =~= Seq::<CommandModel>::empty());
            }
        }
        self.world.apply(&mut commands);
        self.frames.tick();
    }
}

} // verus!
