use vstd::prelude::*;
use crate::components::{Kind, Record};
use crate::entities::{repair_capsule, repair_commands};
use crate::frame_cnt::FrameCnt;
use crate::level::LevelInfo;
use crate::world::{lemma_apply_push, CommandModel, Commands, World};

verus! {

/// An audio cue for the sound layer.
#[derive(Clone, Copy, Debug, PartialEq, Eq, Structural)]
pub enum Sound {
    Bomb,
}

/// What the player has collected.
pub struct Inventory {
    pub screws: usize,
}

/// A capsule that has not been made usable yet.
pub open spec fn is_inert_capsule(r: Record) -> bool {
    r.alive && r.kind == Kind::Capsule && r.usable.is_none()
}

/// The commands and cues of a capsule pass over the first `n` records: each
/// inert capsule is repaired, with one cue, once the player holds at least
/// `need` screws.
pub open spec fn capsule_pass(
    rs: Seq<Record>,
    have: nat,
    need: nat,
    s: (Seq<CommandModel>, Seq<Sound>),
    n: int,
) -> (Seq<CommandModel>, Seq<Sound>)
    decreases n,
{
    if n <= 0 {
        s
    } else {
        let p = capsule_pass(rs, have, need, s, n - 1);
        if is_inert_capsule(rs[n - 1]) && have >= need {
            (p.0 + repair_commands((n - 1) as usize), p.1.push(Sound::Bomb))
        } else {
            p
        }
    }
}

/// On a keyframe, repairs every inert capsule once enough screws are held.
pub fn activate_capsule_system(
    commands: &mut Commands,
    frame_cnt: &FrameCnt,
    inventory: &Inventory,
    level: &LevelInfo,
    sounds: &mut Vec<Sound>,
    world: &World,
)
    ensures
        level.spawns_hold(old(commands).view()) ==> level.spawns_hold(final(commands).view()),
        !frame_cnt.spec_is_keyframe() ==> final(commands).view() == old(commands).view()
            && final(sounds)@ == old(sounds)@,
        frame_cnt.spec_is_keyframe() ==> (final(commands).view(), final(sounds)@) == capsule_pass(
            world.records@,
            inventory.screws as nat,
            level.screws as nat,
            (old(commands).view(), old(sounds)@),
            world.records@.len() as int,
        ),
{
    if !frame_cnt.is_keyframe() {
        return;
    }
    let n = world.records.len();
    let mut i: usize = 0;
    while i < n
        invariant
            i <= n,
            n == world.records@.len(),
            (commands.view(), sounds@) == capsule_pass(
                world.records@,
                inventory.screws as nat,
                level.screws as nat,
                (old(commands).view(), old(sounds)@),
                i as int,
            ),
            level.spawns_hold(old(commands).view()) ==> level.spawns_hold(commands.view()),
        decreases n - i,
    {
        let r = world.records[i];
        if r.alive && r.kind == Kind::Capsule && r.usable.is_none() {
            if inventory.screws >= level.screws {
                let ghost before = commands.view();
                repair_capsule(commands, i);
                proof {
                    if level.spawns_hold(before) {
                        assert forall|k: int|
                            0 <= k < commands.view().len() && (#[trigger] commands.view()[k]) is Spawn implies level.record_holds(
                            commands.view()[k]->Spawn_0,
                        ) by {
                            if k >= before.len() {
                                let j = k - before.len();
                                assert(commands.view()[k] == repair_commands(i)[j]);
                                assert(j == 0 || j == 1 || j == 2);
                                assert(!(repair_commands(i)[j] is Spawn));
                            } else {
                                assert(commands.view()[k] == before[k]);
                            }
                        }
                    }
                }
                sounds.push(Sound::Bomb);
            }
        }
        i = i + 1;
    }
}

/// One screw short of the level's requirement, a capsule pass issues no
/// command and no cue.
pub proof fn lemma_capsule_below_threshold(
    rs: Seq<Record>,
    need: nat,
    s: (Seq<CommandModel>, Seq<Sound>),
    n: int,
)
    requires
        need >= 1,
    ensures
        capsule_pass(rs, (need - 1) as nat, need, s, n) == s,
    decreases n,
{
    if n > 0 {
        lemma_capsule_below_threshold(rs, need, s, n - 1);
    }
}

/// With enough screws, the pass repairs an inert capsule exactly once:
/// its commands, applied to the world, make it usable as a capsule, fixed in
/// place, with its charged frames, and it is no longer inert.
pub proof fn lemma_capsule_activates(w: crate::world::WorldModel, i: int)
    requires
        0 <= i < w.0.len() <= usize::MAX,
        w.0.len() == w.1.len(),
        is_inert_capsule(w.0[i]),
    ensures
        ({
            let a = crate::world::apply_commands(w, repair_commands(i as usize));
            &&& a.0.len() == w.0.len()
            &&& a.0[i].usable == Some(crate::components::Usable::Capsule)
            &&& !a.0[i].tags.moveable
            &&& a.1[i] == crate::entities::charged_capsule_frames()
            &&& !is_inert_capsule(a.0[i])
        }),
{
    let id = i as usize;
    let c1 = CommandModel::RemoveMoveable(id);
    let c2 = CommandModel::InsertUsable(id, crate::components::Usable::Capsule);
    let c3 = CommandModel::InsertTiles(id, crate::entities::charged_capsule_frames());
    let z = Seq::<CommandModel>::empty();
    assert(repair_commands(id) =~= z.push(c1).push(c2).push(c3));
    lemma_apply_push(w, z, c1);
    lemma_apply_push(w, z.push(c1), c2);
    lemma_apply_push(w, z.push(c1).push(c2), c3);
}

/// Once usable, an entity stays usable under any commands: a repaired
/// capsule never turns inert again.
pub proof fn lemma_usable_stays(w: crate::world::WorldModel, cs: Seq<CommandModel>, i: int)
    requires
        0 <= i < w.0.len(),
        w.0[i].usable.is_some(),
    ensures
        i < crate::world::apply_commands(w, cs).0.len(),
        crate::world::apply_commands(w, cs).0[i].usable.is_some(),
    decreases cs.len(),
{
    if cs.len() > 0 {
        lemma_usable_stays(w, cs.drop_last(), i);
    }
}

} // verus!
