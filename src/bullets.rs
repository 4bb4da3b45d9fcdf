use vstd::prelude::*;
use crate::board::Board;
use crate::components::{Kind, Record};
use crate::damage::{spec_do_damage, DamageMap};
use crate::entities::{animation_record, create_small_explosion, small_explosion_frames};
use crate::frame_cnt::FrameCnt;
use crate::geom::MovingDir;
use crate::level::{index_of, LevelInfo};
use crate::occupancy::{occupied_in, spec_mv, PassState};
use crate::world::{lemma_apply_push, CommandModel, Commands, EntityId, World};

verus! {

/// One bullet's keyframe: into a free cell it moves by its direction; into
/// an occupied one it stops, is despawned, leaves a small explosion where it
/// stood and marks the target cell with soft damage.
pub open spec fn bullet_step(b: Board, walls: Seq<bool>, s: PassState, i: int) -> PassState {
    let (rs, occ, dmg, cs) = s;
    let r = rs[i];
    if r.alive && r.kind == Kind::Bullet && r.position.is_some() && r.moving_dir.is_some() {
        let pos = r.position.unwrap();
        let np = pos.spec_add(r.moving_dir.unwrap());
        if occupied_in(b, walls, occ, np) {
            (
                rs.update(i, Record { moving_dir: Some(MovingDir { dx: 0, dy: 0 }), ..r }),
                occ,
                spec_do_damage(dmg, b, np, false),
                cs.push(CommandModel::Despawn(i as EntityId)).push(
                    CommandModel::Spawn(
                        Record { position: Some(pos), ..animation_record(None) },
                        small_explosion_frames(),
                    ),
                ),
            )
        } else {
            (rs.update(i, Record { position: Some(np), ..r }), spec_mv(occ, b, pos, np), dmg, cs)
        }
    } else {
        s
    }
}

/// The bullets among the first `n` entities, stepped in store order.
pub open spec fn bullet_pass(b: Board, walls: Seq<bool>, s: PassState, n: int) -> PassState
    decreases n,
{
    if n <= 0 {
        s
    } else {
        bullet_step(b, walls, bullet_pass(b, walls, s, n - 1), n - 1)
    }
}

/// Moves every bullet one step on a keyframe; does nothing otherwise.
pub fn move_bullet(
    commands: &mut Commands,
    frame_cnt: &FrameCnt,
    level: &LevelInfo,
    damage_map: &mut DamageMap,
    world: &mut World,
)
    requires
        level.wf(),
        old(world).wf(),
        level.holds(old(world).records@),
        old(damage_map).wf(),
        old(damage_map).board == level.board,
    ensures
        final(world).wf(),
        level.holds(final(world).records@),
        level.spawns_hold(old(commands).view()) ==> level.spawns_hold(final(commands).view()),
        final(damage_map).wf(),
        final(damage_map).board == level.board,
        final(world).tiles@ == old(world).tiles@,
        !frame_cnt.spec_is_keyframe() ==> final(world).records@ == old(world).records@
            && final(damage_map).view() == old(damage_map).view() && final(commands).view() == old(
            commands,
        ).view(),
        frame_cnt.spec_is_keyframe() ==> ({
            let s = bullet_pass(
                level.board,
                level.walls@,
                (
                    old(world).records@,
                    index_of(level.board, old(world).records@),
                    old(damage_map).view(),
                    old(commands).view(),
                ),
                old(world).records@.len() as int,
            );
            final(world).records@ == s.0 && final(damage_map).view() == s.2 && final(commands).view()
                == s.3
        }),
{
    if !frame_cnt.is_keyframe() {
        return;
    }
    let mut occupied = level.get_occupied(world);
    let n = world.records.len();
    let ghost s0 = (world.records@, occupied.view(), damage_map.view(), commands.view());
    let mut i: usize = 0;
    while i < n
        invariant
            level.wf(),
            i <= n,
            n == world.records@.len(),
            world.wf(),
            world.tiles@ == old(world).tiles@,
            level.holds(world.records@),
            level.spawns_hold(old(commands).view()) ==> level.spawns_hold(commands.view()),
            occupied.wf(),
            occupied.board == level.board,
            occupied.walls@ == level.walls@,
            damage_map.wf(),
            damage_map.board == level.board,
            (world.records@, occupied.view(), damage_map.view(), commands.view()) == bullet_pass(
                level.board,
                level.walls@,
                s0,
                i as int,
            ),
        decreases n - i,
    {
        let r = world.records[i];
        assert(level.record_holds(world.records@[i as int]));
        if r.alive && r.kind == Kind::Bullet {
            match (r.position, r.moving_dir) {
                (Some(pos), Some(dir)) => {
                    let new_pos = pos.add(&dir);
                    if occupied.is_occupied(&new_pos) {
                        let mut r2 = r;
                        r2.moving_dir = Some(MovingDir::zero());
                        world.records.set(i, r2);
                        commands.despawn(i);
                        commands.spawn(create_small_explosion().with_position(pos));
                        damage_map.do_damage(&new_pos, false);
                    } else {
                        occupied.mv(&pos, &new_pos);
                        let mut r2 = r;
                        r2.position = Some(new_pos);
                        world.records.set(i, r2);
                    }
                },
                _ => {},
            }
        }
        i = i + 1;
    }
}

/// A bullet whose next cell is occupied is gone after one keyframe: its
/// step issues exactly a despawn of the bullet and a small explosion at the
/// cell it stood on, which applying those commands brings about; the bullet
/// itself does not move and its direction becomes zero.
pub proof fn lemma_bullet_blocked(b: Board, walls: Seq<bool>, s: PassState, ts: Seq<Seq<u32>>, i: int)
    requires
        0 <= i < s.0.len() <= usize::MAX,
        ts.len() == s.0.len(),
        s.0[i].alive,
        s.0[i].kind == Kind::Bullet,
        s.0[i].position.is_some(),
        s.0[i].moving_dir.is_some(),
        occupied_in(b, walls, s.1, s.0[i].position.unwrap().spec_add(s.0[i].moving_dir.unwrap())),
    ensures
        ({
            let pos = s.0[i].position.unwrap();
            let r = bullet_step(b, walls, s, i);
            let explosion = Record { position: Some(pos), ..animation_record(None) };
            let issued = seq![
                CommandModel::Despawn(i as EntityId),
                CommandModel::Spawn(explosion, small_explosion_frames()),
            ];
            let w = crate::world::apply_commands((r.0, ts), issued);
            &&& r.3 == s.3 + issued
            &&& r.0[i].position == Some(pos)
            &&& r.0[i].moving_dir == Some(MovingDir { dx: 0, dy: 0 })
            &&& !w.0[i].alive
            &&& w.0.len() == s.0.len() + 1
            &&& w.0.last() == explosion
            &&& w.1.last() == small_explosion_frames()
        }),
{
    let pos = s.0[i].position.unwrap();
    let r = bullet_step(b, walls, s, i);
    let explosion = Record { position: Some(pos), ..animation_record(None) };
    let issued = seq![
        CommandModel::Despawn(i as EntityId),
        CommandModel::Spawn(explosion, small_explosion_frames()),
    ];
    assert(r.3 =~= s.3 + issued);
    let e = Seq::<CommandModel>::empty();
    assert(issued =~= e.push(CommandModel::Despawn(i as EntityId)).push(
        CommandModel::Spawn(explosion, small_explosion_frames()),
    ));
    lemma_apply_push((r.0, ts), e, CommandModel::Despawn(i as EntityId));
    lemma_apply_push(
        (r.0, ts),
        e.push(CommandModel::Despawn(i as EntityId)),
        CommandModel::Spawn(explosion, small_explosion_frames()),
    );
}

/// A bullet whose next cell is free moves by exactly its direction, keeps
/// it, and issues nothing.
pub proof fn lemma_bullet_flies(b: Board, walls: Seq<bool>, s: PassState, i: int)
    requires
        0 <= i < s.0.len(),
        s.0[i].alive,
        s.0[i].kind == Kind::Bullet,
        s.0[i].position.is_some(),
        s.0[i].moving_dir.is_some(),
        !occupied_in(b, walls, s.1, s.0[i].position.unwrap().spec_add(s.0[i].moving_dir.unwrap())),
    ensures
        ({
            let pos = s.0[i].position.unwrap();
            let dir = s.0[i].moving_dir.unwrap();
            let r = bullet_step(b, walls, s, i);
            &&& r.0[i].position == Some(pos.spec_add(dir))
            &&& r.0[i].moving_dir == Some(dir)
            &&& r.2 == s.2
            &&& r.3 == s.3
        }),
{
}

} // verus!
