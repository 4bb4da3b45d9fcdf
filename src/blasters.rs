use vstd::prelude::*;
use crate::board::Board;
use crate::components::{Kind, Record};
use crate::damage::DamageMap;
use crate::entities::{animation_record, blaster_tail_frames, create_blaster_tail};
use crate::frame_cnt::FrameCnt;
use crate::geom::Position;
use crate::level::{index_of, LevelInfo};
use crate::occupancy::{spec_mv, PassState};
use crate::world::{lemma_apply_push, CommandModel, Commands, EntityId, World};

verus! {

/// Cells off the board or on a wall of the level.
pub open spec fn wall_in(b: Board, walls: Seq<bool>, p: Position) -> bool {
    !b.contains(p) || walls[b.index(p)]
}

/// One blaster head's keyframe. Into a wall it is despawned. Into a cell
/// held by a destroyable entity it despawns that entity and takes its
/// place. Into a cell held by anything else it stays, and despawns the
/// entity indexed at its own cell. Into a free cell it advances. In every
/// case a tail animation is spawned at the cell it stood on.
pub open spec fn blaster_step(b: Board, walls: Seq<bool>, s: PassState, i: int) -> PassState {
    let (rs, occ, dmg, cs) = s;
    let r = rs[i];
    if r.alive && r.kind == Kind::BlasterHead && r.position.is_some() && r.moving_dir.is_some() {
        let pos = r.position.unwrap();
        let np = pos.spec_add(r.moving_dir.unwrap());
        let tail = CommandModel::Spawn(
            Record { position: Some(pos), ..animation_record(None) },
            blaster_tail_frames(),
        );
        if wall_in(b, walls, np) {
            (rs, occ, dmg, cs.push(CommandModel::Despawn(i as EntityId)).push(tail))
        } else if occ.contains_key(np) {
            let e = occ[np];
            if e < rs.len() && rs[e as int].tags.destroyable {
                (
                    rs.update(i, Record { position: Some(np), ..r }),
                    spec_mv(occ.remove(np), b, pos, np),
                    dmg,
                    cs.push(CommandModel::Despawn(e)).push(tail),
                )
            } else if occ.contains_key(pos) {
                (rs, occ, dmg, cs.push(CommandModel::Despawn(occ[pos])).push(tail))
            } else {
                (rs, occ, dmg, cs.push(tail))
            }
        } else {
            (rs.update(i, Record { position: Some(np), ..r }), spec_mv(occ, b, pos, np), dmg, cs.push(tail))
        }
    } else {
        s
    }
}

/// The blaster heads among the first `n` entities, stepped in store order.
pub open spec fn blaster_pass(b: Board, walls: Seq<bool>, s: PassState, n: int) -> PassState
    decreases n,
{
    if n <= 0 {
        s
    } else {
        blaster_step(b, walls, blaster_pass(b, walls, s, n - 1), n - 1)
    }
}

/// Advances every blaster head one step on a keyframe; does nothing
/// otherwise. This pass neither reads nor writes the damage ledger.
pub fn move_blaster_head(commands: &mut Commands, frame_cnt: &FrameCnt, level: &LevelInfo, world: &mut World)
    requires
        level.wf(),
        old(world).wf(),
        level.holds(old(world).records@),
    ensures
        final(world).wf(),
        level.holds(final(world).records@),
        level.spawns_hold(old(commands).view()) ==> level.spawns_hold(final(commands).view()),
        final(world).tiles@ == old(world).tiles@,
        !frame_cnt.spec_is_keyframe() ==> final(world).records@ == old(world).records@
            && final(commands).view() == old(commands).view(),
        frame_cnt.spec_is_keyframe() ==> ({
            let s = blaster_pass(
                level.board,
                level.walls@,
                (
                    old(world).records@,
                    index_of(level.board, old(world).records@),
                    Map::empty(),
                    old(commands).view(),
                ),
                old(world).records@.len() as int,
            );
            final(world).records@ == s.0 && final(commands).view() == s.3
        }),
{
    if !frame_cnt.is_keyframe() {
        return;
    }
    let mut occupied = level.get_occupied(world);
    let n = world.records.len();
    let ghost s0 = (world.records@, occupied.view(), Map::<Position, bool>::empty(), commands.view());
    let mut i: usize = 0;
    while i < n
        invariant
            level.wf(),
            i <= n,
            n == world.records@.len(),
            world.wf(),
            world.tiles@ == old(world).tiles@,
            level.holds(world.records@),
            level.spawns_hold(old(commands).view()) ==> level.spawns_hold(commands.view()),
            occupied.wf(),
            occupied.board == level.board,
            occupied.walls@ == level.walls@,
            (world.records@, occupied.view(), Map::<Position, bool>::empty(), commands.view())
                == blaster_pass(level.board, level.walls@, s0, i as int),
        decreases n - i,
    {
        let r = world.records[i];
        assert(level.record_holds(world.records@[i as int]));
        if r.alive && r.kind == Kind::BlasterHead {
            match (r.position, r.moving_dir) {
                (Some(pos), Some(dir)) => {
                    let new_pos = pos.add(&dir);
                    if occupied.is_wall_exec(&new_pos) {
                        commands.despawn(i);
                    } else {
                        match occupied.get_entity(&new_pos) {
                            Some(e) => {
                                if e < n && world.records[e].tags.destroyable {
                                    commands.despawn(e);
                                    occupied.remove(&new_pos);
                                    occupied.mv(&pos, &new_pos);
                                    let mut r2 = r;
                                    r2.position = Some(new_pos);
                                    world.records.set(i, r2);
                                } else {
                                    match occupied.get_entity(&pos) {
                                        Some(own) => commands.despawn(own),
                                        None => {},
                                    }
                                }
                            },
                            None => {
                                occupied.mv(&pos, &new_pos);
                                let mut r2 = r;
                                r2.position = Some(new_pos);
                                world.records.set(i, r2);
                            },
                        }
                    }
                    commands.spawn(create_blaster_tail().with_position(pos));
                },
                _ => {},
            }
        }
        i = i + 1;
    }
}

/// A blaster head entering a cell held by a destroyable entity despawns
/// that entity, takes its cell, and issues exactly one new entity: a tail
/// at the cell it left.
pub proof fn lemma_blaster_pass_through(b: Board, walls: Seq<bool>, s: PassState, ts: Seq<Seq<u32>>, i: int)
    requires
        0 <= i < s.0.len(),
        ts.len() == s.0.len(),
        s.0[i].alive,
        s.0[i].kind == Kind::BlasterHead,
        s.0[i].position.is_some(),
        s.0[i].moving_dir.is_some(),
        !wall_in(b, walls, s.0[i].position.unwrap().spec_add(s.0[i].moving_dir.unwrap())),
        s.1.contains_key(s.0[i].position.unwrap().spec_add(s.0[i].moving_dir.unwrap())),
        s.1[s.0[i].position.unwrap().spec_add(s.0[i].moving_dir.unwrap())] < s.0.len(),
        s.0[s.1[s.0[i].position.unwrap().spec_add(s.0[i].moving_dir.unwrap())] as int].tags.destroyable,
    ensures
        ({
            let pos = s.0[i].position.unwrap();
            let np = pos.spec_add(s.0[i].moving_dir.unwrap());
            let e = s.1[np];
            let r = blaster_step(b, walls, s, i);
            let tail = Record { position: Some(pos), ..animation_record(None) };
            let issued = seq![CommandModel::Despawn(e), CommandModel::Spawn(tail, blaster_tail_frames())];
            let w = crate::world::apply_commands((r.0, ts), issued);
            &&& r.0[i].position == Some(np)
            &&& r.3 == s.3 + issued
            &&& !w.0[e as int].alive
            &&& w.0[i].position == Some(np)
            &&& w.0.len() == s.0.len() + 1
            &&& w.0.last() == tail
        }),
{
    let pos = s.0[i].position.unwrap();
    let np = pos.spec_add(s.0[i].moving_dir.unwrap());
    let e = s.1[np];
    let r = blaster_step(b, walls, s, i);
    let tail = Record { position: Some(pos), ..animation_record(None) };
    let issued = seq![CommandModel::Despawn(e), CommandModel::Spawn(tail, blaster_tail_frames())];
    assert(r.3 =~= s.3 + issued);
    let z = Seq::<CommandModel>::empty();
    assert(issued =~= z.push(CommandModel::Despawn(e)).push(
        CommandModel::Spawn(tail, blaster_tail_frames()),
    ));
    lemma_apply_push((r.0, ts), z, CommandModel::Despawn(e));
    lemma_apply_push(
        (r.0, ts),
        z.push(CommandModel::Despawn(e)),
        CommandModel::Spawn(tail, blaster_tail_frames()),
    );
}

} // verus!
