use vstd::prelude::*;
use crate::board::Board;
use crate::components::{Kind, Record};
use crate::damage::{spec_do_damage, DamageMap};
use crate::frame_cnt::FrameCnt;
use crate::geom::MovingDir;
use crate::level::{index_of, LevelInfo};
use crate::occupancy::{occupied_in, spec_mv, PassState};
use crate::world::{CommandModel, World};

verus! {

/// One push box's keyframe. A box whose cell was damaged this tick, or
/// whose direction is zero, stays as it is. Otherwise it slides one step
/// into a free cell, keeping its direction; before an occupied cell it
/// stops, its direction reset to zero, and the cell gets soft damage.
pub open spec fn push_box_step(b: Board, walls: Seq<bool>, s: PassState, i: int) -> PassState {
    let (rs, occ, dmg, cs) = s;
    let r = rs[i];
    if r.alive && r.kind == Kind::PushBox && r.position.is_some() && r.moving_dir.is_some() {
        let pos = r.position.unwrap();
        let dir = r.moving_dir.unwrap();
        if dmg.contains_key(pos) || dir.spec_is_empty() {
            s
        } else {
            let np = pos.spec_add(dir);
            if occupied_in(b, walls, occ, np) {
                (
                    rs.update(i, Record { moving_dir: Some(MovingDir { dx: 0, dy: 0 }), ..r }),
                    occ,
                    spec_do_damage(dmg, b, np, false),
                    cs,
                )
            } else {
                (rs.update(i, Record { position: Some(np), ..r }), spec_mv(occ, b, pos, np), dmg, cs)
            }
        }
    } else {
        s
    }
}

/// The push boxes among the first `n` entities, stepped in store order.
pub open spec fn push_box_pass(b: Board, walls: Seq<bool>, s: PassState, n: int) -> PassState
    decreases n,
{
    if n <= 0 {
        s
    } else {
        push_box_step(b, walls, push_box_pass(b, walls, s, n - 1), n - 1)
    }
}

/// Moves every pushed box one step on a keyframe; does nothing otherwise.
/// This pass issues no commands.
pub fn move_pushbox(frame_cnt: &FrameCnt, level: &LevelInfo, damage_map: &mut DamageMap, world: &mut World)
    requires
        level.wf(),
        old(world).wf(),
        level.holds(old(world).records@),
        old(damage_map).wf(),
        old(damage_map).board == level.board,
    ensures
        final(world).wf(),
        level.holds(final(world).records@),
        final(damage_map).wf(),
        final(damage_map).board == level.board,
        final(world).tiles@ == old(world).tiles@,
        !frame_cnt.spec_is_keyframe() ==> final(world).records@ == old(world).records@
            && final(damage_map).view() == old(damage_map).view(),
        frame_cnt.spec_is_keyframe() ==> ({
            let s = push_box_pass(
                level.board,
                level.walls@,
                (
                    old(world).records@,
                    index_of(level.board, old(world).records@),
                    old(damage_map).view(),
                    Seq::<CommandModel>::empty(),
                ),
                old(world).records@.len() as int,
            );
            final(world).records@ == s.0 && final(damage_map).view() == s.2
        }),
{
    if !frame_cnt.is_keyframe() {
        return;
    }
    let mut occupied = level.get_occupied(world);
    let n = world.records.len();
    let ghost s0 = (world.records@, occupied.view(), damage_map.view(), Seq::<CommandModel>::empty());
    let mut i: usize = 0;
    while i < n
        invariant
            level.wf(),
            i <= n,
            n == world.records@.len(),
            world.wf(),
            world.tiles@ == old(world).tiles@,
            level.holds(world.records@),
            occupied.wf(),
            occupied.board == level.board,
            occupied.walls@ == level.walls@,
            damage_map.wf(),
            damage_map.board == level.board,
            (world.records@, occupied.view(), damage_map.view(), Seq::<CommandModel>::empty()) == push_box_pass(
                level.board,
                level.walls@,
                s0,
                i as int,
            ),
        decreases n - i,
    {
        let r = world.records[i];
        assert(level.record_holds(world.records@[i as int]));
        if r.alive && r.kind == Kind::PushBox {
            match (r.position, r.moving_dir) {
                (Some(pos), Some(dir)) => {
                    if !(damage_map.is_damaged(&pos) || dir.is_empty()) {
                        let new_pos = pos.add(&dir);
                        if occupied.is_occupied(&new_pos) {
                            damage_map.do_damage(&new_pos, false);
                            let mut r2 = r;
                            r2.moving_dir = Some(MovingDir::zero());
                            world.records.set(i, r2);
                        } else {
                            occupied.mv(&pos, &new_pos);
                            let mut r2 = r;
                            r2.position = Some(new_pos);
                            world.records.set(i, r2);
                        }
                    }
                },
                _ => {},
            }
        }
        i = i + 1;
    }
}

/// A pushed box facing an occupied cell ends its step where it was, with
/// direction zero; from then on its step changes nothing, whatever the
/// rest of the state, so repeating the tick gives the same result.
pub proof fn lemma_push_box_blocked(b: Board, walls: Seq<bool>, s: PassState, i: int)
    requires
        0 <= i < s.0.len(),
        s.0[i].alive,
        s.0[i].kind == Kind::PushBox,
        s.0[i].position.is_some(),
        s.0[i].moving_dir.is_some(),
        !s.0[i].moving_dir.unwrap().spec_is_empty(),
        !s.2.contains_key(s.0[i].position.unwrap()),
        occupied_in(b, walls, s.1, s.0[i].position.unwrap().spec_add(s.0[i].moving_dir.unwrap())),
    ensures
        ({
            let r = push_box_step(b, walls, s, i);
            &&& r.0[i].position == s.0[i].position
            &&& r.0[i].moving_dir == Some(MovingDir { dx: 0, dy: 0 })
            &&& r.2 == spec_do_damage(
                s.2,
                b,
                s.0[i].position.unwrap().spec_add(s.0[i].moving_dir.unwrap()),
                false,
            )
            &&& forall|t: PassState|
                #![trigger push_box_step(b, walls, t, i)]
                0 <= i < t.0.len() && t.0[i] == r.0[i] ==> push_box_step(b, walls, t, i) == t
        }),
{
}

} // verus!
