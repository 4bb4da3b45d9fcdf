use robbo::board::Board;
use robbo::components::{GunKind, Kind, Rotatable, ShootingProp};
use robbo::damage::DamageMap;
use robbo::entities::{
    create_bird, create_bullet, create_forcefield, create_gun, create_laser_tail, create_magnet,
    create_questionmark_gun, create_robbo, create_teleport, create_wall, fly_away,
    gun_set_shooting_dir,
};
use robbo::frame_cnt::FrameCnt;
use robbo::geom::{MovingDir, Position, ShootingDir};
use robbo::world::{Commands, World};

#[test]
fn direction_indices() {
    assert_eq!(MovingDir::by_index(0), MovingDir::new(0, -1));
    assert_eq!(MovingDir::by_index(1), MovingDir::new(1, 0));
    assert_eq!(MovingDir::by_index(2), MovingDir::new(0, 1));
    assert_eq!(MovingDir::by_index(3), MovingDir::new(-1, 0));
    for i in 0..4 {
        assert_eq!(ShootingDir::by_index(i).to_index(), i);
    }
    assert_eq!(Position::new(2, 3).add(&MovingDir::new(-1, 0)), Position::new(1, 3));
    assert!(MovingDir::zero().is_empty());
}

#[test]
fn keyframes_come_every_interval() {
    let mut f = FrameCnt::new(3);
    let mut seen = Vec::new();
    for _ in 0..7 {
        seen.push(f.is_keyframe());
        f.tick();
    }
    assert_eq!(seen, vec![true, false, false, true, false, false, true]);
}

#[test]
fn hard_damage_is_not_downgraded() {
    let mut d = DamageMap::new(Board::new(3, 3));
    d.do_damage(&Position::new(1, 1), true);
    d.do_damage(&Position::new(1, 1), false);
    assert!(d.is_hard(&Position::new(1, 1)));
    d.do_damage(&Position::new(0, 1), false);
    assert!(d.is_damaged(&Position::new(0, 1)));
    assert!(!d.is_hard(&Position::new(0, 1)));
    d.do_damage(&Position::new(0, 1), true);
    assert!(d.is_hard(&Position::new(0, 1)));
    d.clear();
    assert!(!d.is_damaged(&Position::new(1, 1)));
}

#[test]
fn gun_from_parameters() {
    let g = create_gun(&[2, 1, 2, 1, 1]);
    assert_eq!(g.tiles.frames, vec![54]);
    assert_eq!(g.record.gun, Some(GunKind::Blaster));
    assert_eq!(g.record.shooting_dir, Some(ShootingDir::by_index(2)));
    assert_eq!(g.record.moving_dir, Some(MovingDir::new(1, 0)));
    assert!(g.record.tags.moveable && g.record.tags.moving_between_walls);
    assert_eq!(g.record.rotatable, Some(Rotatable::Regular));
    let s = create_gun(&[3, 0, 1, 0]);
    assert_eq!(s.tiles.frames, vec![55]);
    assert_eq!(s.record.gun, Some(GunKind::Solid));
    assert_eq!(s.record.moving_dir, None);
    assert_eq!(s.record.rotatable, None);
    let q = create_questionmark_gun();
    assert_eq!(q.tiles.frames, vec![56]);
    assert_eq!(q.record.rotatable, Some(Rotatable::Random));
}

#[test]
fn bird_with_and_without_gun() {
    let armed = create_bird(&[1, 2, 1]);
    assert_eq!(armed.record.moving_dir, Some(MovingDir::new(1, 0)));
    assert_eq!(armed.record.shooting_dir, Some(ShootingDir::by_index(2)));
    assert_eq!(armed.record.shooting_prop, Some(ShootingProp::standard()));
    let plain = create_bird(&[0, 2, 0]);
    assert_eq!(plain.record.gun, None);
    assert_eq!(plain.tiles.frames, vec![15, 16]);
}

#[test]
fn factory_frames() {
    assert_eq!(create_wall(5).tiles.frames, vec![68]);
    assert!(create_wall(5).record.tags.wall);
    assert_eq!(create_bullet(0, 1).tiles.frames, vec![38, 38, 38, 38, 39, 39, 39, 39]);
    assert_eq!(create_bullet(1, 0).tiles.frames, vec![36, 36, 36, 36, 37, 37, 37, 37]);
    assert_eq!(create_laser_tail(&MovingDir::new(1, 0)).tiles.frames[0], 36);
    assert_eq!(create_magnet(2).tiles.frames, vec![72]);
    assert_eq!(create_magnet(2).record.kind, Kind::Magnet(2));
    assert_eq!(create_forcefield(3).record.kind, Kind::ForceField(MovingDir::new(-1, 0)));
    assert_eq!(create_teleport(&[4, 7]).record.kind, Kind::Teleport(4, 7));
    let r = create_robbo();
    assert_eq!(r.record.shooting_prop, Some(ShootingProp::certain()));
    assert!(r.record.tags.destroyable && !r.record.tags.undestroyable);
    let f = fly_away(Position::new(2, 2));
    assert_eq!(f.record.position, Some(Position::new(2, 2)));
    assert_eq!(f.tiles.frames.len(), 8);
}

#[test]
fn turning_a_gun_changes_its_frame() {
    let mut world = World::new();
    let g = world.spawn(create_gun(&[0, 0, 0, 0]));
    let mut commands = Commands::new();
    gun_set_shooting_dir(&mut commands, g, ShootingDir::by_index(1));
    world.apply(&mut commands);
    assert_eq!(world.records[g].shooting_dir, Some(ShootingDir::by_index(1)));
    assert_eq!(world.tiles[g].frames, vec![53]);
}
