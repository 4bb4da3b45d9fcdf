use robbo::blasters::move_blaster_head;
use robbo::board::Board;
use robbo::bullets::move_bullet;
use robbo::capsules::{activate_capsule_system, Inventory, Sound};
use robbo::components::{Kind, Usable};
use robbo::damage::DamageMap;
use robbo::entities::{
    create_blaster_head, create_bullet, create_capsule, create_ground, create_push_box,
    create_static_box, create_wall,
};
use robbo::frame_cnt::FrameCnt;
use robbo::geom::{MovingDir, Position};
use robbo::level::LevelInfo;
use robbo::world::{Command, Commands, World};

fn setup() -> (World, LevelInfo, DamageMap, FrameCnt) {
    let board = Board::new(10, 10);
    (World::new(), LevelInfo::new(board, 0), DamageMap::new(board), FrameCnt::new(8))
}

fn spawn_moving(world: &mut World, b: robbo::components::Bundle, x: i32, y: i32, dx: i32, dy: i32) -> usize {
    let id = world.spawn(b.with_position(Position::new(x, y)));
    world.records[id].moving_dir = Some(MovingDir::new(dx, dy));
    id
}

#[test]
fn push_box_against_wall_scenario() {
    let (mut world, mut level, mut damage, frames) = setup();
    level.add_wall(&Position::new(6, 5));
    let id = spawn_moving(&mut world, create_push_box(), 5, 5, 1, 0);
    move_pushbox_once(&frames, &level, &mut damage, &mut world);
    assert_eq!(world.records[id].position, Some(Position::new(5, 5)));
    assert_eq!(world.records[id].moving_dir, Some(MovingDir::new(0, 0)));
    assert!(damage.is_damaged(&Position::new(6, 5)));
    assert!(!damage.is_hard(&Position::new(6, 5)));
}

fn move_pushbox_once(frames: &FrameCnt, level: &LevelInfo, damage: &mut DamageMap, world: &mut World) {
    robbo::push_boxes::move_pushbox(frames, level, damage, world);
}

#[test]
fn push_box_blocked_is_a_fixed_point() {
    let (mut world, level, mut damage, frames) = setup();
    let id = spawn_moving(&mut world, create_push_box(), 2, 2, 0, 1);
    world.spawn(create_static_box().with_position(Position::new(2, 3)));
    move_pushbox_once(&frames, &level, &mut damage, &mut world);
    assert_eq!(world.records[id].position, Some(Position::new(2, 2)));
    assert_eq!(world.records[id].moving_dir, Some(MovingDir::zero()));
    damage.clear();
    move_pushbox_once(&frames, &level, &mut damage, &mut world);
    assert_eq!(world.records[id].position, Some(Position::new(2, 2)));
    assert_eq!(world.records[id].moving_dir, Some(MovingDir::zero()));
    assert!(!damage.is_damaged(&Position::new(2, 3)));
}

#[test]
fn push_box_slides_and_keeps_direction() {
    let (mut world, level, mut damage, frames) = setup();
    let id = spawn_moving(&mut world, create_push_box(), 2, 2, -1, 0);
    move_pushbox_once(&frames, &level, &mut damage, &mut world);
    move_pushbox_once(&frames, &level, &mut damage, &mut world);
    assert_eq!(world.records[id].position, Some(Position::new(0, 2)));
    assert_eq!(world.records[id].moving_dir, Some(MovingDir::new(-1, 0)));
    move_pushbox_once(&frames, &level, &mut damage, &mut world);
    assert_eq!(world.records[id].position, Some(Position::new(0, 2)));
    assert_eq!(world.records[id].moving_dir, Some(MovingDir::zero()));
}

#[test]
fn push_box_on_damaged_cell_stays() {
    let (mut world, level, mut damage, frames) = setup();
    let id = spawn_moving(&mut world, create_push_box(), 4, 4, 1, 0);
    damage.do_damage(&Position::new(4, 4), true);
    move_pushbox_once(&frames, &level, &mut damage, &mut world);
    assert_eq!(world.records[id].position, Some(Position::new(4, 4)));
    assert_eq!(world.records[id].moving_dir, Some(MovingDir::new(1, 0)));
}

#[test]
fn systems_do_nothing_off_keyframe() {
    let (mut world, level, mut damage, mut frames) = setup();
    frames.tick();
    assert!(!frames.is_keyframe());
    let b = spawn_moving(&mut world, create_bullet(1, 0), 1, 1, 1, 0);
    let p = spawn_moving(&mut world, create_push_box(), 1, 5, 1, 0);
    let h = spawn_moving(&mut world, create_blaster_head(0, 1), 7, 1, 0, 1);
    let mut commands = Commands::new();
    move_bullet(&mut commands, &frames, &level, &mut damage, &mut world);
    move_pushbox_once(&frames, &level, &mut damage, &mut world);
    move_blaster_head(&mut commands, &frames, &level, &mut world);
    assert_eq!(world.records[b].position, Some(Position::new(1, 1)));
    assert_eq!(world.records[p].position, Some(Position::new(1, 5)));
    assert_eq!(world.records[h].position, Some(Position::new(7, 1)));
    assert!(commands.queue.is_empty());
}

#[test]
fn bullet_flies_by_its_direction() {
    let (mut world, level, mut damage, frames) = setup();
    let b = spawn_moving(&mut world, create_bullet(0, 1), 3, 1, 0, 1);
    let mut commands = Commands::new();
    move_bullet(&mut commands, &frames, &level, &mut damage, &mut world);
    assert_eq!(world.records[b].position, Some(Position::new(3, 2)));
    move_bullet(&mut commands, &frames, &level, &mut damage, &mut world);
    assert_eq!(world.records[b].position, Some(Position::new(3, 3)));
    assert!(commands.queue.is_empty());
}

#[test]
fn bullet_into_occupied_cell_explodes() {
    let (mut world, level, mut damage, frames) = setup();
    let b = spawn_moving(&mut world, create_bullet(1, 0), 3, 3, 1, 0);
    let target = world.spawn(create_ground().with_position(Position::new(4, 3)));
    let mut commands = Commands::new();
    move_bullet(&mut commands, &frames, &level, &mut damage, &mut world);
    assert_eq!(commands.queue.len(), 2);
    assert_eq!(world.records[b].moving_dir, Some(MovingDir::zero()));
    assert!(damage.is_damaged(&Position::new(4, 3)));
    assert!(!damage.is_hard(&Position::new(4, 3)));
    let before = world.len();
    world.apply(&mut commands);
    assert!(!world.records[b].alive);
    assert!(world.records[target].alive);
    assert_eq!(world.len(), before + 1);
    let e = world.len() - 1;
    assert_eq!(world.records[e].kind, Kind::Animation(None));
    assert_eq!(world.records[e].position, Some(Position::new(3, 3)));
    assert_eq!(world.tiles[e].frames, vec![85, 84]);
}

#[test]
fn bullet_at_board_edge_explodes() {
    let (mut world, level, mut damage, frames) = setup();
    let b = spawn_moving(&mut world, create_bullet(-1, 0), 0, 3, -1, 0);
    let mut commands = Commands::new();
    move_bullet(&mut commands, &frames, &level, &mut damage, &mut world);
    world.apply(&mut commands);
    assert!(!world.records[b].alive);
    assert_eq!(world.records[b].position, Some(Position::new(0, 3)));
}

#[test]
fn blaster_passes_through_destroyable() {
    let (mut world, level, _damage, frames) = setup();
    let h = spawn_moving(&mut world, create_blaster_head(1, 0), 2, 6, 1, 0);
    let g = world.spawn(create_ground().with_position(Position::new(3, 6)));
    let mut commands = Commands::new();
    move_blaster_head(&mut commands, &frames, &level, &mut world);
    assert_eq!(world.records[h].position, Some(Position::new(3, 6)));
    assert_eq!(commands.queue.len(), 2);
    let before = world.len();
    world.apply(&mut commands);
    assert!(!world.records[g].alive);
    assert!(world.records[h].alive);
    assert_eq!(world.len(), before + 1);
    let t = world.len() - 1;
    assert_eq!(world.records[t].position, Some(Position::new(2, 6)));
    assert_eq!(world.tiles[t].frames, vec![85, 86, 86, 86, 85, 84]);
}

#[test]
fn blaster_into_wall_is_despawned() {
    let (mut world, mut level, _damage, frames) = setup();
    level.add_wall(&Position::new(5, 1));
    let h = spawn_moving(&mut world, create_blaster_head(0, -1), 5, 2, 0, -1);
    let mut commands = Commands::new();
    move_blaster_head(&mut commands, &frames, &level, &mut world);
    world.apply(&mut commands);
    assert!(!world.records[h].alive);
    assert_eq!(world.records[h].position, Some(Position::new(5, 2)));
    assert_eq!(world.len(), 2);
}

#[test]
fn blaster_blocked_despawns_its_own_cell() {
    let (mut world, level, _damage, frames) = setup();
    let h = spawn_moving(&mut world, create_blaster_head(1, 0), 2, 8, 1, 0);
    let s = world.spawn(create_static_box().with_position(Position::new(3, 8)));
    let mut commands = Commands::new();
    move_blaster_head(&mut commands, &frames, &level, &mut world);
    assert_eq!(world.records[h].position, Some(Position::new(2, 8)));
    world.apply(&mut commands);
    assert!(!world.records[h].alive);
    assert!(world.records[s].alive);
    assert_eq!(world.len(), 3);
}

#[test]
fn blaster_advances_into_free_cell() {
    let (mut world, level, _damage, frames) = setup();
    let h = spawn_moving(&mut world, create_blaster_head(0, 1), 9, 0, 0, 1);
    let mut commands = Commands::new();
    move_blaster_head(&mut commands, &frames, &level, &mut world);
    assert_eq!(world.records[h].position, Some(Position::new(9, 1)));
    assert_eq!(commands.queue.len(), 1);
}

fn capsule_world() -> (World, LevelInfo, usize) {
    let mut world = World::new();
    let c = world.spawn(create_capsule().with_position(Position::new(1, 1)));
    (world, LevelInfo::new(Board::new(4, 4), 3), c)
}

#[test]
fn capsule_stays_inert_one_screw_short() {
    let (world, level, _c) = capsule_world();
    let mut commands = Commands::new();
    let mut sounds: Vec<Sound> = Vec::new();
    activate_capsule_system(&mut commands, &FrameCnt::new(1), &Inventory { screws: 2 }, &level, &mut sounds, &world);
    assert!(commands.queue.is_empty());
    assert!(sounds.is_empty());
}

#[test]
fn capsule_activates_once_at_threshold() {
    let (mut world, level, c) = capsule_world();
    let frames = FrameCnt::new(1);
    let inventory = Inventory { screws: 3 };
    let mut commands = Commands::new();
    let mut sounds: Vec<Sound> = Vec::new();
    activate_capsule_system(&mut commands, &frames, &inventory, &level, &mut sounds, &world);
    assert_eq!(commands.queue.len(), 3);
    assert_eq!(sounds, vec![Sound::Bomb]);
    world.apply(&mut commands);
    assert_eq!(world.records[c].usable, Some(Usable::Capsule));
    assert!(!world.records[c].tags.moveable);
    assert_eq!(world.tiles[c].frames, vec![17, 17, 18, 18]);
    activate_capsule_system(&mut commands, &frames, &inventory, &level, &mut sounds, &world);
    assert!(commands.queue.is_empty());
    assert_eq!(sounds.len(), 1);
    world.apply(&mut commands);
    assert_eq!(world.records[c].usable, Some(Usable::Capsule));
}

#[test]
fn occupancy_keeps_one_occupant_per_cell() {
    let mut world = World::new();
    let a = world.spawn(create_ground().with_position(Position::new(1, 1)));
    let b = world.spawn(create_ground().with_position(Position::new(1, 1)));
    world.spawn(create_wall(0).with_position(Position::new(2, 2)));
    let mut level = LevelInfo::new(Board::new(5, 5), 0);
    level.add_wall(&Position::new(2, 2));
    let mut occ = level.get_occupied(&world);
    assert_eq!(occ.get_entity(&Position::new(1, 1)), Some(b));
    assert_eq!(occ.get_entity(&Position::new(2, 2)), None);
    assert!(occ.is_occupied(&Position::new(2, 2)));
    assert!(occ.is_occupied(&Position::new(-1, 0)));
    occ.insert(&Position::new(3, 3), a);
    occ.mv(&Position::new(3, 3), &Position::new(1, 1));
    assert_eq!(occ.get_entity(&Position::new(1, 1)), Some(a));
    assert_eq!(occ.get_entity(&Position::new(3, 3)), None);
    occ.remove(&Position::new(1, 1));
    assert!(!occ.is_occupied(&Position::new(1, 1)));
    occ.mv(&Position::new(1, 1), &Position::new(0, 0));
    assert_eq!(occ.get_entity(&Position::new(0, 0)), None);
}

#[test]
fn despawn_in_commands_hides_later_inserts() {
    let mut world = World::new();
    let c = world.spawn(create_capsule());
    let mut commands = Commands::new();
    commands.despawn(c);
    commands.push(Command::InsertUsable(c, Usable::Door));
    world.apply(&mut commands);
    assert!(!world.records[c].alive);
    assert_eq!(world.records[c].usable, None);
}

#[test]
fn one_frame_runs_systems_in_order_then_applies() {
    let mut level = LevelInfo::new(Board::new(10, 10), 1);
    level.add_wall(&Position::new(6, 5));
    let mut game = robbo::game::Game::new(level, 2);
    let bx = spawn_moving(&mut game.world, create_push_box(), 5, 5, 1, 0);
    let bullet = spawn_moving(&mut game.world, create_bullet(1, 0), 3, 3, 1, 0);
    let blocker = game.world.spawn(create_push_box().with_position(Position::new(4, 3)));
    let cap = game.world.spawn(create_capsule().with_position(Position::new(8, 8)));
    game.inventory.screws = 1;
    game.frame();
    assert_eq!(game.world.records[bx].position, Some(Position::new(5, 5)));
    assert_eq!(game.world.records[bx].moving_dir, Some(MovingDir::zero()));
    assert!(game.damage.is_damaged(&Position::new(6, 5)));
    assert!(!game.world.records[bullet].alive);
    assert!(game.world.records[blocker].alive);
    assert_eq!(game.world.records[cap].usable, Some(Usable::Capsule));
    assert_eq!(game.sounds, vec![Sound::Bomb]);
    let n = game.world.len();
    assert!(!game.frames.is_keyframe());
    game.frame();
    assert!(game.frames.is_keyframe());
    assert_eq!(game.world.len(), n);
    assert!(!game.damage.is_damaged(&Position::new(6, 5)));
}
