use vstd::prelude::*;
use crate::components::{
    tags_of, Bundle, Collectable, GameEvent, GunKind, Kind, Record, Rotatable, ShootingProp, Tags,
    Tiles, Usable,
};
use crate::components::{SHOOTING_PROP_CERTAIN, SHOOTING_PROP_DEFAULT};
use crate::geom::{dir_of_index, index_of_dir, MovingDir, Position, ShootingDir};
use crate::world::{Command, CommandModel, Commands, EntityId};

verus! {

/// Tags of a transient, indestructible effect.
pub open spec fn effect_tags() -> Tags {
    tags_of(false, true, false, false, false, false, false)
}

/// The record of an animation that fires `event` when it completes.
pub open spec fn animation_record(event: Option<GameEvent>) -> Record {
    Record::spec_of(Kind::Animation(event), effect_tags())
}

pub open spec fn small_explosion_frames() -> Seq<u32> {
    seq![85u32, 84u32]
}

pub open spec fn blaster_tail_frames() -> Seq<u32> {
    seq![85u32, 86u32, 86u32, 86u32, 85u32, 84u32]
}

pub open spec fn charged_capsule_frames() -> Seq<u32> {
    seq![17u32, 17u32, 18u32, 18u32]
}

fn effect_tags_exec() -> (r: Tags)
    ensures
        r == effect_tags(),
{
    Tags::with(false, true, false, false, false, false, false)
}

pub fn create_small_explosion() -> (r: Bundle)
    ensures
        r.record == animation_record(None),
        r.tiles@ == small_explosion_frames(),
{
    let t = Tiles { frames: vec![85, 84] };
    assert(t@ =~= small_explosion_frames());
    Bundle { record: Record::of(Kind::Animation(None), effect_tags_exec()), tiles: t }
}

pub fn create_blaster_tail() -> (r: Bundle)
    ensures
        r.record == animation_record(None),
        r.tiles@ == blaster_tail_frames(),
{
    let t = Tiles { frames: vec![85, 86, 86, 86, 85, 84] };
    assert(t@ =~= blaster_tail_frames());
    Bundle { record: Record::of(Kind::Animation(None), effect_tags_exec()), tiles: t }
}

/// The commands that turn an inert capsule into a usable one.
pub open spec fn repair_commands(entity: EntityId) -> Seq<CommandModel> {
    seq![
        CommandModel::RemoveMoveable(entity),
        CommandModel::InsertUsable(entity, Usable::Capsule),
        CommandModel::InsertTiles(entity, charged_capsule_frames()),
    ]
}

/// Fixes a capsule in place and makes it usable, with its charged frames.
pub fn repair_capsule(commands: &mut Commands, entity: EntityId)
    ensures
        final(commands).view() == old(commands).view() + repair_commands(entity),
{
    commands.push(Command::RemoveMoveable(entity));
    commands.push(Command::InsertUsable(entity, Usable::Capsule));
    let t = Tiles { frames: vec![17, 17, 18, 18] };
    assert(t@ =~= charged_capsule_frames());
    commands.push(Command::InsertTiles(entity, t));
    assert(commands.view() =~= old(commands).view() + repair_commands(entity));
}

/// The record of a fresh entity with the given kind, tags and direction.
pub open spec fn moving_record(kind: Kind, tags: Tags, dir: MovingDir) -> Record {
    Record { moving_dir: Some(dir), ..Record::spec_of(kind, tags) }
}

pub open spec fn bullet_h_frames() -> Seq<u32> {
    seq![36u32, 36u32, 36u32, 36u32, 37u32, 37u32, 37u32, 37u32]
}

pub open spec fn bullet_v_frames() -> Seq<u32> {
    seq![38u32, 38u32, 38u32, 38u32, 39u32, 39u32, 39u32, 39u32]
}

/// The frames of a shot travelling with vertical step `dy`.
pub open spec fn shot_frames(dy: i32) -> Seq<u32> {
    if dy == 0 {
        bullet_h_frames()
    } else {
        bullet_v_frames()
    }
}

pub open spec fn wall_frames() -> Seq<u32> {
    seq![2u32, 29u32, 19u32, 3u32, 21u32, 68u32, 69u32, 10u32, 22u32]
}

pub open spec fn gun_frames() -> Seq<u32> {
    seq![56u32, 53u32, 54u32, 55u32]
}

pub open spec fn magnet_frames() -> Seq<u32> {
    seq![73u32, 0u32, 72u32, 1u32]
}

fn shot_tiles(dy: i32) -> (r: Tiles)
    ensures
        r@ == shot_frames(dy),
{
    let t = if dy == 0 {
        Tiles { frames: vec![36, 36, 36, 36, 37, 37, 37, 37] }
    } else {
        Tiles { frames: vec![38, 38, 38, 38, 39, 39, 39, 39] }
    };
    assert(t@ =~= shot_frames(dy));
    t
}

fn one_tile(frame: u32) -> (r: Tiles)
    ensures
        r@ == seq![frame],
{
    let t = Tiles { frames: vec![frame] };
    assert(t@ =~= seq![frame]);
    t
}

fn gun_tile(index: usize) -> (r: u32)
    requires
        index < 4,
    ensures
        r == gun_frames()[index as int],
{
    if index == 0 {
        56
    } else if index == 1 {
        53
    } else if index == 2 {
        54
    } else {
        55
    }
}

pub fn create_robbo() -> (r: Bundle)
    ensures
        r.record == (Record {
            gun: Some(GunKind::Burst),
            shooting_prop: Some(ShootingProp { per_mille: SHOOTING_PROP_CERTAIN }),
            ..moving_record(Kind::Robbo, tags_of(true, false, false, false, false, false, false), MovingDir { dx: 0, dy: 0 })
        }),
        r.tiles@ == seq![60u32],
{
    let mut record = Record::of(Kind::Robbo, Tags::with(true, false, false, false, false, false, false));
    record.moving_dir = Some(MovingDir::zero());
    record.gun = Some(GunKind::Burst);
    record.shooting_prop = Some(ShootingProp::certain());
    Bundle { record, tiles: one_tile(60) }
}

/// `params[0]` is the flying direction; when `params[2] > 0` the bird
/// carries a burst gun firing in direction `params[1]`.
pub fn create_bird(params: &[usize]) -> (r: Bundle)
    requires
        params@.len() >= 3,
    ensures
        r.record.kind == Kind::Bird,
        r.record.tags == tags_of(true, false, true, false, true, false, false),
        r.record.moving_dir.is_some(),
        (r.record.moving_dir.unwrap().dx as int, r.record.moving_dir.unwrap().dy as int)
            == dir_of_index(params@[0] as int),
        r.record.position.is_none() && r.record.usable.is_none() && r.record.rotatable.is_none(),
        r.record.alive,
        params@[2] > 0 ==> r.record.gun == Some(GunKind::Burst) && r.record.shooting_prop == Some(
            ShootingProp { per_mille: SHOOTING_PROP_DEFAULT },
        ) && r.record.shooting_dir.is_some() && (
        r.record.shooting_dir.unwrap().dir.dx as int,
        r.record.shooting_dir.unwrap().dir.dy as int,
        ) == dir_of_index(params@[1] as int),
        params@[2] == 0 ==> r.record.gun.is_none() && r.record.shooting_prop.is_none()
            && r.record.shooting_dir.is_none(),
        r.tiles@ == seq![15u32, 16u32],
{
    let mut record = Record::of(Kind::Bird, Tags::with(true, false, true, false, true, false, false));
    record.moving_dir = Some(MovingDir::by_index(params[0]));
    if params[2] > 0 {
        record.shooting_dir = Some(ShootingDir::by_index(params[1]));
        record.shooting_prop = Some(ShootingProp::standard());
        record.gun = Some(GunKind::Burst);
    }
    let t = Tiles { frames: vec![15, 16] };
    assert(t@ =~= seq![15u32, 16u32]);
    Bundle { record, tiles: t }
}

pub fn create_bear() -> (r: Bundle)
    ensures
        r.record == Record::spec_of(Kind::Bear(false), tags_of(true, false, true, false, false, false, false)),
        r.tiles@ == seq![13u32, 14u32],
{
    let t = Tiles { frames: vec![13, 14] };
    assert(t@ =~= seq![13u32, 14u32]);
    Bundle {
        record: Record::of(Kind::Bear(false), Tags::with(true, false, true, false, false, false, false)),
        tiles: t,
    }
}

pub fn create_black_bear() -> (r: Bundle)
    ensures
        r.record == Record::spec_of(Kind::Bear(true), tags_of(true, false, true, false, false, false, false)),
        r.tiles@ == seq![30u32, 31u32],
{
    let t = Tiles { frames: vec![30, 31] };
    assert(t@ =~= seq![30u32, 31u32]);
    Bundle {
        record: Record::of(Kind::Bear(true), Tags::with(true, false, true, false, false, false, false)),
        tiles: t,
    }
}

pub fn create_push_box() -> (r: Bundle)
    ensures
        r.record == moving_record(Kind::PushBox, tags_of(false, false, false, true, false, false, false), MovingDir { dx: 0, dy: 0 }),
        r.tiles@ == seq![6u32],
{
    let mut record = Record::of(Kind::PushBox, Tags::with(false, false, false, true, false, false, false));
    record.moving_dir = Some(MovingDir::zero());
    Bundle { record, tiles: one_tile(6) }
}

pub fn create_static_box() -> (r: Bundle)
    ensures
        r.record == Record::spec_of(Kind::Plain, tags_of(false, false, false, true, false, false, false)),
        r.tiles@ == seq![20u32],
{
    Bundle {
        record: Record::of(Kind::Plain, Tags::with(false, false, false, true, false, false, false)),
        tiles: one_tile(20),
    }
}

/// A wall with texture variant `k`.
pub fn create_wall(k: usize) -> (r: Bundle)
    requires
        k < 9,
    ensures
        r.record == Record::spec_of(Kind::Plain, tags_of(false, true, false, false, false, false, true)),
        r.tiles@ == seq![wall_frames()[k as int]],
{
    let frame: u32 = if k == 0 {
        2
    } else if k == 1 {
        29
    } else if k == 2 {
        19
    } else if k == 3 {
        3
    } else if k == 4 {
        21
    } else if k == 5 {
        68
    } else if k == 6 {
        69
    } else if k == 7 {
        10
    } else {
        22
    };
    Bundle {
        record: Record::of(Kind::Plain, Tags::with(false, true, false, false, false, false, true)),
        tiles: one_tile(frame),
    }
}

pub fn create_bullet(kx: i32, ky: i32) -> (r: Bundle)
    requires
        -1 <= kx <= 1,
        -1 <= ky <= 1,
    ensures
        r.record == moving_record(Kind::Bullet, effect_tags(), MovingDir { dx: kx, dy: ky }),
        r.tiles@ == shot_frames(ky),
{
    let mut record = Record::of(Kind::Bullet, effect_tags_exec());
    record.moving_dir = Some(MovingDir::new(kx, ky));
    Bundle { record, tiles: shot_tiles(ky) }
}

pub fn create_laser_head(pos: Position, kx: i32, ky: i32) -> (r: Bundle)
    requires
        -1 <= kx <= 1,
        -1 <= ky <= 1,
    ensures
        r.record == moving_record(
            Kind::LaserHead { gun_pos: pos, is_moving_back: false },
            tags_of(false, true, false, false, false, true, false),
            MovingDir { dx: kx, dy: ky },
        ),
        r.tiles@ == shot_frames(ky),
{
    let mut record = Record::of(
        Kind::LaserHead { gun_pos: pos, is_moving_back: false },
        Tags::with(false, true, false, false, false, true, false),
    );
    record.moving_dir = Some(MovingDir::new(kx, ky));
    Bundle { record, tiles: shot_tiles(ky) }
}

pub fn create_blaster_head(kx: i32, ky: i32) -> (r: Bundle)
    requires
        -1 <= kx <= 1,
        -1 <= ky <= 1,
    ensures
        r.record == moving_record(
            Kind::BlasterHead,
            tags_of(false, true, false, false, false, true, false),
            MovingDir { dx: kx, dy: ky },
        ),
        r.tiles@ == seq![84u32],
{
    let mut record = Record::of(Kind::BlasterHead, Tags::with(false, true, false, false, false, true, false));
    record.moving_dir = Some(MovingDir::new(kx, ky));
    Bundle { record, tiles: one_tile(84) }
}

pub fn create_laser_tail(dir: &MovingDir) -> (r: Bundle)
    ensures
        r.record == Record::spec_of(Kind::LaserTail, effect_tags()),
        r.tiles@ == shot_frames(dir.dy),
{
    Bundle { record: Record::of(Kind::LaserTail, effect_tags_exec()), tiles: shot_tiles(dir.y()) }
}

pub fn create_screw() -> (r: Bundle)
    ensures
        r.record == Record::spec_of(Kind::Collectable(Collectable::Screw), tags_of(false, false, false, false, false, false, false)),
        r.tiles@ == seq![4u32],
{
    Bundle { record: Record::of(Kind::Collectable(Collectable::Screw), Tags::none()), tiles: one_tile(4) }
}

pub fn create_ammo() -> (r: Bundle)
    ensures
        r.record == Record::spec_of(Kind::Collectable(Collectable::Ammo), tags_of(true, false, false, false, false, false, false)),
        r.tiles@ == seq![5u32],
{
    Bundle {
        record: Record::of(Kind::Collectable(Collectable::Ammo), Tags::with(true, false, false, false, false, false, false)),
        tiles: one_tile(5),
    }
}

pub fn create_key() -> (r: Bundle)
    ensures
        r.record == Record::spec_of(Kind::Collectable(Collectable::Key), tags_of(false, false, false, false, false, false, false)),
        r.tiles@ == seq![7u32],
{
    Bundle { record: Record::of(Kind::Collectable(Collectable::Key), Tags::none()), tiles: one_tile(7) }
}

pub fn create_ground() -> (r: Bundle)
    ensures
        r.record == Record::spec_of(Kind::Plain, tags_of(true, false, false, false, false, false, false)),
        r.tiles@ == seq![77u32],
{
    Bundle {
        record: Record::of(Kind::Plain, Tags::with(true, false, false, false, false, false, false)),
        tiles: one_tile(77),
    }
}

pub fn create_capsule() -> (r: Bundle)
    ensures
        r.record == Record::spec_of(Kind::Capsule, tags_of(false, false, false, true, false, false, false)),
        r.tiles@ == seq![17u32],
{
    Bundle {
        record: Record::of(Kind::Capsule, Tags::with(false, false, false, true, false, false, false)),
        tiles: one_tile(17),
    }
}

pub fn create_bomb() -> (r: Bundle)
    ensures
        r.record == Record::spec_of(Kind::Bomb(false), tags_of(true, false, false, true, false, false, false)),
        r.tiles@ == seq![8u32],
{
    Bundle {
        record: Record::of(Kind::Bomb(false), Tags::with(true, false, false, true, false, false, false)),
        tiles: one_tile(8),
    }
}

pub fn create_explosion() -> (r: Bundle)
    ensures
        r.record == animation_record(None),
        r.tiles@ == seq![84u32, 85u32, 86u32, 85u32, 84u32],
{
    let t = Tiles { frames: vec![84, 85, 86, 85, 84] };
    assert(t@ =~= seq![84u32, 85u32, 86u32, 85u32, 84u32]);
    Bundle { record: Record::of(Kind::Animation(None), effect_tags_exec()), tiles: t }
}

/// An animation at `pos` that fires `event` when it completes.
fn event_animation(pos: Position, event: GameEvent, tiles: Tiles) -> (r: Bundle)
    ensures
        r.record == (Record { position: Some(pos), ..animation_record(Some(event)) }),
        r.tiles@ == tiles@,
{
    let mut record = Record::of(Kind::Animation(Some(event)), effect_tags_exec());
    record.position = Some(pos);
    Bundle { record, tiles }
}

pub fn spawn_robbo(pos: Position) -> (r: Bundle)
    ensures
        r.record == (Record { position: Some(pos), ..animation_record(Some(GameEvent::SpawnRobbo(pos))) }),
        r.tiles@ == seq![84u32, 85u32, 86u32],
{
    let t = Tiles { frames: vec![84, 85, 86] };
    assert(t@ =~= seq![84u32, 85u32, 86u32]);
    event_animation(pos, GameEvent::SpawnRobbo(pos), t)
}

pub fn pre_spawn_robbo(pos: Position) -> (r: Bundle)
    ensures
        r.record == (Record { position: Some(pos), ..animation_record(Some(GameEvent::PreSpawnRobbo(pos))) }),
        r.tiles@ == seq![17u32, 18u32, 17u32, 18u32, 17u32, 18u32],
{
    let t = Tiles { frames: vec![17, 18, 17, 18, 17, 18] };
    assert(t@ =~= seq![17u32, 18u32, 17u32, 18u32, 17u32, 18u32]);
    event_animation(pos, GameEvent::PreSpawnRobbo(pos), t)
}

/// The capsule leaving with the player; the next level loads afterwards.
pub fn fly_away(pos: Position) -> (r: Bundle)
    ensures
        r.record == (Record { position: Some(pos), ..animation_record(Some(GameEvent::ReloadLevel(1))) }),
        r.tiles@ == seq![17u32, 18u32, 17u32, 18u32, 17u32, 18u32, 17u32, 18u32],
{
    let t = Tiles { frames: vec![17, 18, 17, 18, 17, 18, 17, 18] };
    assert(t@ =~= seq![17u32, 18u32, 17u32, 18u32, 17u32, 18u32, 17u32, 18u32]);
    event_animation(pos, GameEvent::ReloadLevel(1), t)
}

pub fn spawn_random(pos: Position) -> (r: Bundle)
    ensures
        r.record == (Record { position: Some(pos), ..animation_record(Some(GameEvent::SpawnRandom(pos))) }),
        r.tiles@ == seq![84u32, 85u32, 86u32],
{
    let t = Tiles { frames: vec![84, 85, 86] };
    assert(t@ =~= seq![84u32, 85u32, 86u32]);
    event_animation(pos, GameEvent::SpawnRandom(pos), t)
}

pub fn create_questionmark() -> (r: Bundle)
    ensures
        r.record == Record::spec_of(Kind::QuestionMark, tags_of(true, false, false, true, false, false, false)),
        r.tiles@ == seq![12u32],
{
    Bundle {
        record: Record::of(Kind::QuestionMark, Tags::with(true, false, false, true, false, false, false)),
        tiles: one_tile(12),
    }
}

pub fn create_door() -> (r: Bundle)
    ensures
        r.record == (Record { usable: Some(Usable::Door), ..Record::spec_of(Kind::Plain, tags_of(false, false, false, false, false, false, false)) }),
        r.tiles@ == seq![9u32],
{
    let mut record = Record::of(Kind::Plain, Tags::none());
    record.usable = Some(Usable::Door);
    Bundle { record, tiles: one_tile(9) }
}

/// A teleport with the target pair `(params[0], params[1])`.
pub fn create_teleport(params: &[usize]) -> (r: Bundle)
    requires
        params@.len() >= 2,
    ensures
        r.record == (Record {
            usable: Some(Usable::Teleport),
            ..Record::spec_of(Kind::Teleport(params@[0], params@[1]), tags_of(false, false, false, false, false, false, false))
        }),
        r.tiles@ == seq![48u32, 49u32],
{
    let mut record = Record::of(Kind::Teleport(params[0], params[1]), Tags::none());
    record.usable = Some(Usable::Teleport);
    let t = Tiles { frames: vec![48, 49] };
    assert(t@ =~= seq![48u32, 49u32]);
    Bundle { record, tiles: t }
}

pub fn create_eyes() -> (r: Bundle)
    ensures
        r.record == Record::spec_of(Kind::Eyes, tags_of(true, false, true, false, false, false, false)),
        r.tiles@ == seq![32u32, 33u32],
{
    let t = Tiles { frames: vec![32, 33] };
    assert(t@ =~= seq![32u32, 33u32]);
    Bundle {
        record: Record::of(Kind::Eyes, Tags::with(true, false, true, false, false, false, false)),
        tiles: t,
    }
}

/// The gun type of a level code: 1 is solid, 2 a blaster, any other a burst.
pub open spec fn gun_kind_of(code: usize) -> GunKind {
    if code == 1 {
        GunKind::Solid
    } else if code == 2 {
        GunKind::Blaster
    } else {
        GunKind::Burst
    }
}

/// The parameter at `i`, or 0 where the list is shorter.
pub open spec fn param_or_zero(params: Seq<usize>, i: int) -> usize {
    if i < params.len() {
        params[i]
    } else {
        0
    }
}

fn get_or_zero(params: &[usize], i: usize) -> (r: usize)
    ensures
        r == param_or_zero(params@, i as int),
{
    if i < params.len() {
        params[i]
    } else {
        0
    }
}

/// A gun. `params[0]` is its firing direction, `params[2]` its type code;
/// when `params[3] > 0` it moves between walls in direction `params[1]`;
/// `params[5] > 0` makes it rotate at random, else `params[4] > 0` makes it
/// rotate regularly (both optional).
pub fn create_gun(params: &[usize]) -> (r: Bundle)
    requires
        params@.len() >= 4,
        params@[0] < 4,
    ensures
        r.record.alive,
        r.record.kind == Kind::Plain,
        r.record.position.is_none() && r.record.usable.is_none(),
        r.record.gun == Some(gun_kind_of(params@[2])),
        r.record.shooting_prop == Some(ShootingProp { per_mille: SHOOTING_PROP_DEFAULT }),
        r.record.shooting_dir.is_some(),
        (r.record.shooting_dir.unwrap().dir.dx as int, r.record.shooting_dir.unwrap().dir.dy as int)
            == dir_of_index(params@[0] as int),
        params@[3] > 0 ==> r.record.tags == tags_of(false, false, false, true, true, false, false)
            && r.record.moving_dir.is_some() && (
        r.record.moving_dir.unwrap().dx as int,
        r.record.moving_dir.unwrap().dy as int,
        ) == dir_of_index(params@[1] as int),
        params@[3] == 0 ==> r.record.tags == tags_of(false, false, false, false, false, false, false)
            && r.record.moving_dir.is_none(),
        r.record.rotatable == (if param_or_zero(params@, 5) > 0 {
            Some(Rotatable::Random)
        } else if param_or_zero(params@, 4) > 0 {
            Some(Rotatable::Regular)
        } else {
            None
        }),
        r.tiles@ == seq![gun_frames()[params@[0] as int]],
{
    let index = params[0];
    let is_moveable = params[3] > 0;
    let is_rotateable = get_or_zero(params, 4) > 0;
    let is_random_rotateable = get_or_zero(params, 5) > 0;
    let gun_type = if params[2] == 1 {
        GunKind::Solid
    } else if params[2] == 2 {
        GunKind::Blaster
    } else {
        GunKind::Burst
    };
    let mut record = Record::of(Kind::Plain, Tags::none());
    record.shooting_dir = Some(ShootingDir::by_index(index));
    record.shooting_prop = Some(ShootingProp::standard());
    record.gun = Some(gun_type);
    if is_moveable {
        record.tags.moveable = true;
        record.tags.moving_between_walls = true;
        record.moving_dir = Some(MovingDir::by_index(params[1]));
    }
    if is_random_rotateable {
        record.rotatable = Some(Rotatable::Random);
    } else if is_rotateable {
        record.rotatable = Some(Rotatable::Regular);
    }
    Bundle { record, tiles: one_tile(gun_tile(index)) }
}

/// A gun that sits still, fires up, and rotates at random.
pub fn create_questionmark_gun() -> (r: Bundle)
    ensures
        r.record.gun == Some(GunKind::Burst),
        r.record.rotatable == Some(Rotatable::Random),
        r.record.moving_dir.is_none(),
        r.record.shooting_dir.is_some(),
        r.record.shooting_dir.unwrap().dir.dx == 0 && r.record.shooting_dir.unwrap().dir.dy == -1,
        r.tiles@ == seq![56u32],
{
    let params: [usize; 6] = [0, 0, 0, 0, 0, 1];
    assert(params@ == seq![0usize, 0usize, 0usize, 0usize, 0usize, 1usize]);
    create_gun(&params)
}

/// Turns a gun: its new firing direction and the frame that shows it.
pub fn gun_set_shooting_dir(commands: &mut Commands, entity: EntityId, shooting_dir: ShootingDir)
    ensures
        final(commands).view() == old(commands).view().push(
            CommandModel::InsertShootingDir(entity, shooting_dir),
        ).push(
            CommandModel::InsertTiles(
                entity,
                seq![gun_frames()[index_of_dir(shooting_dir.dir.dx as int, shooting_dir.dir.dy as int)]],
            ),
        ),
{
    let index = shooting_dir.to_index();
    commands.push(Command::InsertShootingDir(entity, shooting_dir));
    commands.push(Command::InsertTiles(entity, one_tile(gun_tile(index))));
}

/// A magnet pulling in direction `index`.
pub fn create_magnet(index: usize) -> (r: Bundle)
    requires
        index < 4,
    ensures
        r.record == Record::spec_of(Kind::Magnet(index), tags_of(false, false, true, false, false, false, false)),
        r.tiles@ == seq![magnet_frames()[index as int]],
{
    let frame: u32 = if index == 0 {
        73
    } else if index == 1 {
        0
    } else if index == 2 {
        72
    } else {
        1
    };
    Bundle {
        record: Record::of(Kind::Magnet(index), Tags::with(false, false, true, false, false, false, false)),
        tiles: one_tile(frame),
    }
}

/// A force field sliding in direction `index`.
pub fn create_forcefield(index: usize) -> (r: Bundle)
    ensures
        r.record.kind is ForceField,
        (r.record.kind->ForceField_0.dx as int, r.record.kind->ForceField_0.dy as int) == dir_of_index(index as int),
        r.record == Record::spec_of(r.record.kind, tags_of(true, false, false, false, false, true, false)),
        r.tiles@ == seq![45u32, 45u32, 45u32, 45u32, 57u32, 57u32, 57u32, 57u32],
{
    let t = Tiles { frames: vec![45, 45, 45, 45, 57, 57, 57, 57] };
    assert(t@ =~= seq![45u32, 45u32, 45u32, 45u32, 57u32, 57u32, 57u32, 57u32]);
    Bundle {
        record: Record::of(
            Kind::ForceField(MovingDir::by_index(index)),
            Tags::with(true, false, false, false, false, true, false),
        ),
        tiles: t,
    }
}

} // verus!
