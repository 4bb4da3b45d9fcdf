use vstd::prelude::*;
use crate::geom::{MovingDir, Position, ShootingDir};

verus! {

/// Presence-only markers of an entity.
#[derive(Clone, Copy, Debug, PartialEq, Eq, Structural)]
pub struct Tags {
    pub destroyable: bool,
    pub undestroyable: bool,
    pub deadly: bool,
    pub moveable: bool,
    pub moving_between_walls: bool,
    pub rough_update: bool,
    pub wall: bool,
}

/// Tags with the given markers set, in field order.
pub open spec fn tags_of(
    destroyable: bool,
    undestroyable: bool,
    deadly: bool,
    moveable: bool,
    moving_between_walls: bool,
    rough_update: bool,
    wall: bool,
) -> Tags {
    Tags {
        destroyable,
        undestroyable,
        deadly,
        moveable,
        moving_between_walls,
        rough_update,
        wall,
    }
}

impl Tags {
    pub open spec fn wf(self) -> bool {
        !(self.destroyable && self.undestroyable)
    }

    pub fn with(
        destroyable: bool,
        undestroyable: bool,
        deadly: bool,
        moveable: bool,
        moving_between_walls: bool,
        rough_update: bool,
        wall: bool,
    ) -> (r: Tags)
        ensures
            r == tags_of(
                destroyable,
                undestroyable,
                deadly,
                moveable,
                moving_between_walls,
                rough_update,
                wall,
            ),
    {
        Tags {
            destroyable,
            undestroyable,
            deadly,
            moveable,
            moving_between_walls,
            rough_update,
            wall,
        }
    }

    pub fn none() -> (r: Tags)
        ensures
            r == (Tags {
                destroyable: false,
                undestroyable: false,
                deadly: false,
                moveable: false,
                moving_between_walls: false,
                rough_update: false,
                wall: false,
            }),
    {
        Tags {
            destroyable: false,
            undestroyable: false,
            deadly: false,
            moveable: false,
            moving_between_walls: false,
            rough_update: false,
            wall: false,
        }
    }
}

/// A lifecycle action fired when an animation completes.
#[derive(Clone, Copy, Debug, PartialEq, Eq, Structural)]
pub enum GameEvent {
    SpawnRobbo(Position),
    PreSpawnRobbo(Position),
    SpawnRandom(Position),
    ReloadLevel(i32),
}

#[derive(Clone, Copy, Debug, PartialEq, Eq, Structural)]
pub enum GunKind {
    Burst,
    Solid,
    Blaster,
}

#[derive(Clone, Copy, Debug, PartialEq, Eq, Structural)]
pub enum Rotatable {
    Random,
    Regular,
}

#[derive(Clone, Copy, Debug, PartialEq, Eq, Structural)]
pub enum Collectable {
    Screw,
    Ammo,
    Key,
}

#[derive(Clone, Copy, Debug, PartialEq, Eq, Structural)]
pub enum Usable {
    Door,
    Capsule,
    Teleport,
}

/// Firing probability of a gun, in thousandths per keyframe.
#[derive(Clone, Copy, Debug, PartialEq, Eq, Structural)]
pub struct ShootingProp {
    pub per_mille: u32,
}

pub const SHOOTING_PROP_CERTAIN: u32 = 1000;

pub const SHOOTING_PROP_DEFAULT: u32 = 50;

impl ShootingProp {
    pub fn certain() -> (r: ShootingProp)
        ensures
            r.per_mille == SHOOTING_PROP_CERTAIN,
    {
        ShootingProp { per_mille: SHOOTING_PROP_CERTAIN }
    }

    pub fn standard() -> (r: ShootingProp)
        ensures
            r.per_mille == SHOOTING_PROP_DEFAULT,
    {
        ShootingProp { per_mille: SHOOTING_PROP_DEFAULT }
    }
}

/// The role that decides which behavior system drives an entity.
#[derive(Clone, Copy, Debug, PartialEq, Eq, Structural)]
pub enum Kind {
    Plain,
    Robbo,
    Bird,
    Bear(bool),
    PushBox,
    Bullet,
    LaserHead { gun_pos: Position, is_moving_back: bool },
    BlasterHead,
    LaserTail,
    Animation(Option<GameEvent>),
    Collectable(Collectable),
    Capsule,
    Bomb(bool),
    QuestionMark,
    Teleport(usize, usize),
    Eyes,
    Magnet(usize),
    ForceField(MovingDir),
}

/// Every component of one entity but its animation frames.
#[derive(Clone, Copy, Debug, PartialEq, Eq, Structural)]
pub struct Record {
    pub alive: bool,
    pub kind: Kind,
    pub tags: Tags,
    pub position: Option<Position>,
    pub moving_dir: Option<MovingDir>,
    pub gun: Option<GunKind>,
    pub shooting_dir: Option<ShootingDir>,
    pub shooting_prop: Option<ShootingProp>,
    pub rotatable: Option<Rotatable>,
    pub usable: Option<Usable>,
}

impl Record {
    /// A live entity of the given kind and tags with no other component.
    pub fn of(kind: Kind, tags: Tags) -> (r: Record)
        ensures
            r == Record::spec_of(kind, tags),
    {
        Record {
            alive: true,
            kind,
            tags,
            position: None,
            moving_dir: None,
            gun: None,
            shooting_dir: None,
            shooting_prop: None,
            rotatable: None,
            usable: None,
        }
    }

    pub open spec fn spec_of(kind: Kind, tags: Tags) -> Record {
        Record {
            alive: true,
            kind,
            tags,
            position: None,
            moving_dir: None,
            gun: None,
            shooting_dir: None,
            shooting_prop: None,
            rotatable: None,
            usable: None,
        }
    }
}

/// The cyclic sequence of visual frames of an entity.
#[derive(Debug)]
pub struct Tiles {
    pub frames: Vec<u32>,
}

impl View for Tiles {
    type V = Seq<u32>;

    open spec fn view(&self) -> Seq<u32> {
        self.frames@
    }
}

impl Tiles {
    pub fn new(frames: &[u32]) -> (r: Tiles)
        ensures
            r@ == frames@,
    {
        let mut v: Vec<u32> = Vec::new();
        let mut i: usize = 0;
        while i < frames.len()
            invariant
                i <= frames@.len(),
                v@ == frames@.subrange(0, i as int),
            decreases frames@.len() - i,
        {
            v.push(frames[i]);
            i = i + 1;
        }
        assert(v@ =~= frames@);
        Tiles { frames: v }
    }
}

/// The full component set of an entity that is about to be spawned.
#[derive(Debug)]
pub struct Bundle {
    pub record: Record,
    pub tiles: Tiles,
}

impl Bundle {
    /// The same bundle, placed at `pos`.
    pub fn with_position(self, pos: Position) -> (r: Bundle)
        ensures
            r.record == (Record { position: Some(pos), ..self.record }),
            r.tiles@ == self.tiles@,
    {
        let mut record = self.record;
        record.position = Some(pos);
        Bundle { record, tiles: self.tiles }
    }
}

} // verus!
