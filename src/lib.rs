use vstd::prelude::*;

pub mod geom;
pub mod components;
pub mod world;
pub mod board;
pub mod occupancy;
pub mod damage;
pub mod frame_cnt;
pub mod level;
pub mod entities;
pub mod bullets;
pub mod push_boxes;
pub mod blasters;
pub mod capsules;
pub mod game;

verus! {

} // verus!
