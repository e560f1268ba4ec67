//! The player: position and velocity, and the rules that move them by one
//! frame.
//!
//! Lengths and speeds are integers in thousandths of a world unit, so the
//! resting height -1.0 is -1000 and the top speed 0.5 is 500 per frame.

use crate::input::{controls_of, Controls, InputState};
use crate::terrain::{hole_at, is_hole};
use vstd::prelude::*;

verus! {

/// Height at which the player rests on the ground.
pub const REST_HEIGHT: i64 = -1000;

/// Top speed along x that steering accelerates to.
pub const MAX_SPEED: i64 = 500;

/// What steering adds to the speed along x in one frame.
pub const SPEED_GAIN: i64 = 5;

/// What braking and friction take from the speed along x in one frame.
pub const SPEED_LOSS: i64 = 20;

/// Upward speed that a jump adds.
pub const JUMP_IMPULSE: i64 = 300;

/// Downward speed that one frame in the air adds.
pub const GRAVITY: i64 = 20;

/// Speed along z while a depth key moves the player.
pub const DEPTH_SPEED: i64 = 100;

/// The depth beyond which the forward and backward keys stop moving the
/// player.
pub const DEPTH_EDGE: i64 = 2000;

/// Side length of a tile.
pub const TILE_SIZE: i64 = 2000;

/// Largest magnitude of a coordinate or a speed along x or y for which a
/// frame is computed.
pub const RANGE: i64 = 2_000_000_000_000;

/// Largest magnitude of a coordinate whose tile has an index.
pub const TILE_REACH: i64 = 4_200_000_000_000;

/// A point or a displacement in space.
pub struct Point {
    pub x: int,
    pub y: int,
    pub z: int,
}

/// A point or a displacement in space, in thousandths of a unit.
#[derive(Clone, Copy, Debug, PartialEq, Eq, Structural)]
pub struct Vec3 {
    pub x: i64,
    pub y: i64,
    pub z: i64,
}

impl View for Vec3 {
    type V = Point;

    open spec fn view(&self) -> Point {
        Point { x: self.x as int, y: self.y as int, z: self.z as int }
    }
}

/// Position and velocity of the player as mathematical integers.
pub struct Motion {
    pub pos: Point,
    pub vel: Point,
}

/// The player's position and velocity.
#[derive(Clone, Copy, Debug, PartialEq, Eq, Structural)]
pub struct Player {
    pub pos: Vec3,
    pub vel: Vec3,
}

impl View for Player {
    type V = Motion;

    open spec fn view(&self) -> Motion {
        Motion { pos: self.pos@, vel: self.vel@ }
    }
}

/// Index of the tile that holds coordinate `p`: `p` over the tile size,
/// rounded to the nearest integer, a half rounding away from zero.
pub open spec fn tile_of(p: int) -> int {
    if p >= 0 {
        (p + TILE_SIZE / 2) / (TILE_SIZE as int)
    } else {
        -((TILE_SIZE / 2 - p) / (TILE_SIZE as int))
    }
}

/// Where a new player starts: at rest on the tile at the origin.
pub open spec fn start() -> Motion {
    Motion { pos: Point { x: 0, y: REST_HEIGHT as int, z: 0 }, vel: Point { x: 0, y: 0, z: 0 } }
}

/// What every state reached from the start satisfies and a frame
/// preserves: the speed along x is within the top speed and one braking step,
/// and the depth within the edges and one depth step.
pub open spec fn steady(m: Motion) -> bool {
    &&& -(MAX_SPEED + SPEED_LOSS) <= m.vel.x <= MAX_SPEED + SPEED_LOSS
    &&& -(DEPTH_EDGE + DEPTH_SPEED) < m.pos.z < DEPTH_EDGE + DEPTH_SPEED
}

/// Whether the depth lies over one of the three lanes of the platform, -1, 0
/// and 1.
pub open spec fn on_lanes(m: Motion) -> bool {
    -1 <= tile_of(m.pos.z) <= 1
}

/// Ground contact: the player is at or below the resting height, over a tile
/// that is no hole.
pub open spec fn standing(m: Motion) -> bool {
    m.pos.y <= REST_HEIGHT && !hole_at(tile_of(m.pos.x), tile_of(m.pos.z))
}

/// The change of the speed along x in one frame. On the ground the first
/// rule that matches decides, in this order: braking against a rightward
/// drift, steering left, steering right, braking against a leftward drift,
/// friction from either side, and the full stop below one braking step. In
/// the air the speed is kept.
pub open spec fn push_x(c: Controls, on_ground: bool, vx: int) -> int {
    if !on_ground {
        0
    } else if c.left && !c.right && vx < 0 {
        SPEED_LOSS as int
    } else if c.left && !c.right && vx < MAX_SPEED {
        SPEED_GAIN as int
    } else if c.right && !c.left && -MAX_SPEED < vx <= 0 {
        -SPEED_GAIN
    } else if c.right && !c.left && vx > 0 {
        -SPEED_LOSS
    } else if vx > SPEED_LOSS {
        -SPEED_LOSS
    } else if vx < -SPEED_LOSS {
        SPEED_LOSS as int
    } else {
        -vx
    }
}

/// The speed along y after the rules of the frame: a jump from the ground
/// adds the impulse, rest on the ground stops the fall, the air adds gravity.
pub open spec fn next_vel_y(c: Controls, on_ground: bool, vy: int) -> int {
    if on_ground {
        if c.jump {
            vy + JUMP_IMPULSE
        } else {
            0
        }
    } else {
        vy - GRAVITY
    }
}

/// The speed along z of the frame. It is set, not accumulated: one depth
/// step toward the key that alone is held, while the player is inside that
/// edge.
pub open spec fn next_vel_z(c: Controls, pz: int) -> int {
    if c.forward && !c.backward && pz < DEPTH_EDGE {
        DEPTH_SPEED as int
    } else if c.backward && !c.forward && pz > -DEPTH_EDGE {
        -DEPTH_SPEED
    } else {
        0
    }
}

/// The velocity of the frame, from the state at its start.
pub open spec fn next_velocity(m: Motion, c: Controls) -> Point {
    let on_ground = standing(m);
    Point {
        x: m.vel.x + push_x(c, on_ground, m.vel.x),
        y: next_vel_y(c, on_ground, m.vel.y),
        z: next_vel_z(c, m.pos.z),
    }
}

/// One frame: the rules give the velocity, rest on the ground snaps the
/// height to the resting height, the position moves by the velocity, and a
/// player who then is at or below the resting height over a solid tile is
/// put back on it.
pub open spec fn step(m: Motion, c: Controls) -> Motion {
    let vel = next_velocity(m, c);
    let from_y = if standing(m) && !c.jump {
        REST_HEIGHT as int
    } else {
        m.pos.y
    };
    let moved = Point { x: m.pos.x + vel.x, y: from_y + vel.y, z: m.pos.z + vel.z };
    let landed = Motion { pos: moved, vel: vel };
    Motion {
        pos: Point {
            x: moved.x,
            y: if standing(landed) {
                REST_HEIGHT as int
            } else {
                moved.y
            },
            z: moved.z,
        },
        vel: vel,
    }
}

/// The state after the frames of `frames`, one after the other.
pub open spec fn run(m: Motion, frames: Seq<Controls>) -> Motion
    decreases frames.len(),
{
    if frames.len() == 0 {
        m
    } else {
        step(run(m, frames.drop_last()), frames.last())
    }
}

/// Index of the tile that holds coordinate `p`.
pub fn tile_index(p: i64) -> (tile: i32)
    requires
        -TILE_REACH <= p <= TILE_REACH,
    ensures
        tile == tile_of(p as int),
{
    if p >= 0 {
        ((p + TILE_SIZE / 2) / TILE_SIZE) as i32
    } else {
        (-((TILE_SIZE / 2 - p) / TILE_SIZE)) as i32
    }
}

impl Player {
    /// A player at rest on the tile at the origin.
    pub fn new() -> (player: Player)
        ensures
            player@ == start(),
            player.wf(),
            player.in_range(),
            steady(player@),
    {
        Player { pos: Vec3 { x: 0, y: REST_HEIGHT, z: 0 }, vel: Vec3 { x: 0, y: 0, z: 0 } }
    }

    /// The player is over one of the three lanes: see [`on_lanes`]. Frames
    /// keep it so.
    pub open spec fn wf(&self) -> bool {
        on_lanes(self@)
    }

    /// The coordinates and speeds along x and y are small enough for one
    /// more frame in 64-bit arithmetic.
    pub open spec fn in_range(&self) -> bool {
        &&& -RANGE <= self.pos.x <= RANGE
        &&& -RANGE <= self.pos.y <= RANGE
        &&& -RANGE <= self.vel.x <= RANGE
        &&& -RANGE <= self.vel.y <= RANGE
    }

    /// Whether a frame can be computed from this state: it is well formed
    /// and in range.
    pub fn can_advance(&self) -> (ready: bool)
        ensures
            ready == (self.wf() && self.in_range()),
    {
        -3000 < self.pos.z && self.pos.z < 3000 && -RANGE <= self.pos.x && self.pos.x <= RANGE
            && -RANGE <= self.pos.y && self.pos.y <= RANGE && -RANGE <= self.vel.x
            && self.vel.x <= RANGE && -RANGE <= self.vel.y && self.vel.y <= RANGE
    }

    /// Ground contact at the player's position.
    pub fn is_standing(&self) -> (on_ground: bool)
        requires
            -TILE_REACH <= self.pos.x <= TILE_REACH,
            self.wf(),
        ensures
            on_ground == standing(self@),
    {
        self.pos.y <= REST_HEIGHT && !is_hole(tile_index(self.pos.x), tile_index(self.pos.z))
    }

    /// Moves the player by one frame under the given controls.
    pub fn apply(&mut self, c: Controls)
        requires
            old(self).wf(),
            old(self).in_range(),
        ensures
            final(self)@ == step(old(self)@, c),
            final(self).wf(),
            steady(old(self)@) ==> steady(final(self)@),
    {
        let on_ground = self.is_standing();
        let vx: i64 = self.vel.x;
        let push: i64 = if !on_ground {
            0
        } else if c.left && !c.right && vx < 0 {
            SPEED_LOSS
        } else if c.left && !c.right && vx < MAX_SPEED {
            SPEED_GAIN
        } else if c.right && !c.left && -MAX_SPEED < vx && vx <= 0 {
            -SPEED_GAIN
        } else if c.right && !c.left && vx > 0 {
            -SPEED_LOSS
        } else if vx > SPEED_LOSS {
            -SPEED_LOSS
        } else if vx < -SPEED_LOSS {
            SPEED_LOSS
        } else {
            -vx
        };
        self.vel.x = vx + push;
        if on_ground {
            if c.jump {
                self.vel.y = self.vel.y + JUMP_IMPULSE;
            } else {
                self.vel.y = 0;
                self.pos.y = REST_HEIGHT;
            }
        } else {
            self.vel.y = self.vel.y - GRAVITY;
        }
        self.vel.z = if c.forward && !c.backward && self.pos.z < DEPTH_EDGE {
            DEPTH_SPEED
        } else if c.backward && !c.forward && self.pos.z > -DEPTH_EDGE {
            -DEPTH_SPEED
        } else {
            0
        };
        self.pos.x = self.pos.x + self.vel.x;
        self.pos.y = self.pos.y + self.vel.y;
        self.pos.z = self.pos.z + self.vel.z;
        if self.is_standing() {
            self.pos.y = REST_HEIGHT;
        }
    }

    /// Moves the player by one frame under the keys that are held.
    pub fn advance(&mut self, input: &InputState)
        requires
            old(self).wf(),
            old(self).in_range(),
        ensures
            final(self)@ == step(old(self)@, controls_of(input@)),
            final(self).wf(),
            steady(old(self)@) ==> steady(final(self)@),
    {
        let c = input.controls();
        self.apply(c);
    }
}

} // verus!
