//! What one frame draws: the tiles around the player and the segments of the
//! player's body.
//!
//! Colour channels are integers in thousandths, so full intensity is 1000.

use crate::player::{tile_index, tile_of, Motion, Player, Vec3};
use crate::terrain::{hole_at, is_hole};
use vstd::prelude::*;

verus! {

/// Number of tile columns to each side of the player's column: the window
/// starts this many columns before it and ends one short of as many after.
pub const HALF_WINDOW: i32 = 20;

/// Distance of the camera's eye from the player's column.
pub const CAMERA_DISTANCE: i64 = 5000;

/// Distance of the near clipping plane.
pub const NEAR_PLANE: i64 = 100;

/// Distance of the far clipping plane.
pub const FAR_PLANE: i64 = 10_000_000;

/// Height of the tiles' plane: two units below the origin.
pub const FLOOR_HEIGHT: i64 = -2000;

/// Width of a body segment as a share of its height.
pub const SEGMENT_WIDTH: i64 = 300;

/// Distance of a body segment from the player's vertical axis.
pub const SEGMENT_OFFSET: i64 = 700;

/// A flat colour: red, green, blue and opacity.
#[derive(Clone, Copy, Debug, PartialEq, Eq, Structural)]
pub struct Color {
    pub red: i64,
    pub green: i64,
    pub blue: i64,
    pub alpha: i64,
}

/// A tile to draw: its column, its lane and its colour.
#[derive(Clone, Copy, Debug, PartialEq, Eq, Structural)]
pub struct Tile {
    pub x: i32,
    pub z: i32,
    pub color: Color,
}

/// One of the flat segments that stand around the player's vertical axis.
#[derive(Clone, Copy, Debug, PartialEq, Eq, Structural)]
pub struct BodySegment {
    /// The segment's turn about the vertical axis, in eighths of a full
    /// turn.
    pub eighths: u8,
    pub color: Color,
}

/// The draw list of one frame.
pub struct Scene {
    /// The point that the camera looks at and the body stands on: the
    /// player's position.
    pub focus: Vec3,
    /// Sideways tilt of the camera's direction: minus three times the
    /// player's speed along x.
    pub lean: i64,
    /// The solid tiles of the window, column by column, in each column from
    /// lane -1 to lane 1.
    pub tiles: Vec<Tile>,
    /// The eight segments of the player's body, by rising turn.
    pub body: Vec<BodySegment>,
}

/// Colour of the tile in column `x` of lane `z`: a checkerboard, dark grey
/// where `x + z` is even and light grey where it is odd.
pub open spec fn tile_color(x: int, z: int) -> Color {
    if (x + z) % 2 == 0 {
        Color { red: 300, green: 300, blue: 300, alpha: 1000 }
    } else {
        Color { red: 500, green: 500, blue: 500, alpha: 1000 }
    }
}

/// The cells of the window around column `base`, in drawing order: forty
/// columns from `base - 20` to `base + 19`, in each the lanes -1, 0 and 1.
pub open spec fn window(base: int) -> Seq<(int, int)> {
    Seq::new(120, |i: int| (base - 20 + i / 3, i % 3 - 1))
}

/// Whether a cell holds a tile.
pub open spec fn solid(cell: (int, int)) -> bool {
    !hole_at(cell.0, cell.1)
}

/// The cells that are drawn around column `base`: those of the window that
/// are no holes, in the window's order.
pub open spec fn visible(base: int) -> Seq<(int, int)> {
    window(base).filter(|cell: (int, int)| solid(cell))
}

/// The cells of a list of tiles.
pub open spec fn cells(tiles: Seq<Tile>) -> Seq<(int, int)> {
    tiles.map_values(|t: Tile| (t.x as int, t.z as int))
}

/// Weight of segment `i` in the blend from orange to green: its distance, in
/// segments, from the segment at turn 0, the shorter way round.
pub open spec fn blend_weight(i: int) -> int {
    if i >= 4 {
        8 - i
    } else {
        i
    }
}

/// Segment `i` of the body: turned by `i` eighths, its red raised and its
/// green lowered by 0.2 for each unit of its weight.
pub open spec fn segment(i: int) -> BodySegment {
    BodySegment {
        eighths: i as u8,
        color: Color {
            red: (800 + 200 * blend_weight(i)) as i64,
            green: (800 - 200 * blend_weight(i)) as i64,
            blue: 200,
            alpha: 1000,
        },
    }
}

impl Tile {
    /// Where the tile lies: the translation of its model, two units per
    /// column and per lane.
    pub fn offset(&self) -> (at: Vec3)
        ensures
            at.x == 2000 * self.x,
            at.y == 0,
            at.z == 2000 * self.z,
    {
        let x: i64 = self.x as i64;
        let z: i64 = self.z as i64;
        Vec3 { x: 2000 * x, y: 0, z: 2000 * z }
    }
}

/// The tiles to draw around column `base`.
pub fn visible_tiles(base: i32) -> (tiles: Vec<Tile>)
    requires
        i32::MIN + 20 <= base <= i32::MAX - 20,
    ensures
        cells(tiles@) == visible(base as int),
        forall|i: int|
            0 <= i < tiles.len() ==> (#[trigger] tiles[i]).color == tile_color(
                tiles[i].x as int,
                tiles[i].z as int,
            ),
{
    let mut tiles: Vec<Tile> = Vec::new();
    let ghost all = window(base as int);
    let ghost keep = |cell: (int, int)| solid(cell);
    let mut i: i32 = 0;
    proof {
        reveal(Seq::filter);
        assert(all.take(0).len() == 0);
        assert(cells(tiles@) =~= all.take(0).filter(keep));
    }
    while i < 120
        invariant
            0 <= i <= 120,
            i32::MIN + 20 <= base <= i32::MAX - 20,
            all == window(base as int),
            keep == |cell: (int, int)| solid(cell),
            cells(tiles@) == all.take(i as int).filter(keep),
            forall|k: int|
                0 <= k < tiles.len() ==> (#[trigger] tiles[k]).color == tile_color(
                    tiles[k].x as int,
                    tiles[k].z as int,
                ),
        decreases 120 - i,
    {
        let x: i32 = base - HALF_WINDOW + i / 3;
        let z: i32 = i % 3 - 1;
        let ghost before = tiles@;
        let hole = is_hole(x, z);
        if !hole {
            let sum: i64 = x as i64 + z as i64;
            let color = if sum % 2 == 0 {
                Color { red: 300, green: 300, blue: 300, alpha: 1000 }
            } else {
                Color { red: 500, green: 500, blue: 500, alpha: 1000 }
            };
            tiles.push(Tile { x, z, color });
        }
        proof {
            reveal(Seq::filter);
            let next = all.take(i + 1);
            assert(next.drop_last() =~= all.take(i as int));
            assert(next.last() == (x as int, z as int));
            if !hole {
                assert(cells(tiles@) =~= cells(before).push((x as int, z as int)));
            }
        }
        i = i + 1;
    }
    proof {
        assert(all.take(120) =~= all);
    }
    tiles
}

/// The eight segments of the player's body.
pub fn body_segments() -> (body: Vec<BodySegment>)
    ensures
        body.len() == 8,
        forall|i: int| 0 <= i < 8 ==> #[trigger] body[i] == segment(i),
{
    let mut body: Vec<BodySegment> = Vec::new();
    let mut i: u8 = 0;
    while i < 8
        invariant
            0 <= i <= 8,
            body.len() == i,
            forall|k: int| 0 <= k < i ==> #[trigger] body[k] == segment(k),
        decreases 8 - i,
    {
        let weight: i64 = if i >= 4 {
            8 - i as i64
        } else {
            i as i64
        };
        body.push(
            BodySegment {
                eighths: i,
                color: Color {
                    red: 800 + 200 * weight,
                    green: 800 - 200 * weight,
                    blue: 200,
                    alpha: 1000,
                },
            },
        );
        i = i + 1;
    }
    body
}

/// The draw list of a frame for a player in state `m`.
pub open spec fn scene_of(m: Motion, scene: Scene) -> bool {
    &&& scene.focus@ == m.pos
    &&& scene.lean == -3 * m.vel.x
    &&& cells(scene.tiles@) == visible(tile_of(m.pos.x))
    &&& forall|i: int|
        0 <= i < scene.tiles.len() ==> (#[trigger] scene.tiles[i]).color == tile_color(
            scene.tiles[i].x as int,
            scene.tiles[i].z as int,
        )
    &&& scene.body.len() == 8
    &&& forall|i: int| 0 <= i < 8 ==> #[trigger] scene.body[i] == segment(i)
}

/// Composes the frame: the camera's focus and lean, the solid tiles of the
/// window around the player's column, and the body.
pub fn draw_scene(player: &Player) -> (scene: Scene)
    requires
        player.wf(),
        player.in_range(),
    ensures
        scene_of(player@, scene),
{
    let base = tile_index(player.pos.x);
    let speed: i64 = player.vel.x;
    let lean: i64 = 0 - 3 * speed;
    Scene { focus: player.pos, lean, tiles: visible_tiles(base), body: body_segments() }
}

/// The window is exact: a cell is drawn if and only if its column is one of
/// the forty from `base - 20` to `base + 19`, its lane is -1, 0 or 1, and it
/// is no hole.
pub proof fn lemma_window_exact(base: int, x: int, z: int)
    ensures
        visible(base).contains((x, z)) <==> (base - 20 <= x <= base + 19 && -1 <= z <= 1
            && !hole_at(x, z)),
{
    let all = window(base);
    let keep = |cell: (int, int)| solid(cell);
    if base - 20 <= x <= base + 19 && -1 <= z <= 1 && !hole_at(x, z) {
        let i = (x - base + 20) * 3 + (z + 1);
        assert(all[i] == (x, z));
        all.lemma_filter_contains(keep, i);
    }
    if visible(base).contains((x, z)) {
        all.lemma_filter_contains_rev(keep, (x, z));
        let i = choose|i: int| 0 <= i < all.len() && all[i] == (x, z);
        assert(all[i] == (base - 20 + i / 3, i % 3 - 1));
        let k = choose|k: int| 0 <= k < visible(base).len() && visible(base)[k] == (x, z);
        all.lemma_filter_pred(keep, k);
    }
}

/// The scene of a player shows exactly the solid cells of the forty columns
/// around the player's column, from twenty before it to nineteen after it,
/// in the three lanes. For a player at x = 0 these are the columns -20 to 19.
pub proof fn lemma_scene_window(m: Motion, scene: Scene, x: int, z: int)
    requires
        scene_of(m, scene),
    ensures
        cells(scene.tiles@).contains((x, z)) <==> (tile_of(m.pos.x) - 20 <= x <= tile_of(m.pos.x)
            + 19 && -1 <= z <= 1 && !hole_at(x, z)),
        m.pos.x == 0 ==> tile_of(m.pos.x) == 0,
{
    lemma_window_exact(tile_of(m.pos.x), x, z);
}

/// A frame draws at most 120 tiles.
pub proof fn lemma_visible_bounded(base: int)
    ensures
        visible(base).len() <= 120,
{
    window(base).lemma_filter_len(|cell: (int, int)| solid(cell));
}

} // verus!
