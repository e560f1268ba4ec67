//! What holds of the player's motion over one frame and over any number of
//! frames.

use crate::input::Controls;
use crate::player::{on_lanes, run, standing, start, steady, step, Motion};
use vstd::prelude::*;

verus! {

/// A frame keeps the speed along x bounded: a speed within the top speed
/// plus one braking step, 0.52 per frame, stays within it.
pub proof fn lemma_step_speed_bounded(m: Motion, c: Controls)
    requires
        -520 <= m.vel.x <= 520,
    ensures
        -520 <= step(m, c).vel.x <= 520,
{
}

/// A frame keeps the depth bounded: a depth within the edges plus one depth
/// step, 2.1, stays within it.
pub proof fn lemma_step_depth_bounded(m: Motion, c: Controls)
    requires
        -2100 < m.pos.z < 2100,
    ensures
        -2100 < step(m, c).pos.z < 2100,
{
}

/// A frame keeps the player over the three lanes of the platform.
pub proof fn lemma_step_keeps_lanes(m: Motion, c: Controls)
    requires
        on_lanes(m),
    ensures
        on_lanes(step(m, c)),
{
}

/// Frames keep a steady state steady, whatever the controls of each frame.
pub proof fn lemma_run_steady(m: Motion, frames: Seq<Controls>)
    requires
        steady(m),
    ensures
        steady(run(m, frames)),
    decreases frames.len(),
{
    if frames.len() > 0 {
        lemma_run_steady(m, frames.drop_last());
    }
}

/// From the start, after any frames, the speed along x is within 0.52 per
/// frame and the depth is a whole number of depth steps between the two
/// edges, -2.0 and 2.0.
pub proof fn lemma_run_from_start(frames: Seq<Controls>)
    ensures
        -520 <= run(start(), frames).vel.x <= 520,
        -2000 <= run(start(), frames).pos.z <= 2000,
        run(start(), frames).pos.z % 100 == 0,
    decreases frames.len(),
{
    if frames.len() > 0 {
        lemma_run_from_start(frames.drop_last());
    }
}

/// Rest on the ground: a frame that starts standing, without the jump key,
/// ends at the resting height with no speed along y.
pub proof fn lemma_rest_on_ground(m: Motion, c: Controls)
    requires
        standing(m),
        !c.jump,
    ensures
        step(m, c).pos.y == -1000,
        step(m, c).vel.y == 0,
{
}

/// Jump: a frame that starts standing with the jump key held adds the
/// impulse, 0.3, to the speed along y; from rest the speed is the impulse.
pub proof fn lemma_jump_impulse(m: Motion, c: Controls)
    requires
        standing(m),
        c.jump,
    ensures
        step(m, c).vel.y == m.vel.y + 300,
        m.vel.y == 0 ==> step(m, c).vel.y == 300,
{
}

/// In the air the jump key does nothing: the frame adds gravity to the speed
/// along y and leaves the speed along x as it was.
pub proof fn lemma_airborne(m: Motion, c: Controls)
    requires
        !standing(m),
    ensures
        step(m, c).vel.y == m.vel.y - 20,
        step(m, c).vel.x == m.vel.x,
{
}

/// The depth after `n` frames that move forward from depth 0: one depth step
/// per frame up to the forward edge.
pub open spec fn forward_depth(n: nat) -> int {
    if n <= 20 {
        100 * (n as int)
    } else {
        2000
    }
}

/// Whether every frame holds the forward key and not the backward key.
pub open spec fn all_forward(frames: Seq<Controls>) -> bool {
    forall|i: int| 0 <= i < frames.len() ==> (#[trigger] frames[i]).forward && !frames[i].backward
}

/// With the forward key held from the start, the depth grows by one depth
/// step per frame, reaches the forward edge after 20 frames and stays there;
/// the speed along z is one depth step in each of the first 20 frames and
/// zero afterwards.
pub proof fn lemma_forward_reaches_edge(frames: Seq<Controls>)
    requires
        all_forward(frames),
    ensures
        run(start(), frames).pos.z == forward_depth(frames.len()),
        0 < frames.len() <= 20 ==> run(start(), frames).vel.z == 100,
        frames.len() > 20 ==> run(start(), frames).vel.z == 0,
    decreases frames.len(),
{
    if frames.len() > 0 {
        let before = frames.drop_last();
        assert(all_forward(before)) by {
            assert forall|i: int| 0 <= i < before.len() implies (#[trigger] before[i]).forward
                && !before[i].backward by {
                assert(before[i] == frames[i]);
            }
        }
        lemma_forward_reaches_edge(before);
        assert(frames.last() == frames[frames.len() - 1]);
    }
}

} // verus!
