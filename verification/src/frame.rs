//! The frame: the surface's counter and backdrop, and the order in which a
//! tick clears, draws and moves.

use crate::input::{controls_of, InputState};
use crate::player::{start, steady, step, Player};
use crate::scene::{draw_scene, scene_of, Scene};
use vstd::prelude::*;

verus! {

/// Width of the drawing surface in pixels.
pub const SURFACE_WIDTH: u32 = 1200;

/// Height of the drawing surface in pixels.
pub const SURFACE_HEIGHT: u32 = 700;

/// Number of frames in which the backdrop's tint rises from none to full;
/// it falls back in as many.
pub const TINT_STEPS: u64 = 128;

/// The colour that a frame is cleared with. Red, green and opacity are in
/// thousandths; the blue channel is `blue_steps` out of [`TINT_STEPS`].
#[derive(Clone, Copy, Debug, PartialEq, Eq, Structural)]
pub struct Backdrop {
    pub red: i64,
    pub green: i64,
    pub blue_steps: u64,
    pub alpha: i64,
}

/// The tint of frame `n`: a triangular wave with a period of 256 frames,
/// which rises by one step per frame for 128 frames and then falls by one
/// step per frame.
pub open spec fn tint(n: int) -> int {
    let phase = n % 256;
    if phase < 128 {
        phase
    } else {
        256 - phase
    }
}

/// The backdrop of frame `n`: no red, half green, the frame's tint as blue,
/// opaque.
pub open spec fn backdrop(n: int) -> Backdrop {
    Backdrop { red: 0, green: 500, blue_steps: tint(n) as u64, alpha: 1000 }
}

/// The surface's frame counter and the keys that are held.
pub struct Main {
    /// Number of frames cleared so far.
    pub framecount: u64,
    /// The keys that are held, as the key events have left them.
    pub keys: InputState,
}

impl Main {
    /// A surface on which no frame was drawn and no key is held.
    pub fn new() -> (surface: Main)
        ensures
            surface.framecount == 0,
            surface.keys@ == Set::<Seq<char>>::empty(),
    {
        Main { framecount: 0, keys: InputState::new() }
    }

    /// Starts a frame: gives the colour to clear the surface with and
    /// counts the frame.
    pub fn frame(&mut self) -> (clear: Backdrop)
        requires
            old(self).framecount < u64::MAX,
        ensures
            clear == backdrop(old(self).framecount as int),
            final(self).framecount == old(self).framecount + 1,
            final(self).keys == old(self).keys,
    {
        let phase: u64 = self.framecount % 256;
        let blue_steps: u64 = if phase < TINT_STEPS {
            phase
        } else {
            256 - phase
        };
        self.framecount = self.framecount + 1;
        Backdrop { red: 0, green: 500, blue_steps, alpha: 1000 }
    }
}

/// What a tick hands over to be drawn.
pub struct FramePlan {
    /// The colour to clear the surface with.
    pub clear: Backdrop,
    /// The draw list, composed from the player's state before the tick
    /// moves the player.
    pub scene: Scene,
}

/// The state that lives across frames.
pub struct FrameDriver {
    pub surface: Main,
    pub player: Player,
}

impl FrameDriver {
    /// A driver at its first frame, the player at the start.
    pub fn new() -> (driver: FrameDriver)
        ensures
            driver.surface.framecount == 0,
            driver.surface.keys@ == Set::<Seq<char>>::empty(),
            driver.player@ == start(),
            driver.ready(),
    {
        FrameDriver { surface: Main::new(), player: Player::new() }
    }

    /// A tick can be taken: the counter can count one more frame and the
    /// player can be moved.
    pub open spec fn ready(&self) -> bool {
        &&& self.surface.framecount < u64::MAX
        &&& self.player.wf()
        &&& self.player.in_range()
    }

    /// Whether a tick can be taken.
    pub fn is_ready(&self) -> (ready: bool)
        ensures
            ready == self.ready(),
    {
        self.surface.framecount < u64::MAX && self.player.can_advance()
    }

    /// One tick, in its order: start the frame, compose the scene from the
    /// player as it stands, then move the player by one frame under the
    /// keys that are held.
    pub fn tick(&mut self) -> (plan: FramePlan)
        requires
            old(self).ready(),
        ensures
            plan.clear == backdrop(old(self).surface.framecount as int),
            scene_of(old(self).player@, plan.scene),
            final(self).surface.framecount == old(self).surface.framecount + 1,
            final(self).surface.keys == old(self).surface.keys,
            final(self).player@ == step(old(self).player@, controls_of(old(self).surface.keys@)),
            final(self).player.wf(),
            steady(old(self).player@) ==> steady(final(self).player@),
    {
        let clear = self.surface.frame();
        let scene = draw_scene(&self.player);
        self.player.advance(&self.surface.keys);
        FramePlan { clear, scene }
    }
}

/// The tint stays between none and full.
pub proof fn lemma_tint_bounded(n: int)
    requires
        n >= 0,
    ensures
        0 <= tint(n) <= 128,
{
}

/// The tint repeats every 256 frames.
pub proof fn lemma_tint_periodic(n: int)
    requires
        n >= 0,
    ensures
        tint(n + 256) == tint(n),
{
}

/// The tint moves by exactly one step from a frame to the next: up in the
/// first half of a period, down in the second.
pub proof fn lemma_tint_ramp(n: int)
    requires
        n >= 0,
    ensures
        n % 256 < 128 ==> tint(n + 1) == tint(n) + 1,
        n % 256 >= 128 ==> tint(n + 1) == tint(n) - 1,
{
}

} // verus!
