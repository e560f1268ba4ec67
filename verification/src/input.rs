//! The set of keys that are held down, and the controls read from it.

use vstd::hash_set::StringHashSet;
use vstd::prelude::*;

verus! {

/// The five controls of the player, as sampled at the start of a frame.
#[derive(Clone, Copy, Debug, PartialEq, Eq, Structural)]
pub struct Controls {
    /// The key that pushes toward +x.
    pub left: bool,
    /// The key that pushes toward -x.
    pub right: bool,
    /// The key that moves toward +z.
    pub forward: bool,
    /// The key that moves toward -z.
    pub backward: bool,
    /// The jump key.
    pub jump: bool,
}

/// Identifier of the key that steers left.
pub open spec fn key_left() -> Seq<char> {
    "ArrowLeft"@
}

/// Identifier of the key that steers right.
pub open spec fn key_right() -> Seq<char> {
    "ArrowRight"@
}

/// Identifier of the key that moves forward.
pub open spec fn key_forward() -> Seq<char> {
    "ArrowUp"@
}

/// Identifier of the key that moves backward.
pub open spec fn key_backward() -> Seq<char> {
    "ArrowDown"@
}

/// Identifier of the jump key, the space bar.
pub open spec fn key_jump() -> Seq<char> {
    " "@
}

/// What a set of held keys means for the player.
pub open spec fn controls_of(held: Set<Seq<char>>) -> Controls {
    Controls {
        left: held.contains(key_left()),
        right: held.contains(key_right()),
        forward: held.contains(key_forward()),
        backward: held.contains(key_backward()),
        jump: held.contains(key_jump()),
    }
}

/// The keys that are currently held down. Its view is the set of their
/// identifiers; the order of the events that built it leaves no trace.
pub struct InputState {
    held: StringHashSet,
}

impl View for InputState {
    type V = Set<Seq<char>>;

    closed spec fn view(&self) -> Set<Seq<char>> {
        self.held@
    }
}

impl InputState {
    /// No key is held.
    pub fn new() -> (input: InputState)
        ensures
            input@ == Set::<Seq<char>>::empty(),
    {
        InputState { held: StringHashSet::new() }
    }

    /// A key went down: it is held from now on. Returns whether it was not
    /// held before.
    pub fn key_down(&mut self, key: &str) -> (fresh: bool)
        ensures
            final(self)@ == old(self)@.insert(key@),
            fresh == !old(self)@.contains(key@),
    {
        self.held.insert(key.to_owned())
    }

    /// A key went up: it is no longer held. Returns whether it was held.
    pub fn key_up(&mut self, key: &str) -> (was_held: bool)
        ensures
            final(self)@ == old(self)@.remove(key@),
            was_held == old(self)@.contains(key@),
    {
        self.held.remove(key)
    }

    /// Whether `key` is held.
    pub fn is_held(&self, key: &str) -> (held: bool)
        ensures
            held == self@.contains(key@),
    {
        self.held.contains(key)
    }

    /// The controls as the held keys give them.
    pub fn controls(&self) -> (controls: Controls)
        ensures
            controls == controls_of(self@),
    {
        Controls {
            left: self.held.contains("ArrowLeft"),
            right: self.held.contains("ArrowRight"),
            forward: self.held.contains("ArrowUp"),
            backward: self.held.contains("ArrowDown"),
            jump: self.held.contains(" "),
        }
    }
}

/// Pressing a key and releasing it again leaves the other keys as they
/// were, and that key not held.
pub proof fn lemma_press_release(held: Set<Seq<char>>, key: Seq<char>)
    ensures
        held.insert(key).remove(key) == held.remove(key),
        !held.insert(key).remove(key).contains(key),
{
    assert(held.insert(key).remove(key) =~= held.remove(key));
}

} // verus!
