use std::collections::HashSet;
use vstd::prelude::*;

verus! {

/// The state of the cabinet's player controls.
#[derive(Clone, Copy, Debug, PartialEq, Eq, Structural)]
pub struct GamepadInputs {
    pub p1_start: bool,
    pub p2_start: bool,
    pub rotate_left: bool,
    pub rotate_right: bool,
    pub thrust: bool,
    pub fire: bool,
    pub hyperspace: bool,
}

impl Default for GamepadInputs {
    /// No control is pressed.
    fn default() -> (g: Self)
        ensures
            g == gamepad_for_keys(Set::empty()),
    {
        GamepadInputs::new()
    }
}

impl GamepadInputs {
    /// No control is pressed.
    pub fn new() -> (g: Self)
        ensures
            !g.p1_start && !g.p2_start && !g.rotate_left && !g.rotate_right,
            !g.thrust && !g.fire && !g.hyperspace,
            g == gamepad_for_keys(Set::empty()),
    {
        GamepadInputs {
            p1_start: false,
            p2_start: false,
            rotate_left: false,
            rotate_right: false,
            thrust: false,
            fire: false,
            hyperspace: false,
        }
    }
}


/// Keyboard keys, by their USB HID usage ID.
pub const KEY_A: u32 = 0x04;
pub const KEY_D: u32 = 0x07;
pub const KEY_P: u32 = 0x13;
pub const KEY_W: u32 = 0x1A;
pub const KEY_DIGIT1: u32 = 0x1E;
pub const KEY_DIGIT2: u32 = 0x1F;
pub const KEY_ESCAPE: u32 = 0x29;
pub const KEY_SPACE: u32 = 0x2C;
pub const KEY_ARROW_RIGHT: u32 = 0x4F;
pub const KEY_SHIFT_LEFT: u32 = 0xE1;

/// The set of keyboard keys currently held down.
pub struct KeyState {
    held: HashSet<u32>,
}

impl View for KeyState {
    type V = Set<u32>;

    closed spec fn view(&self) -> Set<u32> {
        self.held@
    }
}

/// The controls that the held keys press: W thrusts, A and D rotate, Space
/// fires, left Shift jumps to hyperspace, 1 and 2 start a game.
pub open spec fn gamepad_for_keys(held: Set<u32>) -> GamepadInputs {
    GamepadInputs {
        thrust: held.contains(KEY_W),
        rotate_left: held.contains(KEY_A),
        rotate_right: held.contains(KEY_D),
        fire: held.contains(KEY_SPACE),
        hyperspace: held.contains(KEY_SHIFT_LEFT),
        p1_start: held.contains(KEY_DIGIT1),
        p2_start: held.contains(KEY_DIGIT2),
    }
}

impl KeyState {
    /// No key is held.
    pub fn new() -> (k: Self)
        ensures
            k@ == Set::<u32>::empty(),
    {
        KeyState { held: HashSet::new() }
    }

    /// Records that `key` was pressed or released.
    pub fn set(&mut self, key: u32, pressed: bool)
        ensures
            final(self)@ == (if pressed {
                old(self)@.insert(key)
            } else {
                old(self)@.remove(key)
            }),
    {
        broadcast use vstd::std_specs::hash::group_hash_axioms;

        if pressed {
            self.held.insert(key);
        } else {
            self.held.remove(&key);
        }
    }

    /// Forgets every held key.
    pub fn clear(&mut self)
        ensures
            final(self)@ == Set::<u32>::empty(),
    {
        self.held.clear();
    }

    pub fn is_key_down(&self, key: u32) -> (down: bool)
        ensures
            down == self@.contains(key),
    {
        broadcast use vstd::std_specs::hash::group_hash_axioms;

        self.held.contains(&key)
    }

    /// The controls that the held keys press.
    pub fn current_gamepad(&self) -> (g: GamepadInputs)
        ensures
            g == gamepad_for_keys(self@),
    {
        GamepadInputs {
            thrust: self.is_key_down(KEY_W),
            rotate_left: self.is_key_down(KEY_A),
            rotate_right: self.is_key_down(KEY_D),
            fire: self.is_key_down(KEY_SPACE),
            hyperspace: self.is_key_down(KEY_SHIFT_LEFT),
            p1_start: self.is_key_down(KEY_DIGIT1),
            p2_start: self.is_key_down(KEY_DIGIT2),
        }
    }
}


/// A rotates left and D rotates right: holding A and not D presses
/// rotate_left and not rotate_right, and holding D and not A the reverse.
/// Holding W thrusts, Space fires, left Shift jumps to hyperspace, and 1 and
/// 2 start a one or two player game; a key outside these presses nothing.
pub proof fn lemma_controls_of_keys(held: Set<u32>, key: u32)
    ensures
        held.contains(KEY_A) && !held.contains(KEY_D) ==> gamepad_for_keys(held).rotate_left
            && !gamepad_for_keys(held).rotate_right,
        held.contains(KEY_D) && !held.contains(KEY_A) ==> gamepad_for_keys(held).rotate_right
            && !gamepad_for_keys(held).rotate_left,
        held.contains(KEY_W) ==> gamepad_for_keys(held).thrust,
        held.contains(KEY_SPACE) ==> gamepad_for_keys(held).fire,
        held.contains(KEY_SHIFT_LEFT) ==> gamepad_for_keys(held).hyperspace,
        held.contains(KEY_DIGIT1) ==> gamepad_for_keys(held).p1_start,
        held.contains(KEY_DIGIT2) ==> gamepad_for_keys(held).p2_start,
        ({
            let g = gamepad_for_keys(Set::empty());
            !g.p1_start && !g.p2_start && !g.rotate_left && !g.rotate_right && !g.thrust && !g.fire
                && !g.hyperspace
        }),
        key != KEY_A && key != KEY_D && key != KEY_W && key != KEY_SPACE && key != KEY_SHIFT_LEFT
            && key != KEY_DIGIT1 && key != KEY_DIGIT2 ==> gamepad_for_keys(held.insert(key))
            == gamepad_for_keys(held),
{
}

/// A pressed key is held until it is released; pressing or releasing one
/// key leaves every other key as it was.
pub proof fn lemma_press_and_release(held: Set<u32>, key: u32, other: u32)
    requires
        other != key,
    ensures
        held.insert(key).contains(key),
        !held.remove(key).contains(key),
        held.insert(key).contains(other) == held.contains(other),
        held.remove(key).contains(other) == held.contains(other),
{
}

} // verus!
