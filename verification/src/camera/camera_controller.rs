use crate::input::{pressed_in, InputManager, Key};
use vstd::prelude::*;

verus! {

/// The movements that one update applies to the orbit camera, in the order
/// in which they are applied: dolly forward, dolly backward, strafe right,
/// strafe left.
#[derive(Clone, Copy, Debug, PartialEq, Eq, Structural)]
pub struct CameraMoves {
    /// Move the eye towards the target by one step.
    pub dolly_forward: bool,
    /// Move the eye away from the target by one step.
    pub dolly_backward: bool,
    /// Swing the eye to the right, keeping its distance to the target.
    pub strafe_right: bool,
    /// Swing the eye to the left, keeping its distance to the target.
    pub strafe_left: bool,
}

/// The movements that the key states `states` ask for.
///
/// `beyond_step` says whether the eye is farther from the target than one
/// step. A forward dolly is only granted then, so that the eye never crosses
/// the pivot; the other three movements follow their keys alone.
pub open spec fn moves_for(states: Map<Key, bool>, beyond_step: bool) -> CameraMoves {
    CameraMoves {
        dolly_forward: pressed_in(states, Key::W) && beyond_step,
        dolly_backward: pressed_in(states, Key::S),
        strafe_right: pressed_in(states, Key::D),
        strafe_left: pressed_in(states, Key::A),
    }
}

impl CameraMoves {
    /// Whether the update leaves the camera where it is.
    pub open spec fn is_still(self) -> bool {
        !self.dolly_forward && !self.dolly_backward && !self.strafe_right && !self.strafe_left
    }

    /// Whether any movement is asked for.
    pub fn any(&self) -> (r: bool)
        ensures
            r == !self.is_still(),
    {
        self.dolly_forward || self.dolly_backward || self.strafe_right || self.strafe_left
    }
}

/// Decides which movements the camera makes this frame.
pub fn update_camera(input_manager: &InputManager, beyond_step: bool) -> (moves: CameraMoves)
    ensures
        moves == moves_for(input_manager@, beyond_step),
{
    let forward = input_manager.key_pressed(Key::W) && beyond_step;
    let backward = input_manager.key_pressed(Key::S);
    let right = input_manager.key_pressed(Key::D);
    let left = input_manager.key_pressed(Key::A);
    CameraMoves {
        dolly_forward: forward,
        dolly_backward: backward,
        strafe_right: right,
        strafe_left: left,
    }
}

/// An eye that is within one step of the target is never moved towards it,
/// whatever is pressed.
pub proof fn lemma_no_dolly_within_step(states: Map<Key, bool>)
    ensures
        !moves_for(states, false).dolly_forward,
{
}

/// Keys other than the four movement keys do not move the camera.
pub proof fn lemma_other_keys_ignored(states: Map<Key, bool>, key: Key, state: bool, beyond_step: bool)
    requires
        key != Key::W,
        key != Key::A,
        key != Key::S,
        key != Key::D,
    ensures
        moves_for(states.insert(key, state), beyond_step) == moves_for(states, beyond_step),
{
}

/// With no key set, the camera stays where it is.
pub proof fn lemma_idle_without_input(beyond_step: bool)
    ensures
        moves_for(Map::<Key, bool>::empty(), beyond_step).is_still(),
{
}

/// The distance from the eye to the target after the dollies of `moves`, in
/// exact arithmetic and in any unit: a forward dolly takes one step off the
/// distance, a backward dolly adds one.
pub open spec fn distance_after_dolly(distance: int, step: int, moves: CameraMoves) -> int {
    let forward = if moves.dolly_forward {
        distance - step
    } else {
        distance
    };
    if moves.dolly_backward {
        forward + step
    } else {
        forward
    }
}

/// The distance from the eye to the target after one update for each of the
/// key states `frames`, in order, in exact arithmetic. Each update grants the
/// forward dolly by the distance that it finds.
pub open spec fn distance_after_frames(distance: int, step: int, frames: Seq<Map<Key, bool>>) -> int
    decreases frames.len(),
{
    if frames.len() == 0 {
        distance
    } else {
        let before = distance_after_frames(distance, step, frames.drop_last());
        distance_after_dolly(before, step, moves_for(frames.last(), before > step))
    }
}

/// In exact arithmetic the eye never reaches the pivot, whatever is pressed
/// and for however many frames: its distance to the target stays positive,
/// so the view direction never turns round.
pub proof fn lemma_eye_never_reaches_pivot(distance: int, step: int, frames: Seq<Map<Key, bool>>)
    requires
        0 < step,
        0 < distance,
    ensures
        0 < distance_after_frames(distance, step, frames),
    decreases frames.len(),
{
    if frames.len() > 0 {
        lemma_eye_never_reaches_pivot(distance, step, frames.drop_last());
    }
}

} // verus!
