use vstd::prelude::*;
use crate::input::{axis_input, is_held, spec_axis, Axis, KeyBindings};
use crate::look::player_look_applies;

verus! {

/// What a frame does to the player's velocity.
#[derive(Clone, Copy, Debug, PartialEq, Eq)]
pub enum Movement {
    /// Velocity is replaced by the normalised axis input times the run speed
    /// (when `run`) or the walk speed.
    Drive { run: bool },
    /// No direction is requested: velocity decays by the friction factor and
    /// snaps to zero once it is negligible.
    Coast,
}

/// The discrete settings of the player's controller.
#[derive(Clone, Copy, Debug, PartialEq, Eq)]
pub struct PlayerControls {
    pub enabled: bool,
    pub bindings: KeyBindings,
}

/// The decisions of one frame for an enabled player controller.
#[derive(Clone, Copy, Debug, PartialEq, Eq)]
pub struct PlayerFrame {
    /// Whether the yaw is updated from the mouse motion.
    pub turn: bool,
    /// The directional input of the frame.
    pub axis: Axis,
    /// What happens to the velocity.
    pub movement: Movement,
}

pub open spec fn spec_movement(axis: Axis, run_held: bool) -> Movement {
    if axis.spec_is_zero() {
        Movement::Coast
    } else {
        Movement::Drive { run: run_held }
    }
}

/// Chooses between driving and coasting: any requested direction drives, at
/// run speed when the run key is held; no direction coasts.
pub fn plan_movement(axis: &Axis, run_held: bool) -> (r: Movement)
    ensures
        r == spec_movement(*axis, run_held),
{
    if axis.is_zero() {
        Movement::Coast
    } else {
        Movement::Drive { run: run_held }
    }
}

/// The decisions of one frame of the player controller, or `None` when the
/// controller is disabled and the frame leaves it alone.
pub fn plan_player_frame(controls: &PlayerControls, held: &Vec<u32>, locked: bool, mouse_moved: bool) -> (r: Option<PlayerFrame>)
    ensures
        r is None <==> !controls.enabled,
        r matches Some(f) ==> {
            &&& f.turn == (locked && mouse_moved)
            &&& f.axis@ == spec_axis(controls.bindings, held@)
            &&& f.movement == spec_movement(f.axis, held@.contains(controls.bindings.run))
        },
{
    if !controls.enabled {
        return None;
    }
    let axis = axis_input(&controls.bindings, held);
    let run_held = is_held(held, controls.bindings.run);
    Some(PlayerFrame {
        turn: player_look_applies(locked, mouse_moved),
        axis,
        movement: plan_movement(&axis, run_held),
    })
}

/// While none of the six directional keys is held, every frame coasts,
/// whether the run key is held or not: velocity is only ever decayed.
pub proof fn lemma_no_direction_coasts(b: KeyBindings, held: Seq<u32>, axis: Axis, run_held: bool)
    requires
        axis@ == spec_axis(b, held),
        !held.contains(b.forward),
        !held.contains(b.back),
        !held.contains(b.left),
        !held.contains(b.right),
        !held.contains(b.up),
        !held.contains(b.down),
    ensures
        spec_movement(axis, run_held) == Movement::Coast,
{
}

} // verus!
