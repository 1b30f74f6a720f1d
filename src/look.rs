use vstd::prelude::*;

verus! {

/// Switches of the camera's pitch controller.
///
/// `require_lock` chooses whether the pitch update waits for the cursor to be
/// locked, as the player's yaw update always does.
#[derive(Clone, Copy, Debug, PartialEq, Eq)]
pub struct CameraLook {
    pub enabled: bool,
    pub require_lock: bool,
}

impl CameraLook {
    /// An enabled camera controller that turns only while the cursor is locked.
    pub fn new() -> (r: CameraLook)
        ensures
            r.enabled,
            r.require_lock,
    {
        CameraLook { enabled: true, require_lock: true }
    }
}

/// Whether the camera's pitch is updated this frame: the controller is
/// enabled, the cursor is locked where that is required, and the mouse moved.
/// A frame without mouse motion never changes the pitch.
pub fn camera_look_applies(look: &CameraLook, locked: bool, mouse_moved: bool) -> (r: bool)
    ensures
        r == (look.enabled && (locked || !look.require_lock) && mouse_moved),
        !mouse_moved ==> !r,
{
    look.enabled && (locked || !look.require_lock) && mouse_moved
}

/// Whether the player's yaw is updated this frame: the cursor is locked and
/// the mouse moved. A frame without mouse motion never changes the yaw.
pub fn player_look_applies(locked: bool, mouse_moved: bool) -> (r: bool)
    ensures
        r == (locked && mouse_moved),
        !mouse_moved ==> !r,
{
    locked && mouse_moved
}

} // verus!
