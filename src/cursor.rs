use vstd::prelude::*;

verus! {

/// The cursor's lock and visibility flags. A locked cursor is hidden and an
/// unlocked one is shown.
#[derive(Clone, Copy, Debug, PartialEq, Eq)]
pub struct CursorState {
    pub locked: bool,
    pub visible: bool,
}

impl CursorState {
    pub open spec fn wf(self) -> bool {
        self.visible == !self.locked
    }

    /// The state after one frame in which the grab button was pressed or not
    /// and the release key was pressed or not. Release is applied last, so it
    /// wins when both come in the same frame.
    pub open spec fn spec_next(self, grab_pressed: bool, release_pressed: bool) -> CursorState {
        if release_pressed {
            CursorState { locked: false, visible: true }
        } else if grab_pressed {
            CursorState { locked: true, visible: false }
        } else {
            self
        }
    }

    /// A shown, unlocked cursor.
    pub fn new() -> (r: CursorState)
        ensures
            r.wf(),
            !r.locked,
            r.visible,
    {
        CursorState { locked: false, visible: true }
    }

    /// Locks and hides the cursor when the grab button was just pressed, and
    /// unlocks and shows it when the release key was just pressed.
    pub fn grab_mouse(&mut self, grab_pressed: bool, release_pressed: bool)
        requires
            old(self).wf(),
        ensures
            *final(self) == old(self).spec_next(grab_pressed, release_pressed),
            final(self).wf(),
    {
        if grab_pressed {
            self.visible = false;
            self.locked = true;
        }
        if release_pressed {
            self.visible = true;
            self.locked = false;
        }
    }

    /// Locking an unlocked cursor and then unlocking it gives back the flags
    /// it started with.
    pub proof fn lemma_lock_then_unlock_restores(s: CursorState)
        requires
            s.wf(),
            !s.locked,
        ensures
            s.spec_next(true, false).spec_next(false, true) == s,
    {
    }

    /// Pressing the grab button on a locked cursor, or the release key on an
    /// unlocked one, changes nothing.
    pub proof fn lemma_repeat_is_no_op(s: CursorState)
        requires
            s.wf(),
        ensures
            s.locked ==> s.spec_next(true, false) == s,
            !s.locked ==> s.spec_next(false, true) == s,
    {
    }
}

} // verus!
