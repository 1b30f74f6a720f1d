//! Engine-agnostic decisions of a first-person look-and-move controller.
//!
//! The host engine supplies, each frame, the set of held keys (as abstract
//! identifiers), whether the mouse moved, and whether the cursor is locked.
//! This library decides what the frame does with them: the axis input built
//! from the key bindings, whether velocity is driven or left to coast, whether
//! the look update applies, and how the cursor lock changes.

mod cursor;
mod input;
mod look;
mod movement;

pub use cursor::CursorState;
pub use input::{axis_input, is_held, key_sign, lemma_axis_ignores_press_order, lemma_opposing_keys_cancel, spec_axis, Axis, KeyBindings};
pub use look::{camera_look_applies, player_look_applies, CameraLook};
pub use movement::{lemma_no_direction_coasts, plan_movement, plan_player_frame, spec_movement, Movement, PlayerControls, PlayerFrame};
