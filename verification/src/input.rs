//! A per-frame keyboard snapshot: which of the keys the game reads were
//! held during the frame. Edge detection for the dynamite key is the
//! world's job (it remembers the previous frame), so the snapshot only
//! carries held-state.

use vstd::prelude::*;

verus! {

/// The held keys of one frame. Each field mirrors one key binding:
/// `left` the A key, `right` the D key, `down` the S key, `jump` the
/// space bar (a direct upward translate), and `dynamite` the E key.
#[derive(Clone, Copy, PartialEq, Eq, Structural, Debug)]
pub struct KeyboardInput {
    pub left: bool,
    pub right: bool,
    pub down: bool,
    pub jump: bool,
    pub dynamite: bool,
}

impl KeyboardInput {
    /// A snapshot with no key held.
    pub fn released() -> (keys: KeyboardInput)
        ensures
            keys == (KeyboardInput {
                left: false,
                right: false,
                down: false,
                jump: false,
                dynamite: false,
            }),
    {
        KeyboardInput { left: false, right: false, down: false, jump: false, dynamite: false }
    }

    /// Whether any movement key is held; the dynamite key moves nothing.
    pub open spec fn any_movement(self) -> bool {
        self.left || self.right || self.down || self.jump
    }
}

} // verus!
