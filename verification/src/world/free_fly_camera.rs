//! When the free-fly camera holds the cursor.
use vstd::prelude::*;

verus! {

/// How the window treats the cursor.
#[derive(Clone, Copy, Debug, PartialEq, Eq, Structural)]
pub enum CursorGrab {
    /// The cursor moves freely.
    Free,
    /// The cursor is held in place.
    Locked,
}

/// The cursor's visibility and grab mode.
#[derive(Clone, Copy, Debug, PartialEq, Eq, Structural)]
pub struct CursorState {
    pub visible: bool,
    pub grab: CursorGrab,
}

/// While a free-fly camera flies (one exists and the game is not paused) the
/// cursor is hidden and locked; otherwise it is shown and free.
pub fn lock_cursor_for_last_beacon_free_fly_cameras(
    paused: bool,
    free_fly_camera_exists: bool,
) -> (r: CursorState)
    ensures
        (!paused && free_fly_camera_exists) ==> r == (CursorState {
            visible: false,
            grab: CursorGrab::Locked,
        }),
        !(!paused && free_fly_camera_exists) ==> r == (CursorState {
            visible: true,
            grab: CursorGrab::Free,
        }),
{
    if !paused && free_fly_camera_exists {
        CursorState { visible: false, grab: CursorGrab::Locked }
    } else {
        CursorState { visible: true, grab: CursorGrab::Free }
    }
}

} // verus!
