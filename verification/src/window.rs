//! Model of the presentation surface's input-passthrough ("click-through")
//! property, and the one setter the command surface exposes.
//!
//! The surface itself lives in the GUI shell; this module keeps the part the
//! setter decides on: whether the surface is still alive and whether it
//! currently ignores cursor events. The shell applies the outcome to the real
//! window and reports a destroyed surface back as `alive == false`.

use vstd::prelude::*;

verus! {

/// The state of the presentation surface as the toggle sees it.
pub struct WindowSurface {
    /// False once the underlying window has been destroyed.
    pub alive: bool,
    /// Whether pointer input currently passes through the surface.
    pub ignore_cursor_events: bool,
}

/// The outcome of one click-through request on a surface: the state after
/// the request, and whether the request succeeded.
pub open spec fn click_through_step(pre: WindowSurface, passthrough: bool) -> (WindowSurface, bool) {
    if pre.alive {
        (WindowSurface { alive: true, ignore_cursor_events: passthrough }, true)
    } else {
        (pre, false)
    }
}

/// Configure whether the surface ignores pointer input.
///
/// Succeeds exactly when the surface is still alive; on a destroyed surface
/// it leaves the state unchanged and reports a diagnostic instead of
/// panicking.
pub fn set_click_through(surface: &mut WindowSurface, passthrough: bool) -> (r: Result<(), String>)
    ensures
        ({
            let (post, ok) = click_through_step(*old(surface), passthrough);
            *final(surface) == post && (r is Ok <==> ok)
        }),
{
    if surface.alive {
        surface.ignore_cursor_events = passthrough;
        Ok(())
    } else {
        Err("window surface no longer exists".to_owned())
    }
}

/// Law: the toggle is idempotent. Requesting the same click-through value a
/// second time changes nothing and reports the same success or failure as
/// the first request.
pub proof fn lemma_click_through_idempotent(pre: WindowSurface, passthrough: bool)
    ensures
        ({
            let (post1, ok1) = click_through_step(pre, passthrough);
            let (post2, ok2) = click_through_step(post1, passthrough);
            post2 == post1 && ok2 == ok1
        }),
{
}

} // verus!
