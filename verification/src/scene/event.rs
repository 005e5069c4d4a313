use vstd::prelude::*;

use super::handle_resize::{DisplaySize, ResizeStep};

verus! {

/// The keys that scenes react to.
#[derive(Clone, Copy, Debug, PartialEq, Eq, Structural)]
pub enum GameKey {
    /// Toggles vertical sync.
    E,
    /// Toggles frequency profiling.
    Q,
    /// Starts an update-delay measurement.
    R,
    Other,
}

/// The window and application events that the root scene looks at;
/// `main_window` tells whether a window event concerns the main window.
#[derive(Clone, Copy, Debug, PartialEq, Eq, Structural)]
pub enum GameEvent {
    Resized { main_window: bool, width: u32, height: u32 },
    RedrawRequested { main_window: bool },
    KeyReleased { main_window: bool, key: GameKey },
    CloseRequested { main_window: bool },
    Resumed,
    Suspended,
    /// Any other event; scenes pass it on.
    Other,
}

/// What handling an event asks of the caller, in order.
#[derive(Clone, Copy, Debug, PartialEq, Eq, Structural)]
pub enum SceneAction {
    /// Resize the graphics to `size` (waiting for the draw side when `block`),
    /// then report the checked size to the scenes.
    Resize { size: DisplaySize, block: bool },
    /// Arm the resize throttle timeout, which calls back `resize_timeout`.
    SetResizeTimeout,
    /// Wait for the frame to be drawn (the event loop blocks on redraws).
    RedrawSync,
    /// Create the render surface.
    CreateSurface,
    /// Destroy the render surface.
    DestroySurface,
    /// Switch vertical sync on or off.
    SetVsync(bool),
    /// Log the present modes that the surface supports.
    ListPresentModes,
    /// Switch frequency profiling on or off in the update, draw and audio servers.
    SetFrequencyProfiling(bool),
    /// Start an update-delay measurement.
    StartUpdateDelayTest,
    /// Leave the event loop with this exit code.
    Exit(i32),
}

/// The actions of one resize-throttling step: the resize, then the timeout.
pub open spec fn resize_step_actions(step: ResizeStep) -> Seq<SceneAction> {
    (match step.resize {
        Some(req) => seq![SceneAction::Resize { size: req.size, block: req.block }],
        None => Seq::<SceneAction>::empty(),
    }) + (if step.set_timeout {
        seq![SceneAction::SetResizeTimeout]
    } else {
        Seq::<SceneAction>::empty()
    })
}

/// Appends the actions of a resize-throttling step.
pub fn push_resize_step(actions: &mut Vec<SceneAction>, step: ResizeStep)
    ensures
        final(actions)@ == old(actions)@ + resize_step_actions(step),
{
    let ghost start = actions@;
    match step.resize {
        Some(req) => actions.push(SceneAction::Resize { size: req.size, block: req.block }),
        None => {},
    }
    if step.set_timeout {
        actions.push(SceneAction::SetResizeTimeout);
    }
    assert(actions@ =~= start + resize_step_actions(step));
}

} // verus!
