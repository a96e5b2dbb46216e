//! Engine-wide option types.

use vstd::prelude::*;

verus! {

/// Which built-in control scheme drives the camera.
#[derive(Clone, Copy, Debug, PartialEq, Eq, Structural)]
pub enum ControlScheme {
    /// No controls; the application handles every event itself.
    NoControls,
    /// Keyboard movement along three axes and roll; mouse look while the
    /// free-look button is held; the run key multiplies keyboard speeds.
    FreeCamera,
    /// First-person style camera: no roll and no vertical movement.
    Fps,
    /// The mouse rotates the camera around a fixed point.
    Arc,
}

impl Default for ControlScheme {
    fn default() -> (r: Self)
        ensures
            r == ControlScheme::NoControls,
    {
        ControlScheme::NoControls
    }
}

/// Returned by application callbacks to tell the engine what to refresh.
#[derive(Clone, Copy, Debug, PartialEq, Eq, Structural)]
pub struct EngineUpdates {
    pub entities: bool,
    pub camera: bool,
    pub lighting: bool,
}

impl Default for EngineUpdates {
    fn default() -> (r: Self)
        ensures
            !r.entities && !r.camera && !r.lighting,
    {
        EngineUpdates { entities: false, camera: false, lighting: false }
    }
}

} // verus!
