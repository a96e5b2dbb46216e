//! What one frame of free-camera control does, decided from the held
//! actions: the direction of travel along each camera-local axis, the roll
//! direction, whether mouse look applies, and whether the camera changes.
//! The caller turns the plan into a translation and a rotation.

use vstd::prelude::*;

use crate::input::InputsCommanded;

verus! {

/// The decisions for one frame of camera motion.
///
/// Each `move_*` and `roll` is -1, 0 or 1. The axes are camera-local:
/// `move_x` along right, `move_y` along up, `move_z` along forward. A roll of
/// -1 turns by minus the roll-key amount about the forward axis.
#[derive(Clone, Copy, Debug, PartialEq, Eq, Structural)]
pub struct MotionPlan {
    /// The run modifier is held: movement and roll amounts are multiplied by
    /// the run factor.
    pub fast: bool,
    pub move_x: i8,
    pub move_y: i8,
    pub move_z: i8,
    pub roll: i8,
    /// Yaw and pitch from the accumulated mouse motion are applied.
    pub mouse_look: bool,
    /// The camera position changes.
    pub moved: bool,
    /// The camera orientation changes.
    pub rotated: bool,
}

/// Direction along an axis with a positive and a negative action; the
/// positive one wins when both are held.
pub open spec fn axis_dir(pos: bool, neg: bool) -> i8 {
    if pos {
        1i8
    } else if neg {
        -1i8
    } else {
        0i8
    }
}

/// The plan for held actions `inputs`, where `mouse_moved` says whether the
/// accumulated mouse motion is above the jitter threshold.
pub open spec fn motion_plan(inputs: InputsCommanded, mouse_moved: bool) -> MotionPlan {
    let move_x = axis_dir(inputs.right, inputs.left);
    let move_y = axis_dir(inputs.up, inputs.down);
    let move_z = axis_dir(inputs.fwd, inputs.back);
    // Clockwise wins over counter-clockwise, and turns by a negative angle.
    let roll = -axis_dir(inputs.roll_cw, inputs.roll_ccw);
    let mouse_look = inputs.free_look && mouse_moved;
    MotionPlan {
        fast: inputs.run,
        move_x,
        move_y,
        move_z,
        roll: roll as i8,
        mouse_look,
        moved: move_x != 0 || move_y != 0 || move_z != 0,
        rotated: roll != 0 || mouse_look,
    }
}

impl MotionPlan {
    /// Whether the camera changes at all this frame.
    pub open spec fn changes(self) -> bool {
        self.moved || self.rotated
    }

    /// Returns whether the camera changes at all this frame.
    pub fn changed(&self) -> (r: bool)
        ensures
            r == self.changes(),
    {
        self.moved || self.rotated
    }
}

fn axis_direction(pos: bool, neg: bool) -> (r: i8)
    ensures
        r == axis_dir(pos, neg),
{
    if pos {
        1
    } else if neg {
        -1
    } else {
        0
    }
}

/// Decides one frame of camera motion from the held actions.
pub fn plan_motion(inputs: &InputsCommanded, mouse_moved: bool) -> (r: MotionPlan)
    ensures
        r == motion_plan(*inputs, mouse_moved),
{
    let move_x = axis_direction(inputs.right, inputs.left);
    let move_y = axis_direction(inputs.up, inputs.down);
    let move_z = axis_direction(inputs.fwd, inputs.back);
    let roll: i8 = if inputs.roll_cw {
        -1
    } else if inputs.roll_ccw {
        1
    } else {
        0
    };
    let mouse_look = inputs.free_look && mouse_moved;
    MotionPlan {
        fast: inputs.run,
        move_x,
        move_y,
        move_z,
        roll,
        mouse_look,
        moved: move_x != 0 || move_y != 0 || move_z != 0,
        rotated: roll != 0 || mouse_look,
    }
}

/// Forward takes precedence over back: holding both plans the same motion as
/// holding forward alone.
pub proof fn lemma_forward_over_back(inputs: InputsCommanded, mouse_moved: bool)
    requires
        inputs.fwd,
        inputs.back,
    ensures
        motion_plan(inputs, mouse_moved) == motion_plan(
            InputsCommanded { back: false, ..inputs },
            mouse_moved,
        ),
{
}

/// Forward alone moves one step along the camera's forward axis and nothing
/// else, and the camera changes.
pub proof fn lemma_forward_only(inputs: InputsCommanded, mouse_moved: bool)
    requires
        inputs.fwd,
        !inputs.left && !inputs.right && !inputs.up && !inputs.down,
        !inputs.roll_ccw && !inputs.roll_cw && !inputs.free_look,
    ensures
        ({
            let p = motion_plan(inputs, mouse_moved);
            p.move_z == 1 && p.move_x == 0 && p.move_y == 0 && p.roll == 0 && !p.mouse_look
                && p.moved && !p.rotated && p.changes()
        }),
{
}

/// With no movement or roll action held and mouse motion below the jitter
/// threshold, the camera does not change.
pub proof fn lemma_idle_no_change(inputs: InputsCommanded)
    requires
        !inputs.any_motion_held(),
    ensures
        !motion_plan(inputs, false).changes(),
        !motion_plan(inputs, false).moved,
        !motion_plan(inputs, false).rotated,
{
}

/// A frame that changes the camera is always one with inputs present, so a
/// caller that skips frames without inputs misses no change.
pub proof fn lemma_change_needs_inputs(inputs: InputsCommanded, mouse_moved: bool)
    ensures
        motion_plan(inputs, mouse_moved).changes() ==> (inputs.any_motion_held() || mouse_moved),
{
}

} // verus!
