//! Turning movement actions into velocity changes.

use vstd::prelude::*;
use crate::input::{MoveDirection, MovementAction};

verus! {

/// The change a movement action asks of the character's velocity.
#[derive(Clone, Copy, Debug, PartialEq, Eq, Structural)]
pub enum VelocityUpdate {
    /// Accelerate in the plane along the given direction.
    Accelerate(MoveDirection),
    /// Set the upward speed to the jump impulse.
    StartJump,
    /// Leave the velocity as it is.
    Keep,
}

/// A move action always accelerates; a jump launches only a grounded
/// character and is ignored in the air.
pub open spec fn velocity_update_spec(action: MovementAction, grounded: bool) -> VelocityUpdate {
    match action {
        MovementAction::Move(d) => VelocityUpdate::Accelerate(d),
        MovementAction::Jump => if grounded {
            VelocityUpdate::StartJump
        } else {
            VelocityUpdate::Keep
        },
    }
}

/// Decides what one movement action does to the velocity, given the
/// current grounded state.
pub fn velocity_update(action: MovementAction, grounded: bool) -> (u: VelocityUpdate)
    ensures
        u == velocity_update_spec(action, grounded),
{
    match action {
        MovementAction::Move(d) => VelocityUpdate::Accelerate(d),
        MovementAction::Jump => if grounded {
            VelocityUpdate::StartJump
        } else {
            VelocityUpdate::Keep
        },
    }
}

/// The planar speed gained in one tick, in the caller's fixed-point
/// unit. `step` is the movement acceleration multiplied by the tick
/// length. The first component follows the sideways input directly;
/// forward input decreases the second component, because the world's
/// depth axis points backward.
pub fn planar_velocity_delta(d: MoveDirection, step: u16) -> (dv: (i32, i32))
    requires
        d.wf(),
    ensures
        dv.0 == d.x as int * step as int,
        dv.1 == -(d.y as int) * step as int,
{
    proof {
        let s: int = step as int;
        assert((-1) * s == -s && 0 * s == 0 && 1 * s == s) by (nonlinear_arith);
    }
    let step_i: i32 = step as i32;
    let dx: i32 = if d.x == 1 {
        step_i
    } else if d.x == -1 {
        -step_i
    } else {
        0
    };
    let dz: i32 = if d.y == 1 {
        -step_i
    } else if d.y == -1 {
        step_i
    } else {
        0
    };
    (dx, dz)
}

/// Applies one tick of damping to the magnitude of a planar velocity
/// component. `factor_milli` is the share of the speed kept, in
/// thousandths; the result is the scaled magnitude, rounded toward
/// zero, and never grows.
pub fn damped_magnitude(mag: u32, factor_milli: u16) -> (r: u32)
    requires
        factor_milli <= 1000,
    ensures
        r as int == (mag as int * factor_milli as int) / 1000,
        r <= mag,
{
    proof {
        assert(mag as int * factor_milli as int <= mag as int * 1000) by (nonlinear_arith)
            requires factor_milli <= 1000, mag as int >= 0;
        assert((mag as int * 1000) / 1000 == mag as int) by (nonlinear_arith);
        vstd::arithmetic::div_mod::lemma_div_is_ordered(
            mag as int * factor_milli as int,
            mag as int * 1000,
            1000,
        );
    }
    (((mag as u64) * (factor_milli as u64)) / 1000) as u32
}

} // verus!
