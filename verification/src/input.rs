//! Turning keyboard state into movement actions.

use vstd::prelude::*;

verus! {

/// A planar movement direction derived from the four direction keys.
///
/// `x` is the sideways axis, positive toward the right key; `y` is the
/// forward axis, positive toward the forward key. Each component is one
/// key's worth of travel: -1, 0 or 1.
#[derive(Clone, Copy, Debug, PartialEq, Eq, Structural)]
pub struct MoveDirection {
    pub x: i8,
    pub y: i8,
}

impl MoveDirection {
    /// Each component stays within one key's worth of travel.
    pub open spec fn wf(self) -> bool {
        -1 <= self.x <= 1 && -1 <= self.y <= 1
    }

    /// No direction key wins on either axis.
    pub open spec fn is_zero(self) -> bool {
        self.x == 0 && self.y == 0
    }
}

/// What a pair of opposing keys contributes to one axis: the positive
/// key counts plus one, the negative key minus one, and pressing both
/// (or neither) cancels out.
pub open spec fn axis_value(pos: bool, neg: bool) -> i8 {
    if pos == neg {
        0i8
    } else if pos {
        1i8
    } else {
        -1i8
    }
}

/// The direction the four keys ask for.
pub open spec fn direction_spec(up: bool, down: bool, left: bool, right: bool) -> MoveDirection {
    MoveDirection { x: axis_value(right, left), y: axis_value(up, down) }
}

/// Combines the four direction keys into a planar direction.
///
/// Opposing keys cancel, so simultaneous forward and back input stands
/// still rather than favouring either key.
pub fn movement_direction(up: bool, down: bool, left: bool, right: bool) -> (d: MoveDirection)
    ensures
        d == direction_spec(up, down, left, right),
        d.wf(),
{
    let x: i8 = if right == left {
        0
    } else if right {
        1
    } else {
        -1
    };
    let y: i8 = if up == down {
        0
    } else if up {
        1
    } else {
        -1
    };
    MoveDirection { x, y }
}

/// An event sent for a movement input action.
#[derive(Clone, Copy, Debug, PartialEq, Eq, Structural)]
pub enum MovementAction {
    /// Movement in the plane, along the given direction.
    Move(MoveDirection),
    /// A jump request.
    Jump,
}

/// The actions one reading of the keyboard emits: a move action when
/// some direction key wins its axis, then a jump action when the jump
/// key was just pressed.
pub open spec fn actions_spec(
    up: bool,
    down: bool,
    left: bool,
    right: bool,
    jump: bool,
) -> Seq<MovementAction> {
    let d = direction_spec(up, down, left, right);
    let base: Seq<MovementAction> = if d.is_zero() {
        seq![]
    } else {
        seq![MovementAction::Move(d)]
    };
    if jump {
        base.push(MovementAction::Jump)
    } else {
        base
    }
}

/// Reads one keyboard snapshot into the actions to emit this tick.
///
/// `jump_just_pressed` holds only on the tick the jump key went down,
/// so holding it emits a single jump.
pub fn keyboard_actions(
    up: bool,
    down: bool,
    left: bool,
    right: bool,
    jump_just_pressed: bool,
) -> (acts: Vec<MovementAction>)
    ensures
        acts@ == actions_spec(up, down, left, right, jump_just_pressed),
{
    let d = movement_direction(up, down, left, right);
    let mut acts: Vec<MovementAction> = Vec::new();
    if !(d.x == 0 && d.y == 0) {
        acts.push(MovementAction::Move(d));
    }
    if jump_just_pressed {
        acts.push(MovementAction::Jump);
    }
    proof {
        assert(acts@ =~= actions_spec(up, down, left, right, jump_just_pressed));
    }
    acts
}

/// Says whether a direction engages both axes at once.
///
/// The engine-facing caller scales such a diagonal direction down to
/// unit length before using it; a direction along a single axis is
/// already unit length or zero.
pub fn needs_normalization(d: MoveDirection) -> (b: bool)
    ensures
        b == (d.x != 0 && d.y != 0),
{
    d.x != 0 && d.y != 0
}

} // verus!
