//! From the player's movement input to its facing and animation state.

use crate::animation::{PlayerAnimation, PlayerAnimationState};
use vstd::prelude::*;

verus! {

/// The sign of one component of the movement vector.
#[derive(Clone, Copy, Debug, PartialEq, Eq, Structural)]
pub enum Sign {
    Negative,
    Zero,
    Positive,
}

/// The movement input, by the sign of each of its two components.
#[derive(Clone, Copy, Debug, PartialEq, Eq, Structural)]
pub struct Direction {
    pub x: Sign,
    pub y: Sign,
}

impl Direction {
    /// Walking on any movement at all, idling on none.
    pub open spec fn spec_state(self) -> PlayerAnimationState {
        if self.x == Sign::Zero && self.y == Sign::Zero {
            PlayerAnimationState::Idling
        } else {
            PlayerAnimationState::Walking
        }
    }

    /// The animation state this movement calls for.
    pub fn state(&self) -> (r: PlayerAnimationState)
        ensures
            r == self.spec_state(),
    {
        if self.x == Sign::Zero && self.y == Sign::Zero {
            PlayerAnimationState::Idling
        } else {
            PlayerAnimationState::Walking
        }
    }

    /// The sprite's horizontal flip after this movement: facing left while
    /// moving left, right while moving right, and as before otherwise.
    pub open spec fn spec_flip(self, flip: bool) -> bool {
        match self.x {
            Sign::Zero => flip,
            Sign::Negative => true,
            Sign::Positive => false,
        }
    }
}

/// Turns the sprite towards the horizontal movement, if any, and puts the
/// player's animation in the state that the movement calls for.
pub fn update_animation_movement(
    movement: Direction,
    flip_x: &mut bool,
    animation: &mut PlayerAnimation,
)
    requires
        old(animation)@.wf(),
    ensures
        *final(flip_x) == movement.spec_flip(*old(flip_x)),
        final(animation)@ == old(animation)@.with_state(movement.spec_state()),
        final(animation)@.wf(),
{
    if movement.x != Sign::Zero {
        *flip_x = movement.x == Sign::Negative;
    }
    let state = movement.state();
    animation.update_state(state);
}

} // verus!
