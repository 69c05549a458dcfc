use vstd::prelude::*;

verus! {

/// Speed of the player along an axis while a direction is held, in pixels
/// per second.
pub const SPEED: i32 = 400;

/// The arrow keys' state in one frame, as the player's movement reads it.
#[derive(Clone, Copy, Debug, PartialEq, Eq, Structural)]
pub struct KeyboardInput {
    pub up_just_pressed: bool,
    pub left_pressed: bool,
    pub right_pressed: bool,
    pub up_just_released: bool,
    pub left_just_released: bool,
    pub right_just_released: bool,
}

/// Linear velocity of the player, in pixels per second.
#[derive(Clone, Copy, Debug, PartialEq, Eq, Structural)]
pub struct LinearVelocity {
    pub x: i32,
    pub y: i32,
}

impl LinearVelocity {
    pub fn zero() -> (v: LinearVelocity)
        ensures
            v == (LinearVelocity { x: 0, y: 0 }),
    {
        LinearVelocity { x: 0, y: 0 }
    }
}

/// Whether any arrow key was released in this frame.
pub open spec fn any_released(keys: KeyboardInput) -> bool {
    keys.up_just_released || keys.left_just_released || keys.right_just_released
}

/// The velocity after one frame of input: a release stops the player; else a
/// held Right or Left key moves it sideways, Right winning over Left; else a
/// fresh press of Up sends it upwards; else the velocity is kept.
pub open spec fn steer(keys: KeyboardInput, v: LinearVelocity) -> LinearVelocity {
    if any_released(keys) {
        LinearVelocity { x: 0, y: 0 }
    } else if keys.right_pressed {
        LinearVelocity { x: SPEED, y: 0 }
    } else if keys.left_pressed {
        LinearVelocity { x: (-SPEED) as i32, y: 0 }
    } else if keys.up_just_pressed {
        LinearVelocity { x: 0, y: SPEED }
    } else {
        v
    }
}

/// Sets the player's velocity from this frame's arrow keys.
pub fn movement(keys: &KeyboardInput, velocity: &mut LinearVelocity)
    ensures
        *final(velocity) == steer(*keys, *old(velocity)),
{
    if keys.up_just_pressed {
        *velocity = LinearVelocity { x: 0, y: SPEED };
    }
    if keys.left_pressed {
        *velocity = LinearVelocity { x: -SPEED, y: 0 };
    }
    if keys.right_pressed {
        *velocity = LinearVelocity { x: SPEED, y: 0 };
    }
    if keys.up_just_released {
        *velocity = LinearVelocity::zero();
    }
    if keys.left_just_released {
        *velocity = LinearVelocity::zero();
    }
    if keys.right_just_released {
        *velocity = LinearVelocity::zero();
    }
}

/// Pressing Up, with no sideways key held and no key released, sends the
/// player straight up at a fixed positive speed; releasing Up stops it.
pub proof fn lemma_up_moves_vertically(keys: KeyboardInput, v: LinearVelocity)
    ensures
        keys.up_just_pressed && !keys.left_pressed && !keys.right_pressed && !any_released(keys)
            ==> steer(keys, v) == (LinearVelocity { x: 0, y: SPEED }),
        keys.up_just_released ==> steer(keys, v) == (LinearVelocity { x: 0, y: 0 }),
        SPEED > 0,
{
}

/// Holding Right moves the player right at a fixed speed, holding Left alone
/// moves it left at the same speed, when no key is released; releasing
/// either stops it.
pub proof fn lemma_sideways_moves_horizontally(keys: KeyboardInput, v: LinearVelocity)
    ensures
        keys.right_pressed && !any_released(keys) ==> steer(keys, v) == (LinearVelocity {
            x: SPEED,
            y: 0,
        }),
        keys.left_pressed && !keys.right_pressed && !any_released(keys) ==> steer(keys, v) == (
        LinearVelocity { x: (-SPEED) as i32, y: 0 }),
        keys.left_just_released || keys.right_just_released ==> steer(keys, v) == (
        LinearVelocity { x: 0, y: 0 }),
        SPEED > 0,
{
}

} // verus!
