use vstd::prelude::*;

use crate::geometry::Vec2;

verus! {

/// Impulse of one held movement key, in thousandths.
pub const MOVE_IMPULSE: i32 = 50000;

/// Impulse of a jump key press, in thousandths.
pub const JUMP_IMPULSE: i32 = 400000;

/// Speed the walking controller is asked for while a direction is held, in thousandths.
pub const WALK_SPEED: i32 = 4000000;

/// Height the walking controller keeps the character's centre above ground, in thousandths.
pub const FLOAT_HEIGHT: i32 = 17000;

/// Acceleration of the walking controller, on the ground and in the air, in thousandths.
pub const WALK_ACCELERATION: i32 = 600000;

/// Height of a jump, in thousandths.
pub const JUMP_HEIGHT: i32 = 320000;

/// Factor applied to mouse motion to give an impulse.
pub const MOUSE_FACTOR: i32 = 2;

/// The keys the controls read in one tick.
#[derive(Clone, Copy, Debug, PartialEq, Eq, Structural)]
pub struct KeyState {
    /// The move-left key is held.
    pub left: bool,
    /// The move-right key is held.
    pub right: bool,
    /// The jump key is held.
    pub jump_held: bool,
    /// The jump key went down this tick.
    pub jump_pressed: bool,
}

/// What the walking controller is fed in one tick.
#[derive(Clone, Copy, Debug, PartialEq, Eq, Structural)]
pub struct WalkCommand {
    pub desired_velocity: Vec2,
    pub float_height: i32,
    pub acceleration: i32,
    pub air_acceleration: i32,
    /// The height of the jump to feed, while the jump key is held.
    pub jump_height: Option<i32>,
}

/// The horizontal direction the held keys ask for: -1, 0 or 1.
pub open spec fn direction_of(keys: KeyState) -> int {
    (if keys.right { 1int } else { 0int }) - (if keys.left { 1int } else { 0int })
}

/// The summed impulse of the held movement keys and a jump press.
pub open spec fn impulse_of(keys: KeyState) -> (int, int) {
    (
        MOVE_IMPULSE * direction_of(keys),
        if keys.jump_pressed { JUMP_IMPULSE as int } else { 0 },
    )
}

/// The impulse applied to the player in one tick of direct keyboard control.
pub fn keyboard_and_mouse_system(keys: KeyState) -> (r: Vec2)
    ensures
        (r.x as int, r.y as int) == impulse_of(keys),
{
    let mut x: i32 = 0;
    let mut y: i32 = 0;
    if keys.left {
        x = x - MOVE_IMPULSE;
    }
    if keys.right {
        x = x + MOVE_IMPULSE;
    }
    if keys.jump_pressed {
        y = y + JUMP_IMPULSE;
    }
    Vec2::new(x, y)
}

/// What the walking controller is fed in one tick: a unit direction scaled to the
/// walking speed (zero when both or neither direction is held), and a jump while
/// the jump key is held.
pub fn key_controls(keys: KeyState) -> (r: WalkCommand)
    ensures
        r.desired_velocity.x == WALK_SPEED * direction_of(keys),
        r.desired_velocity.y == 0,
        r.float_height == FLOAT_HEIGHT,
        r.acceleration == WALK_ACCELERATION,
        r.air_acceleration == WALK_ACCELERATION,
        r.jump_height == (if keys.jump_held { Some(JUMP_HEIGHT) } else { None::<i32> }),
{
    let mut direction: i32 = 0;
    if keys.left {
        direction = direction - 1;
    }
    if keys.right {
        direction = direction + 1;
    }
    WalkCommand {
        desired_velocity: Vec2::new(WALK_SPEED * direction, 0),
        float_height: FLOAT_HEIGHT,
        acceleration: WALK_ACCELERATION,
        air_acceleration: WALK_ACCELERATION,
        jump_height: if keys.jump_held { Some(JUMP_HEIGHT) } else { None },
    }
}

/// The impulse from mouse motion: the motion with its vertical axis flipped
/// (screen down is world up), times the mouse factor.
pub fn player_movement(mouse_delta: Vec2) -> (r: Vec2)
    requires
        -0x3FFF_FFFF <= mouse_delta.x <= 0x3FFF_FFFF,
        -0x3FFF_FFFF <= mouse_delta.y <= 0x3FFF_FFFF,
    ensures
        r.x == MOUSE_FACTOR * mouse_delta.x,
        r.y == -MOUSE_FACTOR * mouse_delta.y,
{
    Vec2::new(MOUSE_FACTOR * mouse_delta.x, -MOUSE_FACTOR * mouse_delta.y)
}

} // verus!
