//! The player controller: keyboard-driven movement, facing, and the
//! camera-follow rule.

use vstd::prelude::*;
use crate::animation::AnimatedSprite;
use crate::direction::FacingDirection;
use crate::geometry::Position;
use crate::timer::RepeatingTimer;

verus! {

/// The player's starting speed, in world units per second.
pub const PLAYER_SPEED: u64 = 100;

/// Where the player stands at session start, in thousandths of a unit.
pub const PLAYER_START_X: i64 = 47_000;

/// Where the player stands at session start, in thousandths of a unit.
pub const PLAYER_START_Y: i64 = 59_000;

/// How long each walking frame is shown, in milliseconds.
pub const ANIMATION_INTERVAL_MS: u64 = 200;

/// The player's persistent state: speed, the way the sprite faces, and
/// whether any movement key was held this frame.
#[derive(Clone, Copy, Debug, PartialEq, Eq, Structural)]
pub struct Player {
    pub speed: u64,
    pub current_direction: FacingDirection,
    pub is_moving: bool,
}

/// Which movement keys are held during one frame.
#[derive(Clone, Copy, Debug, PartialEq, Eq, Structural)]
pub struct MovementKeys {
    pub up: bool,
    pub down: bool,
    pub left: bool,
    pub right: bool,
}

impl MovementKeys {
    /// Whether any movement key is held.
    pub open spec fn any(self) -> bool {
        self.up || self.down || self.left || self.right
    }
}

/// The facing after one frame: each held key overwrites the facing in the
/// order up, down, left, right, so the last-evaluated held key wins; with
/// no key held the facing stays.
pub open spec fn facing_after(keys: MovementKeys, f: FacingDirection) -> FacingDirection {
    if keys.right {
        FacingDirection::Right
    } else if keys.left {
        FacingDirection::Left
    } else if keys.down {
        FacingDirection::Down
    } else if keys.up {
        FacingDirection::Up
    } else {
        f
    }
}

/// The horizontal coordinate after one frame: held opposite keys each
/// contribute their full displacement and so cancel exactly.
pub open spec fn moved_x(x: int, keys: MovementKeys, d: int) -> int {
    x + (if keys.right {
        d
    } else {
        0
    }) - (if keys.left {
        d
    } else {
        0
    })
}

/// The vertical coordinate after one frame; up is positive.
pub open spec fn moved_y(y: int, keys: MovementKeys, d: int) -> int {
    y + (if keys.up {
        d
    } else {
        0
    }) - (if keys.down {
        d
    } else {
        0
    })
}

/// One frame of the player controller. Every held key moves the player by
/// exactly `speed * dt` along its axis; the axes accumulate independently;
/// the facing follows the last-evaluated held key; `is_moving` reports
/// whether any key was held. With no key held, position and facing stay.
pub fn character_movement(player: &mut Player, pos: &mut Position, keys: MovementKeys, dt: u64)
    requires
        old(player).speed * dt <= i64::MAX,
        keys.up ==> old(pos).y + old(player).speed * dt <= i64::MAX,
        keys.down ==> old(pos).y - old(player).speed * dt >= i64::MIN,
        keys.left ==> old(pos).x - old(player).speed * dt >= i64::MIN,
        keys.right ==> old(pos).x + old(player).speed * dt <= i64::MAX,
    ensures
        final(pos).x == moved_x(old(pos).x as int, keys, old(player).speed * dt),
        final(pos).y == moved_y(old(pos).y as int, keys, old(player).speed * dt),
        final(player).current_direction == facing_after(keys, old(player).current_direction),
        final(player).is_moving == keys.any(),
        final(player).speed == old(player).speed,
{
    let amount_wide: u64 = player.speed * dt;
    let movement_amount: i64 = amount_wide as i64;

    let mut is_moving = false;

    if keys.up {
        player.current_direction = FacingDirection::Up;
        pos.y = pos.y + movement_amount;
        is_moving = true;
    }
    if keys.down {
        player.current_direction = FacingDirection::Down;
        pos.y = pos.y - movement_amount;
        is_moving = true;
    }
    if keys.left {
        player.current_direction = FacingDirection::Left;
        pos.x = pos.x - movement_amount;
        is_moving = true;
    }
    if keys.right {
        player.current_direction = FacingDirection::Right;
        pos.x = pos.x + movement_amount;
        is_moving = true;
    }

    player.is_moving = is_moving;
}

/// Holding only the up key for a frame moves the player by exactly
/// `speed * dt` up the vertical axis and leaves the horizontal axis
/// unchanged.
pub proof fn lemma_up_key_moves_vertically(pos: Position, speed: u64, dt: u64)
    ensures
        ({
            let keys = MovementKeys { up: true, down: false, left: false, right: false };
            moved_y(pos.y as int, keys, speed * dt) == pos.y + speed * dt && moved_x(
                pos.x as int,
                keys,
                speed * dt,
            ) == pos.x
        }),
{
}

/// Holding up and right together for a frame leaves the player facing
/// right — the last-evaluated held key wins — while both axes still move
/// by their full displacement.
pub proof fn lemma_facing_precedence(pos: Position, f: FacingDirection, speed: u64, dt: u64)
    ensures
        ({
            let keys = MovementKeys { up: true, down: false, left: false, right: true };
            facing_after(keys, f) == FacingDirection::Right && moved_x(
                pos.x as int,
                keys,
                speed * dt,
            ) == pos.x + speed * dt && moved_y(pos.y as int, keys, speed * dt) == pos.y + speed * dt
        }),
{
}

/// The player bundle at session start: full speed, facing down, standing
/// still at the starting position, with a fresh frame timer.
pub fn spawn_player() -> (r: (Player, AnimatedSprite, Position))
    ensures
        r.0 == (Player {
            speed: PLAYER_SPEED,
            current_direction: FacingDirection::Down,
            is_moving: false,
        }),
        r.1 == (AnimatedSprite {
            current_frame: 0,
            timer: RepeatingTimer { elapsed_ms: 0, interval_ms: ANIMATION_INTERVAL_MS },
        }),
        r.2 == (Position { x: PLAYER_START_X, y: PLAYER_START_Y }),
        r.1.wf(),
{
    let player = Player {
        speed: PLAYER_SPEED,
        current_direction: FacingDirection::Down,
        is_moving: false,
    };
    let sprite = AnimatedSprite {
        current_frame: 0,
        timer: RepeatingTimer::new(ANIMATION_INTERVAL_MS),
    };
    let pos = Position { x: PLAYER_START_X, y: PLAYER_START_Y };
    (player, sprite, pos)
}

/// Snaps the camera onto the player, axis by axis.
pub fn move_camera(camera_pos: &mut Position, player_pos: &Position)
    ensures
        final(camera_pos).x == player_pos.x,
        final(camera_pos).y == player_pos.y,
{
    camera_pos.x = player_pos.x;
    camera_pos.y = player_pos.y;
}

} // verus!
