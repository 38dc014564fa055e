//! The sprite animation driver: a frame counter on a repeating interval
//! timer, and the table that maps facing direction and frame counter to a
//! sprite-sheet cell.

use vstd::prelude::*;
use crate::direction::FacingDirection;
use crate::player::Player;
use crate::timer::RepeatingTimer;
use crate::timer::repeat_after;
use crate::timer::repeat_completions;

verus! {

/// An animated entity's frame counter and its repeating frame timer. The
/// counter only ever grows; wrapping into a row happens at lookup time.
#[derive(Clone, Copy, Debug, PartialEq, Eq, Structural)]
pub struct AnimatedSprite {
    pub current_frame: u64,
    pub timer: RepeatingTimer,
}

impl AnimatedSprite {
    /// The frame timer is a well-formed repeating timer.
    pub open spec fn wf(self) -> bool {
        self.timer.wf()
    }
}

/// The player's animation table: one ordered row of sprite-sheet cells per
/// facing direction, fixed at startup. Every row is non-empty, so a lookup
/// never divides by zero.
pub struct PlayerAnimations {
    pub walk_down: Vec<usize>,
    pub walk_up: Vec<usize>,
    pub walk_left: Vec<usize>,
    pub walk_right: Vec<usize>,
}

impl PlayerAnimations {
    /// Each direction's row holds at least one cell.
    pub open spec fn wf(self) -> bool {
        self.walk_down@.len() > 0 && self.walk_up@.len() > 0 && self.walk_left@.len() > 0
            && self.walk_right@.len() > 0
    }

    /// The row of sprite-sheet cells for one facing direction.
    pub open spec fn row(self, d: FacingDirection) -> Seq<usize> {
        match d {
            FacingDirection::Up => self.walk_up@,
            FacingDirection::Down => self.walk_down@,
            FacingDirection::Left => self.walk_left@,
            FacingDirection::Right => self.walk_right@,
        }
    }

    /// The table the player sprite sheet is laid out for: a 4x4 grid walked
    /// column-wise, four walk frames per direction.
    pub fn new() -> (t: PlayerAnimations)
        ensures
            t.walk_down@ == seq![0usize, 4usize, 8usize, 12usize],
            t.walk_up@ == seq![2usize, 6usize, 10usize, 14usize],
            t.walk_left@ == seq![1usize, 5usize, 9usize, 13usize],
            t.walk_right@ == seq![3usize, 7usize, 11usize, 15usize],
            t.wf(),
    {
        PlayerAnimations {
            walk_down: row_of_four(0, 4, 8, 12),
            walk_up: row_of_four(2, 6, 10, 14),
            walk_left: row_of_four(1, 5, 9, 13),
            walk_right: row_of_four(3, 7, 11, 15),
        }
    }
}

/// Builds one four-cell animation row.
fn row_of_four(a: usize, b: usize, c: usize, d: usize) -> (v: Vec<usize>)
    ensures
        v@ == seq![a, b, c, d],
{
    let mut v: Vec<usize> = Vec::new();
    v.push(a);
    v.push(b);
    v.push(c);
    v.push(d);
    proof {
        assert(v@ =~= seq![a, b, c, d]);
    }
    v
}

/// The sprite-sheet cell shown for a facing direction and a frame counter:
/// the counter wraps modulo the row's length.
pub open spec fn displayed_cell(table: PlayerAnimations, d: FacingDirection, frame: u64) -> usize {
    table.row(d)[frame as int % table.row(d).len() as int]
}

/// Advances the frame timer by `dt` milliseconds and steps the frame
/// counter once per completed cycle.
pub fn animate_sprites(sprite: &mut AnimatedSprite, dt: u64)
    requires
        old(sprite).wf(),
        old(sprite).current_frame + dt <= u64::MAX,
    ensures
        final(sprite).wf(),
        final(sprite).timer == repeat_after(old(sprite).timer, dt),
        final(sprite).current_frame == old(sprite).current_frame + repeat_completions(
            old(sprite).timer,
            dt,
        ),
{
    let completions = sprite.timer.tick(dt);
    sprite.current_frame = sprite.current_frame + completions;
}

/// Picks the sprite-sheet cell to render. While the player moves, the cell
/// is the walking frame for the current facing; while the player stands
/// still, the previously displayed cell stays.
pub fn animate_player(
    sprite_index: &mut usize,
    anim: &AnimatedSprite,
    player: &Player,
    table: &PlayerAnimations,
)
    requires
        table.wf(),
    ensures
        player.is_moving ==> *final(sprite_index) == displayed_cell(
            *table,
            player.current_direction,
            anim.current_frame,
        ),
        !player.is_moving ==> *final(sprite_index) == *old(sprite_index),
{
    if player.is_moving {
        match player.current_direction {
            FacingDirection::Up => {
                *sprite_index = lookup_cell(&table.walk_up, anim.current_frame);
            },
            FacingDirection::Down => {
                *sprite_index = lookup_cell(&table.walk_down, anim.current_frame);
            },
            FacingDirection::Left => {
                *sprite_index = lookup_cell(&table.walk_left, anim.current_frame);
            },
            FacingDirection::Right => {
                *sprite_index = lookup_cell(&table.walk_right, anim.current_frame);
            },
        }
    }
}

/// Wraps the frame counter into a non-empty row and reads the cell there.
fn lookup_cell(row: &Vec<usize>, frame: u64) -> (cell: usize)
    requires
        row@.len() > 0,
    ensures
        cell == row@[frame as int % row@.len() as int],
{
    let len: u64 = row.len() as u64;
    let idx: usize = (frame % len) as usize;
    row[idx]
}

} // verus!
