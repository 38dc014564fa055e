use pig_farm::animation::AnimatedSprite;
use pig_farm::animation::PlayerAnimations;
use pig_farm::animation::animate_player;
use pig_farm::animation::animate_sprites;
use pig_farm::player::Player;
use pig_farm::timer::RepeatingTimer;
use pig_farm::FacingDirection;

fn moving_player(direction: FacingDirection) -> Player {
    Player { speed: 100, current_direction: direction, is_moving: true }
}

#[test]
fn animation_wraparound() {
    // a 4-frame row and a frame counter of 7: the displayed cell is row[7 % 4] = row[3]
    let table = PlayerAnimations::new();
    let sprite = AnimatedSprite {
        current_frame: 7,
        timer: RepeatingTimer { elapsed_ms: 0, interval_ms: 200 },
    };
    let mut cell: usize = usize::MAX;
    animate_player(&mut cell, &sprite, &moving_player(FacingDirection::Down), &table);
    assert_eq!(cell, table.walk_down[3]);
    assert_eq!(cell, 12);
}

#[test]
fn each_direction_reads_its_own_row() {
    let table = PlayerAnimations::new();
    let sprite = AnimatedSprite {
        current_frame: 5,
        timer: RepeatingTimer { elapsed_ms: 0, interval_ms: 200 },
    };
    let mut cell: usize = 0;
    animate_player(&mut cell, &sprite, &moving_player(FacingDirection::Up), &table);
    assert_eq!(cell, table.walk_up[1]);
    animate_player(&mut cell, &sprite, &moving_player(FacingDirection::Left), &table);
    assert_eq!(cell, table.walk_left[1]);
    animate_player(&mut cell, &sprite, &moving_player(FacingDirection::Right), &table);
    assert_eq!(cell, table.walk_right[1]);
}

#[test]
fn standing_still_keeps_previous_cell() {
    let table = PlayerAnimations::new();
    let sprite = AnimatedSprite {
        current_frame: 2,
        timer: RepeatingTimer { elapsed_ms: 0, interval_ms: 200 },
    };
    let idle = Player { speed: 100, current_direction: FacingDirection::Up, is_moving: false };
    let mut cell: usize = 9;
    animate_player(&mut cell, &sprite, &idle, &table);
    assert_eq!(cell, 9);
}

#[test]
fn animation_table_rows() {
    let table = PlayerAnimations::new();
    assert_eq!(table.walk_down, vec![0, 4, 8, 12]);
    assert_eq!(table.walk_up, vec![2, 6, 10, 14]);
    assert_eq!(table.walk_left, vec![1, 5, 9, 13]);
    assert_eq!(table.walk_right, vec![3, 7, 11, 15]);
}

#[test]
fn frame_counter_steps_once_per_completed_cycle() {
    let mut sprite = AnimatedSprite {
        current_frame: 3,
        timer: RepeatingTimer { elapsed_ms: 150, interval_ms: 200 },
    };
    // 150 + 460 = 610 covers three full 200 ms cycles, 10 ms keeps running
    animate_sprites(&mut sprite, 460);
    assert_eq!(sprite.current_frame, 6);
    assert_eq!(sprite.timer.elapsed_ms, 10);
    assert_eq!(sprite.timer.interval_ms, 200);
}

#[test]
fn short_tick_leaves_frame_counter() {
    let mut sprite = AnimatedSprite {
        current_frame: 3,
        timer: RepeatingTimer { elapsed_ms: 0, interval_ms: 200 },
    };
    animate_sprites(&mut sprite, 199);
    assert_eq!(sprite.current_frame, 3);
    assert_eq!(sprite.timer.elapsed_ms, 199);
}
