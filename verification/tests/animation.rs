use platformer_core::animation::{animate_player, AnimationInfo, AnimationTimer};
use platformer_core::player::{PlayerInventory, PlayerState};
use platformer_core::timer::Timer;

fn clock() -> AnimationTimer {
    AnimationTimer(Timer { elapsed: 0, duration: 100 })
}

#[test]
fn moving_cycle_wraps_past_its_end() {
    let info = AnimationInfo::new();
    let inv = PlayerInventory::new();
    let mut state = PlayerState::MovingRight;
    let mut index: usize = 0;
    let mut timer = clock();
    // Out-of-range index restarts the cycle at 10, then 11, 12, 13, and the
    // wrap lands on 12.
    let expected = [10usize, 11, 12, 13, 12, 13, 12];
    for want in expected {
        animate_player(&info, &mut state, &inv, &mut index, &mut timer, 100);
        assert_eq!(index, want);
        assert_eq!(state, PlayerState::MovingRight);
        assert_eq!(timer.0.duration, 100);
    }
}

#[test]
fn slow_clock_does_not_advance_frames() {
    let info = AnimationInfo::new();
    let inv = PlayerInventory::new();
    let mut state = PlayerState::MovingRight;
    let mut index: usize = 10;
    let mut timer = clock();
    animate_player(&info, &mut state, &inv, &mut index, &mut timer, 40);
    assert_eq!(index, 10);
    assert_eq!(timer.0.elapsed, 40);
    animate_player(&info, &mut state, &inv, &mut index, &mut timer, 70);
    assert_eq!(index, 11);
    // 40 + 70 wrapped around the 100 ms duration.
    assert_eq!(timer.0.elapsed, 10);
}

#[test]
fn landing_animation_ends_in_idle() {
    let info = AnimationInfo::new();
    let inv = PlayerInventory::new();
    let mut state = PlayerState::FallingToIdle;
    let mut index: usize = 0;
    let mut timer = clock();
    let mut frames = 0;
    while state == PlayerState::FallingToIdle {
        animate_player(&info, &mut state, &inv, &mut index, &mut timer, 100);
        assert!((6..=10).contains(&index));
        assert_eq!(timer.0.duration, 50);
        frames += 1;
        assert!(frames < 20);
    }
    assert_eq!(state, PlayerState::Idle);
    assert_eq!(index, 10);
}

#[test]
fn moving_to_idle_is_a_single_frame() {
    let info = AnimationInfo::new();
    let inv = PlayerInventory::new();
    let mut state = PlayerState::MovingToIdle;
    let mut index: usize = 12;
    let mut timer = clock();
    animate_player(&info, &mut state, &inv, &mut index, &mut timer, 100);
    assert_eq!(state, PlayerState::Idle);
    assert_eq!(index, 11);
    assert_eq!(timer.0.duration, 50);
}

#[test]
fn jumping_saturates_and_wall_hang_slides() {
    let info = AnimationInfo::new();
    let inv = PlayerInventory::new();
    let mut state = PlayerState::Jumping;
    let mut index: usize = 2;
    let mut timer = clock();
    animate_player(&info, &mut state, &inv, &mut index, &mut timer, 100);
    assert_eq!(index, 2);

    // Hanging on a wall with the wall jump unlocked plays the slide frames.
    let inv = PlayerInventory { on_wall_left: true, has_wall_jump: true, ..PlayerInventory::new() };
    let mut index: usize = 0;
    animate_player(&info, &mut state, &inv, &mut index, &mut timer, 100);
    assert_eq!(index, 15);
    assert_eq!(timer.0.duration, 50);
}

#[test]
fn idle_rests_on_first_frame() {
    let info = AnimationInfo::new();
    let inv = PlayerInventory::new();
    let mut state = PlayerState::Idle;
    let mut index: usize = 7;
    let mut timer = clock();
    animate_player(&info, &mut state, &inv, &mut index, &mut timer, 100);
    assert_eq!(index, 0);
    assert_eq!(state, PlayerState::Idle);
}
