use dreamwalk::animation::{trigger_step_sfx, BasicAnimation, PlayerAnimation, PlayerAnimationState};
use dreamwalk::movement::{update_animation_movement, Direction, Sign};
use dreamwalk::timer::FrameTimer;

const MS: u64 = 1_000_000;

#[test]
fn timer_fires_on_reaching_its_period_and_keeps_the_remainder() {
    let mut t = FrameTimer::new(500 * MS);
    t.tick(300 * MS);
    assert!(!t.finished());
    assert_eq!(t.elapsed(), 300 * MS);
    t.tick(300 * MS);
    assert!(t.finished());
    assert_eq!(t.elapsed(), 100 * MS);
    t.tick(0);
    assert!(!t.finished());
    assert_eq!(t.elapsed(), 100 * MS);
}

#[test]
fn timer_fires_once_for_several_periods() {
    let mut t = FrameTimer::new(50 * MS);
    t.tick(175 * MS);
    assert!(t.finished());
    assert_eq!(t.elapsed(), 25 * MS);
    assert_eq!(t.period(), 50 * MS);
}

#[test]
fn idle_player_three_ticks_of_200ms() {
    let mut a = PlayerAnimation::new();
    assert_eq!(a.frame(), 0);
    let mut frames = vec![a.frame()];
    for _ in 0..3 {
        update_animation_movement(
            Direction { x: Sign::Zero, y: Sign::Zero },
            &mut false,
            &mut a,
        );
        a.update_timer(200 * MS);
        frames.push(a.frame());
    }
    assert_eq!(a.state(), PlayerAnimationState::Idling);
    assert_eq!(frames, vec![0, 0, 0, 1]);
    assert!(a.changed());
}

#[test]
fn whole_periods_advance_frames_cyclically() {
    let mut b = BasicAnimation::new(3);
    for _ in 0..7 {
        b.update_timer(250 * MS);
        b.update_timer(250 * MS);
    }
    assert_eq!(b.get_atlas_index(), 7 % 3);
}

#[test]
fn one_long_step_moves_one_frame() {
    let mut b = BasicAnimation::new(4);
    b.update_timer(2_000 * MS);
    assert!(b.changed());
    assert_eq!(b.get_atlas_index(), 1);
}

#[test]
fn single_frame_animation_stays_on_frame_zero() {
    let mut b = BasicAnimation::new(1);
    b.update_timer(500 * MS);
    assert!(b.changed());
    assert_eq!(b.get_atlas_index(), 0);
}

#[test]
fn zero_delta_changes_nothing() {
    let mut b = BasicAnimation::new(2);
    b.update_timer(0);
    assert!(!b.changed());
    assert_eq!(b.get_atlas_index(), 0);
}

#[test]
fn walking_uses_its_own_sheet_range_and_speed() {
    let mut a = PlayerAnimation::new();
    a.update_state(PlayerAnimationState::Walking);
    assert_eq!(a.get_atlas_index(), 6);
    for expected in [7, 8, 9, 10, 11, 6, 7] {
        a.update_timer(50 * MS);
        assert!(a.changed());
        assert_eq!(a.get_atlas_index(), expected);
    }
}

#[test]
fn idle_indices_stay_below_two() {
    let mut a = PlayerAnimation::new();
    for _ in 0..9 {
        a.update_timer(500 * MS);
        assert!(a.get_atlas_index() < 2);
    }
}

#[test]
fn state_change_restarts_without_carry_over() {
    let mut a = PlayerAnimation::new();
    a.update_state(PlayerAnimationState::Walking);
    a.update_timer(50 * MS);
    a.update_timer(50 * MS);
    a.update_timer(30 * MS);
    assert_eq!(a.frame(), 2);
    a.update_state(PlayerAnimationState::Idling);
    assert_eq!(a.frame(), 0);
    assert!(!a.changed());
    a.update_timer(470 * MS);
    assert_eq!(a.frame(), 0);
    a.update_timer(30 * MS);
    assert_eq!(a.frame(), 1);
}

#[test]
fn same_state_keeps_progress() {
    let mut a = PlayerAnimation::new();
    a.update_timer(500 * MS);
    a.update_state(PlayerAnimationState::Idling);
    assert_eq!(a.frame(), 1);
    assert!(a.changed());
}

#[test]
fn step_sound_on_frames_two_and_five_only() {
    let mut a = PlayerAnimation::new();
    a.update_state(PlayerAnimationState::Walking);
    let mut heard = Vec::new();
    for _ in 0..12 {
        a.update_timer(50 * MS);
        if trigger_step_sfx(&a) {
            heard.push(a.frame());
        }
    }
    assert_eq!(heard, vec![2, 5, 2, 5]);
}

#[test]
fn no_step_sound_while_idling() {
    let mut a = PlayerAnimation::new();
    for _ in 0..10 {
        a.update_timer(500 * MS);
        assert!(!trigger_step_sfx(&a));
    }
}

#[test]
fn no_step_sound_without_a_frame_change() {
    let mut a = PlayerAnimation::new();
    a.update_state(PlayerAnimationState::Walking);
    a.update_timer(100 * MS);
    a.update_timer(50 * MS);
    assert_eq!(a.frame(), 2);
    a.update_timer(10 * MS);
    assert_eq!(a.frame(), 2);
    assert!(!trigger_step_sfx(&a));
}

#[test]
fn atlas_index_copied_only_on_change() {
    let mut a = PlayerAnimation::new();
    let mut index = 99;
    a.update_timer(100 * MS);
    a.update_atlas(&mut index);
    assert_eq!(index, 99);
    a.update_timer(400 * MS);
    a.update_atlas(&mut index);
    assert_eq!(index, 1);

    let mut b = BasicAnimation::new(3);
    let mut basic_index = 42;
    b.update_timer(499 * MS);
    b.update_atlas(&mut basic_index);
    assert_eq!(basic_index, 42);
    b.update_timer(1 * MS);
    b.update_atlas(&mut basic_index);
    assert_eq!(basic_index, 1);
}

#[test]
fn movement_sets_facing_and_state() {
    let mut a = PlayerAnimation::new();
    let mut flip = false;
    update_animation_movement(Direction { x: Sign::Negative, y: Sign::Zero }, &mut flip, &mut a);
    assert!(flip);
    assert_eq!(a.state(), PlayerAnimationState::Walking);
    update_animation_movement(Direction { x: Sign::Zero, y: Sign::Positive }, &mut flip, &mut a);
    assert!(flip);
    assert_eq!(a.state(), PlayerAnimationState::Walking);
    update_animation_movement(Direction { x: Sign::Positive, y: Sign::Negative }, &mut flip, &mut a);
    assert!(!flip);
    update_animation_movement(Direction { x: Sign::Zero, y: Sign::Zero }, &mut flip, &mut a);
    assert!(!flip);
    assert_eq!(a.state(), PlayerAnimationState::Idling);
}

#[test]
fn direction_state() {
    assert_eq!(Direction { x: Sign::Zero, y: Sign::Zero }.state(), PlayerAnimationState::Idling);
    assert_eq!(Direction { x: Sign::Zero, y: Sign::Negative }.state(), PlayerAnimationState::Walking);
    assert_eq!(Direction { x: Sign::Positive, y: Sign::Zero }.state(), PlayerAnimationState::Walking);
}
