use player_controller::components::{GroundedState, Player, PlayerData, UngroundedReason};
use player_controller::jump::{jump_tick, JumpTimer, JUMP_DEBOUNCE};

fn grounded_state() -> PlayerData {
    let mut state = PlayerData::default();
    state.grounded = GroundedState::Grounded;
    state
}

#[test]
fn spawn_timer_is_ready() {
    let t = JumpTimer::ready();
    assert_eq!(t.elapsed, JUMP_DEBOUNCE);
    assert_eq!(t.duration, JUMP_DEBOUNCE);
    assert!(t.finished());
}

#[test]
fn timer_saturates_at_its_duration() {
    let mut t = JumpTimer { elapsed: 0, duration: 100 };
    t.tick(70);
    assert_eq!(t.elapsed, 70);
    assert!(!t.finished());
    t.tick(70);
    assert_eq!(t.elapsed, 100);
    assert!(t.finished());
}

#[test]
fn grounded_press_with_elapsed_timer_jumps() {
    let mut state = grounded_state();
    let impulse = jump_tick(&mut state, &Player::default(), true, 16);
    assert_eq!(impulse, Some(5_000));
    assert_eq!(state.jump_cooldown.elapsed, 0);
}

#[test]
fn presses_within_the_debounce_window_fire_once() {
    // two inputs separated by 0.05 s of simulated time: one impulse
    let mut state = grounded_state();
    assert_eq!(jump_tick(&mut state, &Player::default(), true, 16), Some(5_000));
    let second = jump_tick(&mut state, &Player::default(), true, 50);
    assert_eq!(second, None);
}

#[test]
fn presses_a_debounce_apart_fire_twice() {
    // two inputs separated by 0.1 s of simulated time: two impulses
    let mut state = grounded_state();
    assert_eq!(jump_tick(&mut state, &Player::default(), true, 16), Some(5_000));
    assert_eq!(jump_tick(&mut state, &Player::default(), false, 50), None);
    let second = jump_tick(&mut state, &Player::default(), true, 50);
    assert_eq!(second, Some(5_000));
}

#[test]
fn airborne_press_is_refused() {
    let mut state = PlayerData::default();
    state.grounded = GroundedState::Ungrounded(UngroundedReason::Airborne);
    assert_eq!(jump_tick(&mut state, &Player::default(), true, 16), None);
}

#[test]
fn held_key_without_press_does_not_jump() {
    let mut state = grounded_state();
    assert_eq!(jump_tick(&mut state, &Player::default(), false, 16), None);
    assert!(state.jump_cooldown.finished());
}

#[test]
fn timer_always_advances_even_while_airborne() {
    let mut state = PlayerData::default();
    state.grounded = GroundedState::Ungrounded(UngroundedReason::Airborne);
    state.jump_cooldown = JumpTimer { elapsed: 0, duration: 100 };
    jump_tick(&mut state, &Player::default(), false, 60);
    assert_eq!(state.jump_cooldown.elapsed, 60);
}
