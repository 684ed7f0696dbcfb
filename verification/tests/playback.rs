use benimator::{Animation, Duration, Frame, FrameRate, State};

fn frame_duration() -> Duration {
    Duration::from_secs(1)
}

fn frame_rate() -> FrameRate {
    FrameRate::from_frame_duration(frame_duration())
}

fn smaller_duration() -> Duration {
    Duration::from_nanos(frame_duration().as_nanos() as u64 - 1_000_000)
}

#[test]
fn sprite_index() {
    let animation = Animation::from_indices(vec![3, 4, 5], frame_rate());
    let mut state = State::default();
    state.update(&animation, Duration::from_nanos(0));
    assert_eq!(state.frame_index(), 3);
}

#[test]
fn reset_resets_current_frame() {
    let mut state = State {
        animation_frame_index: 1,
        elapsed_in_frame: Duration::from_secs(1),
        ..Default::default()
    };
    state.reset();
    assert_eq!(state.animation_frame_index, 0);
}

#[test]
fn reset_resets_elapsed_time() {
    let mut state = State {
        animation_frame_index: 1,
        elapsed_in_frame: Duration::from_secs(1),
        ..Default::default()
    };
    state.reset();
    assert_eq!(state.elapsed_in_frame, Duration::from_nanos(0));
}

#[test]
fn reset_restores_defaults_after_updates() {
    let animation = Animation::from_indices(vec![3, 4, 5], frame_rate()).ping_pong();
    let mut state = State::new();
    state.update(&animation, Duration::from_millis(4500));
    state.update(&animation, Duration::from_millis(700));
    state.reset();
    assert_eq!(state, State::new());
    assert_eq!(state, State::default());
}

#[test]
fn nothing_happens_if_not_enough_time_has_elapsed_and_index_is_already_set() {
    let animation = Animation::from_indices(vec![0, 1, 2], frame_rate());
    let mut state = State::default();
    state.update(&animation, smaller_duration());
    assert_eq!(state.frame_index(), 0);
}

#[test]
fn updates_index_if_less_than_expected_index() {
    let animation = Animation::from_indices(vec![1, 2, 3], frame_rate());
    let mut state = State::default();
    state.update(&animation, smaller_duration());
    assert_eq!(state.frame_index(), 1);
}

#[test]
fn updates_index_if_enough_time_has_elapsed() {
    let animation = Animation::from_indices(vec![0, 1, 2], frame_rate());
    let mut state = State::default();
    state.update(&animation, frame_duration());
    assert_eq!(state.frame_index(), 1);
}

#[test]
fn updates_index_if_enough_time_has_elapsed_after_multiple_updates() {
    let animation = Animation::from_indices(vec![0, 1, 2], frame_rate());
    let mut state = State::default();
    state.update(&animation, smaller_duration());
    state.update(&animation, smaller_duration());
    assert_eq!(state.frame_index(), 1);
}

#[test]
fn elapsed_duration_is_carried_over() {
    let animation = Animation::from_indices(vec![0, 1, 2], frame_rate());
    let mut state = State::default();
    state.update(&animation, smaller_duration());
    state.update(&animation, smaller_duration());
    assert_eq!(
        state.elapsed_in_frame.as_nanos(),
        2 * smaller_duration().as_nanos() - frame_duration().as_nanos()
    );
}

#[test]
fn is_not_ended_while_looping() {
    let animation = Animation::from_indices(vec![0, 1, 2], frame_rate());
    let mut state = State::default();
    state.update(&animation, frame_duration());
    assert!(!state.is_ended());
}

#[test]
fn skips_frame_if_too_much_time_elapsed() {
    let animation = Animation::from_indices(vec![0, 1, 2], frame_rate());
    let mut state = State::default();
    state.update(&animation, Duration::from_secs(2));
    assert_eq!(state.frame_index(), 2);
}

#[test]
fn frame_skip_matches_two_separate_updates() {
    let animation = Animation::from_indices(vec![0, 1, 2], frame_rate());
    let mut one_call = State::default();
    one_call.update(&animation, Duration::from_secs(2));
    let mut two_calls = State::default();
    two_calls.update(&animation, frame_duration());
    two_calls.update(&animation, frame_duration());
    assert_eq!(one_call.frame_index(), 2);
    assert_eq!(one_call, two_calls);
}

#[test]
fn zero_delta_update_changes_nothing_at_rest() {
    let animation = Animation::from_indices(vec![5, 6, 7], frame_rate()).ping_pong();
    let mut state = State::default();
    state.update(&animation, Duration::from_millis(3700));
    let before = state.clone();
    state.update(&animation, Duration::from_nanos(0));
    assert_eq!(state, before);
}

#[test]
fn repeat_from_returns_to_loop_frame_from_last_frame() {
    let animation = Animation::from_frames(vec![
        Frame::new(0, frame_duration()),
        Frame::new(1, frame_duration()),
        Frame::new(2, frame_duration()),
        Frame::new(3, frame_duration()),
        Frame::new(4, frame_duration()),
    ])
    .repeat_from(2);
    let mut state = State {
        animation_frame_index: 4,
        ..Default::default()
    };
    state.update(&animation, frame_duration());
    assert_eq!(state.frame_index(), 2);
    assert!(!state.is_ended());
}

#[test]
fn repeat_from_returns_to_loop_frame_from_past_the_end() {
    let animation = Animation::from_frames(vec![
        Frame::new(0, frame_duration()),
        Frame::new(1, frame_duration()),
        Frame::new(2, frame_duration()),
        Frame::new(3, frame_duration()),
    ])
    .repeat_from(2);
    let mut state = State {
        animation_frame_index: 4,
        ..Default::default()
    };
    state.update(&animation, frame_duration());
    assert_eq!(state.frame_index(), 2);
    assert!(!state.is_ended());
}

#[test]
fn repeat_from_wraps_to_loop_frame_after_full_pass() {
    let animation = Animation::from_frames(vec![
        Frame::new(0, frame_duration()),
        Frame::new(1, frame_duration()),
        Frame::new(2, frame_duration()),
        Frame::new(3, frame_duration()),
    ])
    .repeat_from(2);
    let mut state = State::default();
    state.update(&animation, Duration::from_secs(3));
    assert_eq!(state.frame_index(), 3);
    state.update(&animation, frame_duration());
    assert_eq!(state.frame_index(), 2);
}

#[test]
fn repeat_from_out_of_range_sticks_past_the_end() {
    // An out-of-range loop target jumps the cursor past the end; from there
    // the frame shown is read modulo the frame count and every further tick
    // re-applies the same out-of-range jump.
    let animation = Animation::from_frames(vec![
        Frame::new(10, frame_duration()),
        Frame::new(11, frame_duration()),
    ])
    .repeat_from(5);
    let mut state = State {
        animation_frame_index: 1,
        ..Default::default()
    };
    state.update(&animation, frame_duration());
    assert_eq!(state.animation_frame_index(), 5);
    assert_eq!(state.frame_index(), 11);
    state.update(&animation, frame_duration());
    assert_eq!(state.animation_frame_index(), 5);
    assert_eq!(state.frame_index(), 11);
}

#[test]
fn ping_pong_returns_to_previous_frame_from_last_frame() {
    let animation = Animation::from_indices(vec![0, 1], frame_rate()).ping_pong();
    let mut state = State {
        animation_frame_index: 1,
        elapsed_in_frame: Duration::from_nanos(500),
        ..Default::default()
    };
    state.update(&animation, frame_duration());
    assert_eq!(state.frame_index(), 0);
    assert!(state.going_backward);
}

#[test]
fn ping_pong_continues_to_previous_frame_going_backward() {
    let animation = Animation::from_indices(vec![0, 1, 2], frame_rate()).ping_pong();
    let mut state = State {
        animation_frame_index: 1,
        elapsed_in_frame: Duration::from_nanos(500),
        going_backward: true,
        ..Default::default()
    };
    state.update(&animation, frame_duration());
    assert_eq!(state.frame_index(), 0);
}

#[test]
fn ping_pong_visits_each_endpoint_once_per_turn() {
    let animation = Animation::from_indices(vec![0, 1, 2], frame_rate()).ping_pong();
    let mut state = State::default();
    let mut seen: Vec<usize> = Vec::new();
    for _ in 0..5 {
        state.update(&animation, frame_duration());
        seen.push(state.frame_index());
    }
    assert_eq!(seen, vec![1, 2, 1, 0, 1]);
}

#[test]
fn once_sets_final_index_if_frames_skipped_past_end() {
    let animation = Animation::from_indices(vec![0, 1], frame_rate()).once();
    let mut state = State {
        elapsed_in_frame: Duration::from_nanos(500),
        ..Default::default()
    };
    state.update(&animation, Duration::from_secs(4));
    assert_eq!(state.frame_index(), 1);
}

#[test]
fn once_does_nothing_on_last_frame() {
    let animation = Animation::from_indices(vec![0, 1], frame_rate()).once();
    let mut state = State {
        animation_frame_index: 1,
        elapsed_in_frame: Duration::from_nanos(500),
        ..Default::default()
    };
    state.update(&animation, frame_duration());
    assert_eq!(state.frame_index(), 1);
}

#[test]
fn once_is_ended_on_last_frame() {
    let animation = Animation::from_indices(vec![0, 1], frame_rate()).once();
    let mut state = State {
        animation_frame_index: 1,
        elapsed_in_frame: Duration::from_nanos(500),
        ..Default::default()
    };
    state.update(&animation, frame_duration());
    assert!(state.is_ended());
}

#[test]
fn once_stays_frozen_after_the_end() {
    let animation = Animation::from_indices(vec![0, 1], frame_rate()).once();
    let mut state = State::default();
    state.update(&animation, frame_duration());
    assert_eq!(state.frame_index(), 1);
    assert!(!state.is_ended());
    state.update(&animation, frame_duration());
    assert!(state.is_ended());
    state.update(&animation, Duration::from_secs(7));
    assert_eq!(state.frame_index(), 1);
    assert!(state.is_ended());
}

#[test]
fn no_drift_over_many_uneven_updates() {
    // Total time is conserved: with 1-second frames, after deltas summing to
    // 3.7 s from a fresh state, 3 whole frames were consumed and 0.7 s
    // remains accumulated in the current frame.
    let animation = Animation::from_indices(vec![0, 1, 2], frame_rate());
    let mut state = State::default();
    state.update(&animation, Duration::from_millis(1300));
    state.update(&animation, Duration::from_millis(900));
    state.update(&animation, Duration::from_millis(1100));
    state.update(&animation, Duration::from_millis(400));
    assert_eq!(state.elapsed_in_frame, Duration::from_millis(700));
    assert_eq!(state.frame_index(), 0);
}
