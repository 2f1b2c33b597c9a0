use frame_sequencer::{Direction, FrameChangeEvent, Sequencer};

/// Drives `n_ticks` ticks, one every `interval` milliseconds, and collects
/// the position after each tick (repeating the last position when a tick
/// reported no change).
fn run_ticks(seq: &mut Sequencer, n_ticks: usize, interval: u64) -> Vec<usize> {
    let mut positions = Vec::new();
    for k in 1..=n_ticks as u64 {
        match seq.tick(k * interval, interval) {
            Some(FrameChangeEvent { new_position }) => positions.push(new_position),
            None => positions.push(seq.position),
        }
    }
    positions
}

#[test]
fn pingpong_sequence_five_frames() {
    let mut seq = Sequencer::new(5, false, false, 0);
    let positions = run_ticks(&mut seq, 16, 10);
    assert_eq!(positions, vec![1, 2, 3, 4, 3, 2, 1, 0, 1, 2, 3, 4, 3, 2, 1, 0]);
    for &p in &positions {
        assert!(p <= 4);
    }
}

#[test]
fn rate_limiting_leaves_position_unchanged() {
    let mut seq = Sequencer::new(3, false, false, 0);
    assert_eq!(seq.tick(30, 30), Some(FrameChangeEvent { new_position: 1 }));
    // Elapsed time (15 ms) is below the interval: no change at all.
    let before = seq;
    assert_eq!(seq.tick(45, 30), None);
    assert_eq!(seq, before);
    assert_eq!(seq.position, 1);
    // A clock that jumped backwards counts as no elapsed time.
    assert_eq!(seq.tick(10, 30), None);
    assert_eq!(seq, before);
}

#[test]
fn toggle_pause_twice_is_identity() {
    let mut seq = Sequencer::new(4, false, false, 0);
    seq.tick(30, 30);
    seq.tick(60, 30);
    let before = seq;
    seq.toggle_pause();
    assert_eq!(seq.paused, !before.paused);
    assert_eq!(seq.position, before.position);
    assert_eq!(seq.direction, before.direction);
    seq.toggle_pause();
    assert_eq!(seq, before);
}

#[test]
fn paused_sequencer_never_advances() {
    let mut seq = Sequencer::new(4, true, false, 0);
    for k in 1..10u64 {
        assert_eq!(seq.tick(k * 100, 30), None);
        assert_eq!(seq.position, 0);
    }
}

#[test]
fn two_frames_alternate() {
    let mut seq = Sequencer::new(2, false, false, 0);
    let positions = run_ticks(&mut seq, 8, 30);
    assert_eq!(positions, vec![1, 0, 1, 0, 1, 0, 1, 0]);
}

#[test]
fn two_frames_pause_at_loop() {
    let mut seq = Sequencer::new(2, false, true, 0);
    assert_eq!(seq.tick(30, 30), Some(FrameChangeEvent { new_position: 1 }));
    assert!(!seq.paused);
    // Arriving back at frame 0 completes a loop and pauses the sequencer.
    assert_eq!(seq.tick(60, 30), Some(FrameChangeEvent { new_position: 0 }));
    assert!(seq.paused);
    assert_eq!(seq.tick(90, 30), None);
    // Resume: the cycle repeats, 1 then 0-with-pause.
    seq.toggle_pause();
    assert_eq!(seq.tick(120, 30), Some(FrameChangeEvent { new_position: 1 }));
    assert_eq!(seq.tick(150, 30), Some(FrameChangeEvent { new_position: 0 }));
    assert!(seq.paused);
}

#[test]
fn scenario_four_frames_thirty_ms() {
    // Four frames, 30 ms interval, ticks at t = 30, 60, ..., 240.
    let mut seq = Sequencer::new(4, false, false, 0);
    let positions = run_ticks(&mut seq, 8, 30);
    assert_eq!(positions, vec![1, 2, 3, 2, 1, 0, 1, 2]);

    // The pause-at-loop variant stalls after arriving back at frame 0.
    let mut seq = Sequencer::new(4, false, true, 0);
    let mut positions = Vec::new();
    let mut events = Vec::new();
    for k in 1..=8u64 {
        let r = seq.tick(k * 30, 30);
        events.push(r.is_some());
        positions.push(seq.position);
    }
    assert_eq!(positions, vec![1, 2, 3, 2, 1, 0, 0, 0]);
    assert_eq!(events, vec![true, true, true, true, true, true, false, false]);
    assert!(seq.paused);
}

#[test]
fn single_frame_never_advances() {
    let mut seq = Sequencer::new(1, false, false, 0);
    for k in 1..10u64 {
        assert_eq!(seq.tick(k * 30, 30), None);
        assert_eq!(seq.position, 0);
        assert_eq!(seq.direction, Direction::Forward);
    }
}

#[test]
fn direction_reverses_at_both_ends() {
    let mut seq = Sequencer::new(3, false, false, 0);
    assert_eq!(seq.direction, Direction::Forward);
    seq.tick(30, 30); // -> 1
    seq.tick(60, 30); // -> 2, the last frame
    assert_eq!(seq.position, 2);
    assert_eq!(seq.direction, Direction::Forward);
    seq.tick(90, 30); // reverses onto the penultimate frame
    assert_eq!(seq.position, 1);
    assert_eq!(seq.direction, Direction::Backward);
    seq.tick(120, 30); // arrives at 0, heading forward again
    assert_eq!(seq.position, 0);
    assert_eq!(seq.direction, Direction::Forward);
}
