//! The ping-pong frame sequencer.
//!
//! A [`Sequencer`] owns a current position into an ordered list of frames
//! (identified here only by their count), a playback direction and a pause
//! flag. [`Sequencer::tick`] advances the position on a fixed cadence
//! according to ping-pong rules: forward to the last frame, then backward to
//! the first, then forward again. Optionally the sequencer pauses itself
//! each time a full loop completes, that is each time the position returns
//! to the first frame.

use vstd::prelude::*;

verus! {

/// Playback direction of the sequencer.
#[derive(Clone, Copy, PartialEq, Eq, Structural, Debug)]
pub enum Direction {
    Forward,
    Backward,
}

/// Reported by a successful [`Sequencer::tick`]: the position the sequencer
/// moved to.
#[derive(Clone, Copy, PartialEq, Eq, Structural, Debug)]
pub struct FrameChangeEvent {
    pub new_position: usize,
}

/// The ping-pong frame sequencer state.
///
/// All timestamps and durations are in milliseconds.
#[derive(Clone, Copy, PartialEq, Eq, Structural, Debug)]
pub struct Sequencer {
    /// How many frames the sequenced frame set has. At least 1.
    pub frame_count: usize,
    /// Current frame index; always below `frame_count`.
    pub position: usize,
    /// Direction of the next step.
    pub direction: Direction,
    /// While set, `tick` does nothing.
    pub paused: bool,
    /// When set, the sequencer pauses itself each time a loop completes
    /// (each time the position comes back to 0).
    pub pause_at_loop: bool,
    /// Time of the last successful advance.
    pub last_advance_time: u64,
}

/// One ping-pong step on a frame set of `n` frames (`n >= 2`), from
/// position `pos` heading in direction `dir`. Returns the new position, the
/// new direction, and whether this step completed a full loop (arrived back
/// at position 0 after playing backward) — the point at which a sequencer in
/// pause-at-loop mode pauses itself.
///
/// The chosen boundary rule, applied consistently at both ends: a step that
/// would leave the frame set instead lands on the penultimate frame with the
/// direction reversed, and a step that arrives at position 0 turns the
/// direction forward again. With two frames the "penultimate" frame is
/// position 0 itself, so arrival there is also a completed loop. A backward
/// state at position 0 cannot arise from these rules; if handed one anyway,
/// the step clamps to position 0 heading forward, completing no loop.
pub open spec fn pingpong_step(pos: int, dir: Direction, n: int) -> (int, Direction, bool) {
    if dir == Direction::Forward {
        if pos + 1 < n {
            (pos + 1, Direction::Forward, false)
        } else if n >= 3 {
            (n - 2, Direction::Backward, false)
        } else {
            (0int, Direction::Forward, true)
        }
    } else {
        if pos <= 1 {
            (0int, Direction::Forward, pos == 1)
        } else {
            (pos - 1, Direction::Backward, false)
        }
    }
}

impl Sequencer {
    /// Well-formedness: the position stays inside the frame set, and while
    /// playing backward it is strictly between the ends (the sequencer
    /// reverses on arrival at either boundary, so a backward state never
    /// rests on one).
    pub open spec fn wf(self) -> bool {
        &&& self.frame_count >= 1
        &&& self.position < self.frame_count
        &&& (self.direction == Direction::Backward ==> 1 <= self.position
            && self.position + 2 <= self.frame_count)
    }

    /// `self` with the pause flag replaced and everything else unchanged.
    pub open spec fn with_paused(self, p: bool) -> Sequencer {
        Sequencer { paused: p, ..self }
    }

    /// A fresh sequencer: at the first frame, playing forward.
    pub fn new(
        frame_count: usize,
        initially_paused: bool,
        pause_at_loop: bool,
        start_time: u64,
    ) -> (r: Sequencer)
        requires
            frame_count >= 1,
        ensures
            r.wf(),
            r == (Sequencer {
                frame_count,
                position: 0,
                direction: Direction::Forward,
                paused: initially_paused,
                pause_at_loop,
                last_advance_time: start_time,
            }),
    {
        Sequencer {
            frame_count,
            position: 0,
            direction: Direction::Forward,
            paused: initially_paused,
            pause_at_loop,
            last_advance_time: start_time,
        }
    }

    /// Milliseconds elapsed between the last successful advance and `now`.
    /// A `now` before the last advance (a clock that jumped back) counts as
    /// no time elapsed.
    pub open spec fn elapsed_since(self, now: u64) -> int {
        if now >= self.last_advance_time {
            now - self.last_advance_time
        } else {
            0int
        }
    }

    /// Whether a `tick` at time `now` with the given minimum interval
    /// advances the position: the sequencer is not paused, the interval has
    /// passed, and there are at least two frames (a single frame never
    /// advances).
    pub open spec fn advances(self, now: u64, frame_interval: u64) -> bool {
        &&& !self.paused
        &&& self.elapsed_since(now) >= frame_interval
        &&& self.frame_count >= 2
    }

    /// Advances the sequencer by one ping-pong step if it is due: not
    /// paused, at least `frame_interval` milliseconds since the last
    /// advance, and at least two frames. Otherwise nothing changes and no
    /// event is reported.
    ///
    /// On an advance the position and direction follow [`pingpong_step`],
    /// the advance time is recorded, and — in pause-at-loop mode — the
    /// sequencer pauses itself when the step completed a full loop.
    pub fn tick(&mut self, now: u64, frame_interval: u64) -> (r: Option<FrameChangeEvent>)
        requires
            old(self).wf(),
            frame_interval >= 1,
        ensures
            final(self).wf(),
            !old(self).advances(now, frame_interval) ==> *final(self) == *old(self) && r
                == None::<FrameChangeEvent>,
            old(self).advances(now, frame_interval) ==> {
                let (p, d, looped) = pingpong_step(
                    old(self).position as int,
                    old(self).direction,
                    old(self).frame_count as int,
                );
                &&& final(self).position == p
                &&& final(self).direction == d
                &&& final(self).paused == (old(self).pause_at_loop && looped)
                &&& final(self).last_advance_time == now
                &&& final(self).frame_count == old(self).frame_count
                &&& final(self).pause_at_loop == old(self).pause_at_loop
                &&& r == Some(FrameChangeEvent { new_position: final(self).position })
            },
    {
        if self.paused {
            return None;
        }
        let elapsed: u64 = if now >= self.last_advance_time {
            now - self.last_advance_time
        } else {
            0
        };
        if elapsed < frame_interval {
            return None;
        }
        if self.frame_count < 2 {
            return None;
        }
        self.last_advance_time = now;
        match self.direction {
            Direction::Forward => {
                if self.position + 1 < self.frame_count {
                    self.position = self.position + 1;
                } else if self.frame_count >= 3 {
                    self.position = self.frame_count - 2;
                    self.direction = Direction::Backward;
                } else {
                    self.position = 0;
                    if self.pause_at_loop {
                        self.paused = true;
                    }
                }
            },
            Direction::Backward => {
                let completed_loop = self.position == 1;
                if self.position <= 1 {
                    self.position = 0;
                    self.direction = Direction::Forward;
                    if completed_loop && self.pause_at_loop {
                        self.paused = true;
                    }
                } else {
                    self.position = self.position - 1;
                }
            },
        }
        Some(FrameChangeEvent { new_position: self.position })
    }

    /// Flips the pause flag; position, direction and timing are untouched.
    pub fn toggle_pause(&mut self)
        ensures
            *final(self) == old(self).with_paused(!old(self).paused),
    {
        self.paused = !self.paused;
    }
}

/// Position and direction after `k` ping-pong steps on `n` frames, starting
/// from a fresh sequencer's state: position 0, heading forward.
pub open spec fn state_after(k: nat, n: int) -> (int, Direction)
    decreases k,
{
    if k == 0 {
        (0int, Direction::Forward)
    } else {
        let prev = state_after((k - 1) as nat, n);
        let next = pingpong_step(prev.0, prev.1, n);
        (next.0, next.1)
    }
}

/// The closed form of ping-pong playback over `n >= 2` frames: a triangle
/// wave of period `2n - 2`. After `k` steps the position is `k mod (2n - 2)`
/// while that lies below `n`, and mirrors back down otherwise.
pub open spec fn pingpong_position(k: nat, n: int) -> int
    recommends
        n >= 2,
{
    let m = (k as int) % (2 * n - 2);
    if m < n {
        m
    } else {
        2 * n - 2 - m
    }
}

/// How the remainder modulo `d` changes when the dividend grows by one: it
/// increments, except that from `d - 1` it wraps to 0.
proof fn lemma_mod_step_up(k: int, d: int)
    requires
        d >= 1,
        k >= 0,
    ensures
        (k + 1) % d == if k % d == d - 1 {
            0int
        } else {
            k % d + 1
        },
{
    vstd::arithmetic::div_mod::lemma_mod_bound(k, d);
    vstd::arithmetic::div_mod::lemma_fundamental_div_mod(k, d);
    let q = k / d;
    let r = k % d;
    if r == d - 1 {
        assert(k + 1 == (q + 1) * d + 0) by (nonlinear_arith)
            requires
                k == d * q + r,
                r == d - 1,
        ;
        vstd::arithmetic::div_mod::lemma_fundamental_div_mod_converse(k + 1, d, q + 1, 0);
    } else {
        vstd::arithmetic::div_mod::lemma_fundamental_div_mod_converse(k + 1, d, q, r + 1);
    }
}

/// The ping-pong law: starting from position 0 heading forward over `n >= 2`
/// frames, the position after `k` steps is the triangle wave
/// [`pingpong_position`] — it strictly ping-pongs between 0 and `n - 1`,
/// never leaving that range — and the direction is forward exactly while
/// `k mod (2n - 2)` lies below `n`.
pub proof fn lemma_pingpong_closed_form(k: nat, n: int)
    requires
        n >= 2,
    ensures
        state_after(k, n).0 == pingpong_position(k, n),
        0 <= pingpong_position(k, n) <= n - 1,
        state_after(k, n).1 == if (k as int) % (2 * n - 2) < n {
            Direction::Forward
        } else {
            Direction::Backward
        },
    decreases k,
{
    let d = 2 * n - 2;
    vstd::arithmetic::div_mod::lemma_mod_bound(k as int, d);
    if k == 0 {
        vstd::arithmetic::div_mod::lemma_small_mod(0, d as nat);
    } else {
        let j = (k - 1) as nat;
        lemma_pingpong_closed_form(j, n);
        lemma_mod_step_up(j as int, d);
        vstd::arithmetic::div_mod::lemma_mod_bound(j as int, d);
    }
}

/// Repeated advancing ticks walk the iterated step relation: a sequencer
/// standing on the `k`-th iterate of [`pingpong_step`] moves, when
/// [`Sequencer::tick`] advances it, to the `k + 1`-th iterate. Together with
/// [`lemma_pingpong_closed_form`] this pins the whole position sequence of an
/// unpaused sequencer to the triangle wave.
pub proof fn lemma_advance_follows_iterates(s: Sequencer, k: nat)
    requires
        s.position as int == state_after(k, s.frame_count as int).0,
        s.direction == state_after(k, s.frame_count as int).1,
    ensures
        pingpong_step(s.position as int, s.direction, s.frame_count as int).0 == state_after(
            k + 1,
            s.frame_count as int,
        ).0,
        pingpong_step(s.position as int, s.direction, s.frame_count as int).1 == state_after(
            k + 1,
            s.frame_count as int,
        ).1,
{
}

/// With exactly two frames the position alternates 0, 1, 0, 1, ...
pub proof fn lemma_two_frames_alternate(k: nat)
    ensures
        state_after(k, 2).0 == (k as int) % 2,
{
    lemma_pingpong_closed_form(k, 2);
}

/// Toggling the pause flag twice returns the sequencer to exactly the state
/// it had before either toggle; a single toggle changes nothing but the
/// pause flag.
pub proof fn lemma_toggle_pause_twice_identity(s: Sequencer)
    ensures
        s.with_paused(!s.paused).with_paused(!(!s.paused)) == s,
{
}

} // verus!
