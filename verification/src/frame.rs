//! Frame-rate throttling arithmetic. Time is carried as microseconds in
//! plain integers; the host reads its clock, asks these functions whether a
//! frame is due or for how long to sleep, and performs the sleeping itself.

use vstd::prelude::*;

verus! {

/// One second in microseconds.
pub const MICROS_PER_SECOND: u64 = 1_000_000;

/// The target frame interval for a frame rate: `1 / fps` seconds, in whole
/// microseconds.
pub open spec fn spec_minimum_frame_time(fps: int) -> int
    recommends
        fps >= 1,
{
    MICROS_PER_SECOND as int / fps
}

/// The time elapsed since the last committed frame. A clock that jumps
/// backwards counts as no time elapsed.
pub open spec fn spec_frame_time(last: int, now: int) -> int {
    if now >= last {
        now - last
    } else {
        0
    }
}

/// The mathematical model of a [`FrameTimer`]: the target frame rate and
/// the timestamp of the last committed frame.
pub ghost struct FrameTimerView {
    pub fps: int,
    pub time_since_last_frame: int,
}

/// Decides when a frame is due: a frame is drawn only once the elapsed time
/// exceeds the target interval `1 / fps`, and otherwise the host is told how
/// long to sleep.
#[derive(Debug)]
pub struct FrameTimer {
    fps: u8,
    time_since_last_frame: u64,
}

impl View for FrameTimer {
    type V = FrameTimerView;

    closed spec fn view(&self) -> FrameTimerView {
        FrameTimerView {
            fps: self.fps as int,
            time_since_last_frame: self.time_since_last_frame as int,
        }
    }
}

impl FrameTimer {
    #[verifier::type_invariant]
    closed spec fn type_inv(self) -> bool {
        self.fps >= 1
    }

    /// A timer for the given target frame rate, with no frame committed
    /// yet.
    pub fn new(fps: u8) -> (t: FrameTimer)
        requires
            fps >= 1,
        ensures
            t@ == (FrameTimerView { fps: fps as int, time_since_last_frame: 0 }),
    {
        FrameTimer { fps, time_since_last_frame: 0 }
    }

    /// The time elapsed since the last committed frame, given the clock's
    /// current reading in microseconds.
    pub fn get_frame_time(&self, now_micros: u64) -> (r: u64)
        ensures
            r == spec_frame_time(self@.time_since_last_frame, now_micros as int),
    {
        if now_micros >= self.time_since_last_frame {
            now_micros - self.time_since_last_frame
        } else {
            0
        }
    }

    /// The target frame interval in microseconds.
    pub fn get_minimum_frame_time(&self) -> (r: u64)
        ensures
            r == spec_minimum_frame_time(self@.fps),
    {
        proof {
            use_type_invariant(self);
        }
        MICROS_PER_SECOND / (self.fps as u64)
    }

    /// Whether a frame is due: the elapsed time strictly exceeds the target
    /// interval.
    pub fn is_frame_time_right(&self, now_micros: u64) -> (r: bool)
        ensures
            r == (spec_frame_time(self@.time_since_last_frame, now_micros as int)
                > spec_minimum_frame_time(self@.fps)),
    {
        let frame_time: u64 = self.get_frame_time(now_micros);
        frame_time > self.get_minimum_frame_time()
    }

    /// How long the host should sleep before the next frame is due: the
    /// remaining part of the target interval, and nothing when the frame is
    /// already due.
    pub fn time_to_sleep_micros(&self, now_micros: u64) -> (r: u64)
        ensures
            r == (if spec_frame_time(self@.time_since_last_frame, now_micros as int)
                >= spec_minimum_frame_time(self@.fps) {
                0int
            } else {
                spec_minimum_frame_time(self@.fps) - spec_frame_time(
                    self@.time_since_last_frame,
                    now_micros as int,
                )
            }),
    {
        let frame_time: u64 = self.get_frame_time(now_micros);
        let minimum: u64 = self.get_minimum_frame_time();
        if frame_time >= minimum {
            0
        } else {
            minimum - frame_time
        }
    }

    /// Record that a frame was committed at the given clock reading.
    pub fn record_frame(&mut self, now_micros: u64)
        ensures
            final(self)@ == (FrameTimerView {
                fps: old(self)@.fps,
                time_since_last_frame: now_micros as int,
            }),
    {
        proof {
            use_type_invariant(&*self);
        }
        self.time_since_last_frame = now_micros;
    }
}

} // verus!
