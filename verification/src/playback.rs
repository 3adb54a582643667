//! The playback clock: time-driven frame resolution for a clip.
//!
//! The clock accumulates elapsed milliseconds for the active clip.  A
//! looping clip shows frame `floor(elapsed * fps / 1000) mod count`; a
//! play-once clip clamps to the last frame and reports completion once
//! `floor(elapsed * fps / 1000)` reaches the frame count.

use vstd::prelude::*;

use crate::animation::{LiegeAnimation, PlayMode};

verus! {

/// Accumulated elapsed time saturates here (about 31 years), keeping
/// every product with a clip rate inside `u64`.
pub const ELAPSED_CAP: u64 = 1_000_000_000_000;

/// How many whole frames have gone by at `elapsed_ms` under `fps`.
pub open spec fn spec_frames_elapsed(elapsed_ms: u64, fps: u32) -> int {
    ((elapsed_ms as int) * (fps as int)) / 1000
}

/// Frame index at `elapsed_ms` for a clip with the given rate, frame
/// count and mode.
pub open spec fn spec_frame_index_at(elapsed_ms: u64, fps: u32, count: int, mode: PlayMode) -> int {
    let f = spec_frames_elapsed(elapsed_ms, fps);
    match mode {
        PlayMode::Loop => f % count,
        PlayMode::Once => if f >= count {
            count - 1
        } else {
            f
        },
    }
}

/// Completion at `elapsed_ms` for a clip with the given rate, frame
/// count and mode.
pub open spec fn spec_ended_at(elapsed_ms: u64, fps: u32, count: int, mode: PlayMode) -> bool {
    mode is Once && spec_frames_elapsed(elapsed_ms, fps) >= count
}

/// The clock value after one tick of `delta_ms` real time.  Negative
/// deltas count as zero; the accumulator saturates at `ELAPSED_CAP`.
pub open spec fn spec_advanced(elapsed_ms: u64, delta_ms: i64) -> int {
    if delta_ms <= 0 {
        elapsed_ms as int
    } else if elapsed_ms + delta_ms >= ELAPSED_CAP {
        ELAPSED_CAP as int
    } else {
        elapsed_ms + delta_ms
    }
}

/// The frame index the clock resolves for `clip` at `elapsed_ms`.
pub open spec fn spec_frame_index(elapsed_ms: u64, clip: LiegeAnimation) -> int {
    spec_frame_index_at(elapsed_ms, clip.fps, clip.frames@.len() as int, clip.mode)
}

/// Whether `clip` has completed at `elapsed_ms`.  A looping clip never
/// completes; a play-once clip completes once the last frame has been
/// held a full frame period.
pub open spec fn spec_ended(elapsed_ms: u64, clip: LiegeAnimation) -> bool {
    spec_ended_at(elapsed_ms, clip.fps, clip.frames@.len() as int, clip.mode)
}

/// Elapsed-time accumulator for an entity's active clip.
#[derive(Clone, Copy, Debug, PartialEq, Eq, Structural)]
pub struct PlaybackClock {
    pub elapsed_ms: u64,
}

impl PlaybackClock {
    pub open spec fn wf(self) -> bool {
        self.elapsed_ms <= ELAPSED_CAP
    }

    /// A clock at the start of a clip.
    pub fn new() -> (r: PlaybackClock)
        ensures
            r.elapsed_ms == 0,
    {
        PlaybackClock { elapsed_ms: 0 }
    }

    /// Zeroes the clock; used whenever the active label changes.
    pub fn reset(&mut self)
        ensures
            final (self).elapsed_ms == 0,
    {
        self.elapsed_ms = 0;
    }

    /// Adds one tick's real delta time.  A non-positive delta never
    /// moves the clock backward: it counts as zero.
    pub fn update(&mut self, delta_ms: i64)
        requires
            old(self).wf(),
        ensures
            final (self).elapsed_ms == spec_advanced(old(self).elapsed_ms, delta_ms),
            final (self).wf(),
    {
        if delta_ms > 0 {
            let d = delta_ms as u64;
            if d >= ELAPSED_CAP - self.elapsed_ms {
                self.elapsed_ms = ELAPSED_CAP;
            } else {
                self.elapsed_ms = self.elapsed_ms + d;
            }
        }
    }

    /// The current frame index of `clip`, always within its frames.
    pub fn frame_index(&self, clip: &LiegeAnimation) -> (r: usize)
        requires
            self.wf(),
            clip.wf(),
        ensures
            r == spec_frame_index(self.elapsed_ms, *clip),
            r < clip.frames@.len(),
    {
        proof {
            assert((self.elapsed_ms as int) * (clip.fps as int) <= (ELAPSED_CAP as int)
                * 1000) by (nonlinear_arith)
                requires
                    self.elapsed_ms <= ELAPSED_CAP,
                    clip.fps <= 1000,
            ;
        }
        let total: u64 = self.elapsed_ms * (clip.fps as u64);
        let f: u64 = total / 1000;
        let n: usize = clip.frames.len();
        match clip.mode {
            PlayMode::Loop => (f % (n as u64)) as usize,
            PlayMode::Once => {
                if f >= n as u64 {
                    n - 1
                } else {
                    f as usize
                }
            },
        }
    }

    /// Whether `clip` has completed.
    pub fn is_ended(&self, clip: &LiegeAnimation) -> (r: bool)
        requires
            self.wf(),
            clip.wf(),
        ensures
            r == spec_ended(self.elapsed_ms, *clip),
    {
        proof {
            assert((self.elapsed_ms as int) * (clip.fps as int) <= (ELAPSED_CAP as int)
                * 1000) by (nonlinear_arith)
                requires
                    self.elapsed_ms <= ELAPSED_CAP,
                    clip.fps <= 1000,
            ;
        }
        let total: u64 = self.elapsed_ms * (clip.fps as u64);
        let f: u64 = total / 1000;
        match clip.mode {
            PlayMode::Loop => false,
            PlayMode::Once => f >= clip.frames.len() as u64,
        }
    }

    /// One playback step: accumulate the tick's delta, then resolve the
    /// frame index and completion of `clip`.
    pub fn advance(&mut self, clip: &LiegeAnimation, delta_ms: i64) -> (r: (usize, bool))
        requires
            old(self).wf(),
            clip.wf(),
        ensures
            final (self).elapsed_ms == spec_advanced(old(self).elapsed_ms, delta_ms),
            final (self).wf(),
            r.0 == spec_frame_index(final (self).elapsed_ms, *clip),
            r.0 < clip.frames@.len(),
            r.1 == spec_ended(final (self).elapsed_ms, *clip),
    {
        self.update(delta_ms);
        let idx = self.frame_index(clip);
        let ended = self.is_ended(clip);
        (idx, ended)
    }
}

} // verus!
