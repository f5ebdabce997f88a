//! The launch highlight: a fading overlay on the tile that was activated.
//!
//! Time is a count of nanoseconds on a monotonic clock of the host's choice.
//! The highlight lasts a quarter of a second from the activation and fades
//! linearly: its strength is the share of that time which is still left.

use vstd::prelude::*;

verus! {

/// How long the highlight lasts, in nanoseconds.
pub const ANIMATION_NANOS: u64 = 250_000_000;

/// How long the host may wait before it repaints an idle launcher, in seconds.
pub const IDLE_REPAINT_SECONDS: u64 = 30;

/// A highlight that was started and has not been cleared.
#[derive(Clone, Copy, Debug, PartialEq, Eq, Structural)]
pub struct Animation {
    /// The entry that was activated.
    pub target_index: usize,
    /// When it was activated.
    pub started_at: u64,
}

/// What the renderer draws for a running highlight.
#[derive(Clone, Copy, Debug, PartialEq, Eq, Structural)]
pub struct AnimationProgress {
    /// The entry whose tile is highlighted.
    pub target_index: usize,
    /// The time left of the highlight. The strength of the overlay is this
    /// over `ANIMATION_NANOS`: one at the activation, falling to zero.
    pub remaining_nanos: u64,
}

/// How soon the launcher wants to be drawn again.
#[derive(Clone, Copy, Debug, PartialEq, Eq, Structural)]
pub enum RepaintUrgency {
    /// A highlight is fading: draw the next frame at once.
    Animating,
    /// Nothing moves: a repaint after `IDLE_REPAINT_SECONDS` will do.
    Idle,
}

impl Animation {
    /// The time since the activation, zero where the clock reads earlier
    /// than the activation.
    pub open spec fn spec_elapsed(&self, now: u64) -> u64 {
        if now >= self.started_at {
            (now - self.started_at) as u64
        } else {
            0
        }
    }

    /// The time since the activation, zero where the clock reads earlier
    /// than the activation.
    #[verifier::when_used_as_spec(spec_elapsed)]
    pub fn elapsed(&self, now: u64) -> (elapsed: u64)
        ensures
            elapsed == self.spec_elapsed(now),
    {
        if now >= self.started_at {
            now - self.started_at
        } else {
            0
        }
    }

    /// Whether the highlight is over at `now`.
    pub open spec fn spec_expired(&self, now: u64) -> bool {
        self.elapsed(now) >= ANIMATION_NANOS
    }

    /// Whether the highlight is over at `now`.
    #[verifier::when_used_as_spec(spec_expired)]
    pub fn expired(&self, now: u64) -> (expired: bool)
        ensures
            expired == self.spec_expired(now),
    {
        self.elapsed(now) >= ANIMATION_NANOS
    }

    /// What to draw at `now`: nothing once the highlight is over, and
    /// otherwise the target with the time that is left.
    pub open spec fn spec_progress(&self, now: u64) -> Option<AnimationProgress> {
        if self.expired(now) {
            None
        } else {
            Some(
                AnimationProgress {
                    target_index: self.target_index,
                    remaining_nanos: (ANIMATION_NANOS - self.elapsed(now)) as u64,
                },
            )
        }
    }

    /// What to draw at `now`: nothing once the highlight is over, and
    /// otherwise the target with the time that is left.
    #[verifier::when_used_as_spec(spec_progress)]
    pub fn progress(&self, now: u64) -> (progress: Option<AnimationProgress>)
        ensures
            progress == self.spec_progress(now),
            progress matches Some(p) ==> 0 < p.remaining_nanos <= ANIMATION_NANOS,
    {
        let elapsed = self.elapsed(now);
        if elapsed >= ANIMATION_NANOS {
            None
        } else {
            Some(
                AnimationProgress {
                    target_index: self.target_index,
                    remaining_nanos: ANIMATION_NANOS - elapsed,
                },
            )
        }
    }
}

} // verus!
