use vstd::prelude::*;

use crate::player::Direction;
use crate::player::PlayerState;

verus! {

/// Period of the repeating animation timer, in milliseconds: frame
/// advancement is gated to once per 0.1 s of elapsed time.
pub const ANIMATION_PERIOD_MS: u64 = 100;

/// Index of the fixed gliding frame, which is also the lower bound of
/// the flapping cycle in the sprite sheet.
pub const GLIDE_FRAME: usize = 3;

/// Repeating countdown that gates frame advancement. It accumulates
/// elapsed milliseconds and fires whenever a full period has passed,
/// keeping the remainder.
#[derive(Clone, Copy, PartialEq, Eq, Structural, Debug)]
pub struct AnimationTimer {
    /// Milliseconds accumulated since the timer last fired.
    pub elapsed_ms: u64,
}

impl AnimationTimer {
    /// A timer between firings holds strictly less than one period.
    pub open spec fn wf(self) -> bool {
        self.elapsed_ms < ANIMATION_PERIOD_MS
    }

    /// A fresh timer, as attached to the player sprite at spawn.
    pub fn new() -> (t: AnimationTimer)
        ensures
            t.wf(),
            t.elapsed_ms == 0,
    {
        AnimationTimer { elapsed_ms: 0 }
    }

    /// Advance the timer by the elapsed real time of this tick. The
    /// timer fires exactly when a full period has accumulated; being a
    /// repeating timer it then keeps the remainder beyond the period.
    pub fn advance(&mut self, delta_ms: u64) -> (fired: bool)
        requires
            old(self).wf(),
            delta_ms <= u64::MAX - ANIMATION_PERIOD_MS,
        ensures
            final(self).wf(),
            fired == (old(self).elapsed_ms + delta_ms >= ANIMATION_PERIOD_MS),
            final(self).elapsed_ms == (old(self).elapsed_ms + delta_ms) % (
            ANIMATION_PERIOD_MS as int),
    {
        let total: u64 = self.elapsed_ms + delta_ms;
        self.elapsed_ms = total % ANIMATION_PERIOD_MS;
        total >= ANIMATION_PERIOD_MS
    }
}

/// The sprite frame shown after a timer firing, given the behavior
/// state and the frame shown before. `frame_count` is the number of
/// tiles in the loaded sprite sheet.
///
/// Gliding pins the glide frame; flapping cycles through
/// `[GLIDE_FRAME, frame_count)`, wrapping to the glide frame at the
/// top and clamping up to it from below; walking cycles through
/// `[0, GLIDE_FRAME)`; idle and pecking pin frame zero.
pub open spec fn spec_select_frame(state: PlayerState, index: int, frame_count: int) -> int {
    match state {
        PlayerState::Gliding => GLIDE_FRAME as int,
        PlayerState::Flapping => if index + 1 >= frame_count {
            GLIDE_FRAME as int
        } else if index + 1 < GLIDE_FRAME as int {
            GLIDE_FRAME as int
        } else {
            index + 1
        },
        PlayerState::Idle => 0,
        PlayerState::Walking => if index + 1 >= GLIDE_FRAME as int {
            0
        } else {
            index + 1
        },
        PlayerState::Pecking => 0,
    }
}

/// The frame shown after `n` timer firings under a constant state.
pub open spec fn spec_frames(state: PlayerState, index: int, frame_count: int, n: nat) -> int
    decreases n,
{
    if n == 0 {
        index
    } else {
        spec_frames(state, spec_select_frame(state, index, frame_count), frame_count, (n - 1) as nat)
    }
}

/// Under sustained flapping every fired frame lies in
/// `[GLIDE_FRAME, frame_count)`, whatever frame the sprite started on;
/// under sustained gliding every fired frame is exactly the glide
/// frame.
pub proof fn lemma_frame_range(state: PlayerState, index: int, frame_count: int, n: nat)
    requires
        frame_count > GLIDE_FRAME as int,
        n >= 1,
    ensures
        state is Flapping ==> GLIDE_FRAME as int <= spec_frames(state, index, frame_count, n)
            < frame_count,
        state is Gliding ==> spec_frames(state, index, frame_count, n) == GLIDE_FRAME as int,
    decreases n,
{
    reveal_with_fuel(spec_frames, 2);
    if n > 1 {
        lemma_frame_range(state, spec_select_frame(state, index, frame_count), frame_count, (n
        - 1) as nat);
    }
}

/// Select the next sprite frame on a timer firing.
pub fn select_frame(state: PlayerState, index: usize, frame_count: usize) -> (r: usize)
    requires
        index < usize::MAX,
    ensures
        r == spec_select_frame(state, index as int, frame_count as int),
        r < usize::MAX,
        state is Gliding ==> r == GLIDE_FRAME,
        state is Flapping && frame_count > GLIDE_FRAME ==> GLIDE_FRAME <= r < frame_count,
{
    match state {
        PlayerState::Gliding => GLIDE_FRAME,
        PlayerState::Flapping => {
            let mut next: usize = index + 1;
            if next >= frame_count {
                next = GLIDE_FRAME;
            }
            if next < GLIDE_FRAME {
                next = GLIDE_FRAME;
            }
            next
        },
        PlayerState::Idle => 0,
        PlayerState::Walking => {
            let next: usize = index + 1;
            if next >= GLIDE_FRAME {
                0
            } else {
                next
            }
        },
        PlayerState::Pecking => 0,
    }
}

/// The animated sprite of the player: the gating timer, the frame
/// currently shown, and whether the sprite is drawn mirrored.
///
/// The mirroring convention is inherited from the sprite sheet: facing
/// left shows the sprite as drawn, facing right shows it mirrored.
#[derive(Clone, Copy, PartialEq, Eq, Structural, Debug)]
pub struct Animator {
    pub timer: AnimationTimer,
    /// Index of the sprite-sheet tile currently shown.
    pub frame: usize,
    /// True when the sprite is drawn flipped on the horizontal axis.
    pub mirrored: bool,
    /// Number of tiles in the sprite sheet, fixed at setup.
    pub frame_count: usize,
}

impl Animator {
    pub open spec fn wf(self) -> bool {
        &&& self.timer.wf()
        &&& self.frame < usize::MAX
    }

    /// A fresh animator over a sprite sheet of `frame_count` tiles,
    /// showing the first tile unmirrored.
    pub fn new(frame_count: usize) -> (a: Animator)
        ensures
            a.wf(),
            a.frame == 0,
            a.mirrored == false,
            a.frame_count == frame_count,
            a.timer.elapsed_ms == 0,
    {
        Animator { timer: AnimationTimer::new(), frame: 0, mirrored: false, frame_count }
    }

    /// One animation pass: advance the timer by the elapsed real time
    /// and, only if it fires, recompute the mirroring from the facing
    /// and the frame from the behavior state.
    pub fn animate(&mut self, state: PlayerState, direction: Direction, delta_ms: u64) -> (fired:
        bool)
        requires
            old(self).wf(),
            delta_ms <= u64::MAX - ANIMATION_PERIOD_MS,
        ensures
            final(self).wf(),
            final(self).frame_count == old(self).frame_count,
            fired == (old(self).timer.elapsed_ms + delta_ms >= ANIMATION_PERIOD_MS),
            final(self).timer.elapsed_ms == (old(self).timer.elapsed_ms + delta_ms) % (
            ANIMATION_PERIOD_MS as int),
            fired ==> final(self).frame == spec_select_frame(
                state,
                old(self).frame as int,
                old(self).frame_count as int,
            ),
            fired ==> final(self).mirrored == (direction is Right),
            !fired ==> final(self).frame == old(self).frame && final(self).mirrored == old(
                self,
            ).mirrored,
    {
        let fired = self.timer.advance(delta_ms);
        if fired {
            self.mirrored = match direction {
                Direction::Left => false,
                Direction::Right => true,
            };
            self.frame = select_frame(state, self.frame, self.frame_count);
        }
        fired
    }
}

} // verus!
