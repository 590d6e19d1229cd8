use vstd::prelude::*;

use crate::animation::ANIMATION_PERIOD_MS;
use crate::animation::Animator;
use crate::animation::spec_select_frame;
use crate::input::InputSnapshot;
use crate::player::Player;
use crate::player::spec_tick;
use crate::player::tick_fits;

verus! {

/// The mode of the game session: the start menu or a running play
/// session.
#[derive(Clone, Copy, PartialEq, Eq, Structural, Debug)]
pub enum GameMode {
    Menu,
    Playing,
}

/// The whole game world: the session mode with its score bookkeeping,
/// and the presence of the mode-dependent entities.
///
/// The menu UI subtree exists exactly while in `Menu`; the player (with
/// its animator) and the platform exist exactly while in `Playing`.
/// The camera is spawned once at startup and is not modeled here.
pub struct GameWorld {
    pub mode: GameMode,
    /// Horizontal distance reached in the last play session.
    pub score: i64,
    /// Largest score of any session this run.
    pub high_score: i64,
    /// The player entity, present only while playing.
    pub player: Option<Player>,
    /// The player's animated sprite, present only while playing.
    pub animator: Option<Animator>,
    /// The static platform, present only while playing.
    pub platform_present: bool,
    /// The menu UI subtree, present only while in the menu.
    pub menu_present: bool,
}

impl GameWorld {
    /// Well-formedness: the mode-dependent entities exist exactly in
    /// their mode, and the animator is ready to be advanced.
    pub open spec fn wf(self) -> bool {
        &&& (self.mode is Playing <==> self.player is Some)
        &&& (self.mode is Playing <==> self.animator is Some)
        &&& (self.mode is Playing <==> self.platform_present)
        &&& (self.mode is Menu <==> self.menu_present)
        &&& (self.animator matches Some(a) ==> a.wf())
    }

    /// The world after entering `Playing` from the menu: the menu UI
    /// is despawned, and the player, its animator over a sprite sheet
    /// of `frame_count` tiles, and the platform are spawned. Scores
    /// carry over unchanged.
    pub open spec fn spec_start(self, frame_count: usize) -> GameWorld {
        GameWorld {
            mode: GameMode::Playing,
            score: self.score,
            high_score: self.high_score,
            player: Some(
                Player {
                    position: (crate::player::Vec2 { x: 0, y: 0 }),
                    velocity: (crate::player::Vec2 { x: 0, y: 20 }),
                    state: crate::player::PlayerState::Gliding,
                    direction: crate::player::Direction::Right,
                },
            ),
            animator: Some(
                Animator {
                    timer: (crate::animation::AnimationTimer { elapsed_ms: 0 }),
                    frame: 0,
                    mirrored: false,
                    frame_count,
                },
            ),
            platform_present: true,
            menu_present: false,
        }
    }

    /// The world after ending a play session: the score is overwritten
    /// with the player's horizontal position, the high score becomes
    /// the larger of itself and the new score, the playing entities
    /// are despawned and the menu UI is spawned again.
    pub open spec fn spec_end(self) -> GameWorld {
        let reached: i64 = self.player->0.position.x;
        GameWorld {
            mode: GameMode::Menu,
            score: reached,
            high_score: if self.high_score >= reached {
                self.high_score
            } else {
                reached
            },
            player: None,
            animator: None,
            platform_present: false,
            menu_present: true,
        }
    }

    /// The world as it exists at application start: in the menu, with
    /// both scores at zero and no playing entity spawned.
    pub fn new() -> (w: GameWorld)
        ensures
            w.wf(),
            w.mode is Menu,
            w.score == 0,
            w.high_score == 0,
            w.player is None,
            w.animator is None,
            !w.platform_present,
            w.menu_present,
    {
        GameWorld {
            mode: GameMode::Menu,
            score: 0,
            high_score: 0,
            player: None,
            animator: None,
            platform_present: false,
            menu_present: true,
        }
    }

    /// Menu → Playing transition, triggered by a click on the start
    /// control: despawn the menu UI and spawn the playing entities.
    /// `frame_count` is the tile count of the loaded player sprite
    /// sheet.
    pub fn start_playing(&mut self, frame_count: usize)
        requires
            old(self).wf(),
            old(self).mode is Menu,
        ensures
            *final(self) == old(self).spec_start(frame_count),
            final(self).wf(),
    {
        self.mode = GameMode::Playing;
        self.menu_present = false;
        self.player = Some(Player::new());
        self.animator = Some(Animator::new(frame_count));
        self.platform_present = true;
    }

    /// Playing → Menu transition, triggered by the end-game event: the
    /// session's score is captured from the player's horizontal
    /// position, the high score is raised to it if it is larger, the
    /// playing entities are despawned and the menu UI returns.
    pub fn end_playing(&mut self)
        requires
            old(self).wf(),
            old(self).mode is Playing,
        ensures
            *final(self) == old(self).spec_end(),
            final(self).wf(),
            final(self).score == old(self).player->0.position.x,
            final(self).high_score == (if old(self).high_score >= final(self).score {
                old(self).high_score
            } else {
                final(self).score
            }),
    {
        let reached: i64 = match &self.player {
            Some(p) => p.position.x,
            // unreachable: a playing world holds a player
            None => 0,
        };
        self.score = reached;
        if reached > self.high_score {
            self.high_score = reached;
        }
        self.mode = GameMode::Menu;
        self.player = None;
        self.animator = None;
        self.platform_present = false;
        self.menu_present = true;
    }

    /// One simulation tick of a running play session, in the fixed
    /// documented order: the player integrates this tick's input, then
    /// the animation pass advances its timer by the elapsed real time
    /// and reselects the frame if the timer fired.
    pub fn tick(&mut self, input: InputSnapshot, delta_ms: u64) -> (fired: bool)
        requires
            old(self).wf(),
            old(self).mode is Playing,
            tick_fits(old(self).player->0@, input),
            delta_ms <= u64::MAX - ANIMATION_PERIOD_MS,
        ensures
            final(self).wf(),
            final(self).mode is Playing,
            final(self).score == old(self).score,
            final(self).high_score == old(self).high_score,
            final(self).platform_present == old(self).platform_present,
            final(self).menu_present == old(self).menu_present,
            final(self).player is Some,
            final(self).animator is Some,
            final(self).player->0@ == spec_tick(old(self).player->0@, input),
            ({
                let p1 = spec_tick(old(self).player->0@, input);
                let a0 = old(self).animator->0;
                let a1 = final(self).animator->0;
                &&& a1.frame_count == a0.frame_count
                &&& fired == (a0.timer.elapsed_ms + delta_ms >= ANIMATION_PERIOD_MS)
                &&& a1.timer.elapsed_ms == (a0.timer.elapsed_ms + delta_ms) % (
                ANIMATION_PERIOD_MS as int)
                &&& (fired ==> a1.frame == spec_select_frame(
                    p1.state,
                    a0.frame as int,
                    a0.frame_count as int,
                ))
                &&& (fired ==> a1.mirrored == (p1.direction is Right))
                &&& (!fired ==> a1.frame == a0.frame && a1.mirrored == a0.mirrored)
            }),
    {
        let (state, direction) = match &mut self.player {
            Some(p) => {
                p.tick(input);
                (p.state, p.direction)
            },
            // unreachable: a playing world holds a player
            None => (crate::player::PlayerState::Gliding, crate::player::Direction::Right),
        };
        let fired = match &mut self.animator {
            Some(a) => a.animate(state, direction, delta_ms),
            // unreachable: a playing world holds an animator
            None => false,
        };
        fired
    }
}

/// A full menu → playing → menu cycle: right after the start
/// transition the playing entities (player, animator, platform) are
/// present and the menu UI subtree is absent; right after the end
/// transition the playing entities are absent and the menu UI is
/// present again.
pub proof fn lemma_session_cycle(w: GameWorld, frame_count: usize)
    requires
        w.wf(),
        w.mode is Menu,
    ensures
        ({
            let playing = w.spec_start(frame_count);
            let back = playing.spec_end();
            &&& playing.mode is Playing
            &&& playing.player is Some
            &&& playing.animator is Some
            &&& playing.platform_present
            &&& !playing.menu_present
            &&& back.mode is Menu
            &&& back.player is None
            &&& back.animator is None
            &&& !back.platform_present
            &&& back.menu_present
        }),
{
}

} // verus!
