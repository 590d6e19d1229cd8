use vstd::prelude::*;

use crate::input::InputSnapshot;

verus! {

/// Upward velocity gained per tick while the flap key is held.
pub const FLAP_Y_VELOCITY: i64 = 10;

/// Horizontal velocity gained per tick while a directional key is held.
pub const FLAP_X_VELOCITY: i64 = 2;

/// Downward velocity gained every tick, unconditionally.
pub const GRAVITY_FACTOR: i64 = 6;

/// Amount by which air resistance moves the horizontal velocity toward
/// zero each tick.
pub const RESISTANCE_FACTOR: i64 = 1;

/// Integer 2D vector on the world grid.
#[derive(Clone, Copy, PartialEq, Eq, Structural, Debug)]
pub struct Vec2 {
    pub x: i64,
    pub y: i64,
}

/// Discrete behavior state of the player, used to drive animation.
///
/// Only `Flapping` and `Gliding` are ever entered by the systems here;
/// the others are kept as reachable-by-extension variants.
#[derive(Clone, Copy, PartialEq, Eq, Structural, Debug)]
pub enum PlayerState {
    Idle,
    Flapping,
    Gliding,
    Walking,
    Pecking,
}

/// Facing direction of the player sprite.
#[derive(Clone, Copy, PartialEq, Eq, Structural, Debug)]
pub enum Direction {
    Left,
    Right,
}

/// The player entity: integer kinematics plus the behavior state that
/// the animation frame selector reads.
#[derive(Clone, Copy, PartialEq, Eq, Structural, Debug)]
pub struct Player {
    /// World-grid position; the render transform is derived from it.
    pub position: Vec2,
    /// Velocity in grid units per tick.
    pub velocity: Vec2,
    pub state: PlayerState,
    pub direction: Direction,
}

/// Mathematical model of a player: the same state over unbounded
/// integers, which the per-tick contracts and the lemmas speak of.
pub ghost struct PlayerModel {
    pub px: int,
    pub py: int,
    pub vx: int,
    pub vy: int,
    pub state: PlayerState,
    pub direction: Direction,
}

impl View for Player {
    type V = PlayerModel;

    open spec fn view(&self) -> PlayerModel {
        PlayerModel {
            px: self.position.x as int,
            py: self.position.y as int,
            vx: self.velocity.x as int,
            vy: self.velocity.y as int,
            state: self.state,
            direction: self.direction,
        }
    }
}

/// Vertical velocity after the input pass: a held flap key adds
/// `FLAP_Y_VELOCITY`.
pub open spec fn spec_impulse_y(vy: int, up: bool) -> int {
    vy + if up {
        FLAP_Y_VELOCITY as int
    } else {
        0
    }
}

/// Horizontal velocity after the input pass: left and right are
/// independent, so holding both cancels out.
pub open spec fn spec_impulse_x(vx: int, left: bool, right: bool) -> int {
    vx + (if left {
        -(FLAP_X_VELOCITY as int)
    } else {
        0
    }) + (if right {
        FLAP_X_VELOCITY as int
    } else {
        0
    })
}

/// Air resistance: move the horizontal velocity toward zero by
/// `RESISTANCE_FACTOR`, leaving an exact zero alone.
pub open spec fn spec_resist(vx: int) -> int {
    if vx > 0 {
        vx - RESISTANCE_FACTOR as int
    } else if vx < 0 {
        vx + RESISTANCE_FACTOR as int
    } else {
        vx
    }
}

/// Behavior state after one tick: any held key means `Flapping`; with
/// no key held the state falls back to `Gliding` unless it is one of
/// the sticky states (`Idle`, `Walking`, `Pecking`), which only some
/// other system may change.
pub open spec fn spec_next_state(state: PlayerState, input: InputSnapshot) -> PlayerState {
    if input.any_held() {
        PlayerState::Flapping
    } else if state is Idle || state is Walking || state is Pecking {
        state
    } else {
        PlayerState::Gliding
    }
}

/// Facing after one tick: a held "right" wins over a held "left", as
/// the right-key branch runs last; with neither held the facing keeps
/// its previous value.
pub open spec fn spec_next_direction(direction: Direction, input: InputSnapshot) -> Direction {
    if input.right {
        Direction::Right
    } else if input.left {
        Direction::Left
    } else {
        direction
    }
}

/// One full simulation tick over the mathematical model, in the fixed
/// documented order: input impulses, position integration, physics
/// (gravity then resistance), behavior update.
pub open spec fn spec_tick(p: PlayerModel, input: InputSnapshot) -> PlayerModel {
    let vy1: int = spec_impulse_y(p.vy, input.up);
    let vx1: int = spec_impulse_x(p.vx, input.left, input.right);
    PlayerModel {
        px: p.px + vx1,
        py: p.py + vy1,
        vx: spec_resist(vx1),
        vy: vy1 - GRAVITY_FACTOR as int,
        state: spec_next_state(p.state, input),
        direction: spec_next_direction(p.direction, input),
    }
}

/// All intermediate values of one tick stay within `i64`: the only
/// failure mode of the integer integrator is overflow, and a tick is
/// allowed exactly when none of its sums leaves the machine range.
pub open spec fn tick_fits(p: PlayerModel, input: InputSnapshot) -> bool {
    let vy1: int = spec_impulse_y(p.vy, input.up);
    let vx1: int = spec_impulse_x(p.vx, input.left, input.right);
    &&& vy1 <= i64::MAX as int
    &&& i64::MIN as int <= vy1 - GRAVITY_FACTOR as int
    &&& (input.left ==> i64::MIN as int <= p.vx - FLAP_X_VELOCITY as int)
    &&& i64::MIN as int <= vx1 <= i64::MAX as int
    &&& i64::MIN as int <= p.px + vx1 <= i64::MAX as int
    &&& i64::MIN as int <= p.py + vy1 <= i64::MAX as int
}

/// The model after `n` full ticks under a constant input snapshot.
pub open spec fn spec_ticks(p: PlayerModel, input: InputSnapshot, n: nat) -> PlayerModel
    decreases n,
{
    if n == 0 {
        p
    } else {
        spec_ticks(spec_tick(p, input), input, (n - 1) as nat)
    }
}

/// With no key held, a flapping player glides after one tick and its
/// motion follows pure gravity and resistance decay: gravity lowers
/// the vertical velocity, resistance moves the horizontal velocity one
/// step toward zero, and the position advances by the old velocity.
pub proof fn lemma_released_tick_glides(p: PlayerModel)
    requires
        p.state is Flapping,
    ensures
        ({
            let q = spec_tick(p, (InputSnapshot { up: false, left: false, right: false }));
            &&& q.state is Gliding
            &&& q.vy == p.vy - GRAVITY_FACTOR as int
            &&& q.vx == spec_resist(p.vx)
            &&& q.px == p.px + p.vx
            &&& q.py == p.py + p.vy
            &&& q.direction == p.direction
        }),
{
}

/// Holding only the flap key for `n` ticks raises the vertical
/// velocity by the net gain `FLAP_Y_VELOCITY - GRAVITY_FACTOR` per
/// tick: starting from `vy`, after `n` ticks it is exactly `vy + 4 n`.
pub proof fn lemma_sustained_flap_velocity(p: PlayerModel, n: nat)
    ensures
        spec_ticks(p, (InputSnapshot { up: true, left: false, right: false }), n).vy == p.vy + n
            * ((FLAP_Y_VELOCITY - GRAVITY_FACTOR) as int),
    decreases n,
{
    let input = InputSnapshot { up: true, left: false, right: false };
    if n > 0 {
        lemma_sustained_flap_velocity(spec_tick(p, input), (n - 1) as nat);
    }
}

/// With no horizontal key held, a horizontal velocity of zero is a
/// fixed point: resistance never pushes it past zero.
pub proof fn lemma_zero_vx_is_stable(p: PlayerModel, input: InputSnapshot, n: nat)
    requires
        p.vx == 0,
        !input.left,
        !input.right,
    ensures
        spec_ticks(p, input, n).vx == 0,
    decreases n,
{
    if n > 0 {
        lemma_zero_vx_is_stable(spec_tick(p, input), input, (n - 1) as nat);
    }
}

/// Resistance never overshoots zero: starting from a horizontal
/// velocity of one with no horizontal key held, one tick brings it to
/// exactly zero and every later tick keeps it there.
pub proof fn lemma_resistance_no_overshoot(p: PlayerModel, input: InputSnapshot, n: nat)
    requires
        p.vx == 1,
        !input.left,
        !input.right,
        n >= 1,
    ensures
        spec_ticks(p, input, n).vx == 0,
    decreases n,
{
    lemma_zero_vx_is_stable(spec_tick(p, input), input, (n - 1) as nat);
}

impl Player {
    /// The player as spawned at Playing-mode entry: at the origin,
    /// with an initial upward velocity, gliding and facing right.
    pub open spec fn spec_initial() -> PlayerModel {
        PlayerModel {
            px: 0,
            py: 0,
            vx: 0,
            vy: 20,
            state: PlayerState::Gliding,
            direction: Direction::Right,
        }
    }

    /// Spawn a fresh player for a new Playing session.
    pub fn new() -> (p: Player)
        ensures
            p@ == Player::spec_initial(),
    {
        Player {
            position: Vec2 { x: 0, y: 0 },
            velocity: Vec2 { x: 0, y: 20 },
            state: PlayerState::Gliding,
            direction: Direction::Right,
        }
    }

    /// Input pass of the motion integrator: apply the per-tick velocity
    /// impulses for each held key, in the order up, left, right.
    pub fn apply_flap_impulses(&mut self, input: InputSnapshot)
        requires
            input.up ==> old(self)@.vy + FLAP_Y_VELOCITY as int <= i64::MAX as int,
            input.left ==> i64::MIN as int <= old(self)@.vx - FLAP_X_VELOCITY as int,
            i64::MIN as int <= spec_impulse_x(old(self)@.vx, input.left, input.right) <= i64::MAX as int,
        ensures
            final(self)@.vy == spec_impulse_y(old(self)@.vy, input.up),
            final(self)@.vx == spec_impulse_x(old(self)@.vx, input.left, input.right),
            final(self).position == old(self).position,
            final(self).state == old(self).state,
            final(self).direction == old(self).direction,
    {
        if input.up {
            self.velocity.y = self.velocity.y + FLAP_Y_VELOCITY;
        }
        if input.left {
            self.velocity.x = self.velocity.x - FLAP_X_VELOCITY;
        }
        if input.right {
            self.velocity.x = self.velocity.x + FLAP_X_VELOCITY;
        }
    }

    /// Integration pass: accumulate the current velocity into the
    /// position, unconditionally, every tick.
    pub fn integrate(&mut self)
        requires
            i64::MIN as int <= old(self)@.px + old(self)@.vx <= i64::MAX as int,
            i64::MIN as int <= old(self)@.py + old(self)@.vy <= i64::MAX as int,
        ensures
            final(self)@.px == old(self)@.px + old(self)@.vx,
            final(self)@.py == old(self)@.py + old(self)@.vy,
            final(self).velocity == old(self).velocity,
            final(self).state == old(self).state,
            final(self).direction == old(self).direction,
    {
        self.position.x = self.position.x + self.velocity.x;
        self.position.y = self.position.y + self.velocity.y;
    }

    /// Physics pass: gravity pulls the vertical velocity down by
    /// `GRAVITY_FACTOR` every tick, and air resistance moves the
    /// horizontal velocity toward zero without overshooting it.
    pub fn apply_physics(&mut self)
        requires
            i64::MIN as int <= old(self)@.vy - GRAVITY_FACTOR as int,
        ensures
            final(self)@.vy == old(self)@.vy - GRAVITY_FACTOR as int,
            final(self)@.vx == spec_resist(old(self)@.vx),
            final(self).position == old(self).position,
            final(self).state == old(self).state,
            final(self).direction == old(self).direction,
    {
        self.velocity.y = self.velocity.y - GRAVITY_FACTOR;
        if self.velocity.x > 0 {
            self.velocity.x = self.velocity.x - RESISTANCE_FACTOR;
        } else if self.velocity.x < 0 {
            self.velocity.x = self.velocity.x + RESISTANCE_FACTOR;
        }
    }

    /// Behavior pass: recompute the state and facing from this tick's
    /// input snapshot, after the velocity changes.
    pub fn update_behavior(&mut self, input: InputSnapshot)
        ensures
            final(self).state == spec_next_state(old(self).state, input),
            final(self).direction == spec_next_direction(old(self).direction, input),
            final(self).position == old(self).position,
            final(self).velocity == old(self).velocity,
    {
        if input.up {
            self.state = PlayerState::Flapping;
        }
        if input.left {
            self.state = PlayerState::Flapping;
            self.direction = Direction::Left;
        }
        if input.right {
            self.state = PlayerState::Flapping;
            self.direction = Direction::Right;
        }
        if !input.up && !input.left && !input.right && self.state != PlayerState::Idle
            && self.state != PlayerState::Walking && self.state != PlayerState::Pecking {
            self.state = PlayerState::Gliding;
        }
    }

    /// One full simulation tick, in the fixed documented order: input
    /// impulses, position integration, physics, behavior update.
    pub fn tick(&mut self, input: InputSnapshot)
        requires
            tick_fits(old(self)@, input),
        ensures
            final(self)@ == spec_tick(old(self)@, input),
    {
        self.apply_flap_impulses(input);
        self.integrate();
        self.apply_physics();
        self.update_behavior(input);
    }
}

} // verus!
