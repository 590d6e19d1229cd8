//! Core simulation of a small side-scrolling "flappy" game.
//!
//! The library models the player's integer kinematics (explicit Euler
//! integration of input impulses, gravity and air resistance), the
//! behavior state machine that drives sprite selection, the animation
//! frame selector with its repeating timer, and the menu/playing
//! session lifecycle with score and high-score bookkeeping.
//!
//! Rendering, asset loading, windowing and keyboard plumbing are left
//! to the host; the library exposes plain integer state for them to
//! draw from.

pub mod animation;
pub mod input;
pub mod player;
pub mod session;
