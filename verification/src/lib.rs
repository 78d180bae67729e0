//! A minimal screen-based game shell: a render/update/input loop model that
//! delegates to one active screen at a time, a screen registry that performs
//! keyed transitions between screens, and a playable screen holding a "Hero"
//! rectangle that moves under key-held velocity with axis clamping.
//!
//! All geometry is held in exact fixed-point units (see [`geom`]), so every
//! rule of the shell — velocity accumulation, displacement clamping, screen
//! transitions — is stated and proved precisely. The window, graphics context
//! and asset loading are outside collaborators: callers feed plain input
//! events and timesteps in, and receive plain scene descriptions back.

pub mod game;
pub mod geom;
pub mod input;
pub mod screens;
