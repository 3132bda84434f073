//! Ground-assault coordination engine for an arcade anti-aircraft game.
//!
//! Aircraft drop paratroopers; troopers fall, deploy parachutes, land, and —
//! once enough have landed on one side of the central gun — organize into a
//! climbing pyramid (Base, Climber, SecondBase, Sapper) that advances on the
//! gun and destroys it.  This crate holds the coordination core alone: the
//! per-trooper lifecycle state machine, the squad-formation rule that promotes
//! landed troopers into the four pyramid roles, the shared assault-phase state
//! machine driven by contact events, and the gun-destruction listener.
//!
//! Rendering, audio, input and the physics simulation itself are outside
//! collaborators.  The core consumes contact events and positions, and issues
//! velocity commands, body-property changes and despawn requests back to the
//! physics layer; the driver around the library performs them.

pub mod assault;
pub mod config;
pub mod engine;
pub mod events;
pub mod formation;
pub mod geom;
pub mod gun;
pub mod paratrooper;
mod rng;
