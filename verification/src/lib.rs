//! Perception-and-decision core of an auto-player for a branch-dodging
//! arcade game: window geometry, match acceptance, the obstacle decision
//! cascade, input plans and the start-up / running state machine.

pub mod decision;
pub mod frame;
pub mod game_loop;
pub mod geometry;
pub mod input;
pub mod matching;
pub mod templates;
pub mod window;
