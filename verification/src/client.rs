//! The decisions of the tabletop client: its screens, when the camera may
//! move, and what it does with what other players send.

pub mod input;
pub mod online;
pub mod state;
