//! The rules of a small dungeon crawler, kept apart from the engine that draws it:
//! which scene follows which, how the loading bar advances, where the floor of a
//! room lies, and how a run in classic mode begins.

pub mod caption;
pub mod classic_mode;
pub mod ground;
pub mod loading;
pub mod scene;
