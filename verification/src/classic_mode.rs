//! The start of a run in classic mode: where the player stands when the dungeon
//! has just been made, and which scene shows it.

use vstd::prelude::*;
use crate::scene::SceneState;

verus! {

/// The place of a room on the map of a floor.
#[derive(Clone, Copy, Debug, PartialEq, Eq, Hash, Structural)]
pub struct Position {
    pub row_index: usize,
    pub column_index: usize,
}

/// Where the player is in the dungeon, and whether the way on is open.
#[derive(Clone, Copy, Debug, PartialEq, Eq, Structural)]
pub struct PlayerDungeonStats {
    /// The room the player is in.
    pub current_room_position: Position,
    /// Whether the room has been cleared, so that its doors are open.
    pub is_room_cleared: bool,
    /// The floor the player is on, counted from the first floor as 0.
    pub current_floor_index: usize,
}

/// The state in which a run in classic mode begins.
#[derive(Clone, Copy, Debug, PartialEq, Eq, Structural)]
pub struct ClassicModeStart {
    /// Where the player is when the run begins.
    pub player_dungeon_stats: PlayerDungeonStats,
    /// The scene that shows the run.
    pub scene: SceneState,
}

/// Begins a run in classic mode in a dungeon whose first floor starts in the
/// room at `start`: the player stands in that room, on the first floor, the room
/// counts as cleared, and the game goes to the classic-mode scene.
pub fn initiate_classic_mode(start: Position) -> (begin: ClassicModeStart)
    ensures
        begin == (ClassicModeStart {
            player_dungeon_stats: PlayerDungeonStats {
                current_room_position: start,
                is_room_cleared: true,
                current_floor_index: 0,
            },
            scene: SceneState::InGameClassicModeScene,
        }),
{
    ClassicModeStart {
        player_dungeon_stats: PlayerDungeonStats {
            current_room_position: start,
            is_room_cleared: true,
            current_floor_index: 0,
        },
        scene: SceneState::InGameClassicModeScene,
    }
}

} // verus!
