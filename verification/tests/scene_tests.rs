use dungeon_quest::classic_mode::{
    initiate_classic_mode, ClassicModeStart, PlayerDungeonStats, Position,
};
use dungeon_quest::scene::{Font, Language, SceneState};

#[test]
fn vietnamese_is_set_in_roboto() {
    assert_eq!(Language::VI.font(), Font::Roboto);
}

#[test]
fn english_is_set_in_fibberish() {
    assert_eq!(Language::EN.font(), Font::Fibberish);
}

#[test]
fn scenes_are_distinct() {
    assert_ne!(SceneState::LoadingScene, SceneState::MainMenuScene);
    assert_ne!(SceneState::MainMenuScene, SceneState::InGameClassicModeScene);
    assert_ne!(SceneState::LoadingScene, SceneState::InGameClassicModeScene);
}

#[test]
fn classic_mode_begins_in_the_start_room_of_the_first_floor() {
    let start = Position { row_index: 2, column_index: 3 };
    let begin = initiate_classic_mode(start);
    assert_eq!(
        begin,
        ClassicModeStart {
            player_dungeon_stats: PlayerDungeonStats {
                current_room_position: Position { row_index: 2, column_index: 3 },
                is_room_cleared: true,
                current_floor_index: 0,
            },
            scene: SceneState::InGameClassicModeScene,
        }
    );
}

#[test]
fn classic_mode_keeps_any_start_room() {
    for (row_index, column_index) in [(0usize, 0usize), (4, 1), (usize::MAX, usize::MAX)] {
        let begin = initiate_classic_mode(Position { row_index, column_index });
        assert_eq!(begin.player_dungeon_stats.current_room_position.row_index, row_index);
        assert_eq!(begin.player_dungeon_stats.current_room_position.column_index, column_index);
        assert!(begin.player_dungeon_stats.is_room_cleared);
        assert_eq!(begin.player_dungeon_stats.current_floor_index, 0);
        assert_eq!(begin.scene, SceneState::InGameClassicModeScene);
    }
}
