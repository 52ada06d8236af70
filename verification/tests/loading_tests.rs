use dungeon_quest::loading::{
    update_loader, Loader, LoaderUpdate, LOADER_HEIGHT, LOADER_INSET, LOADER_STEP,
    LOADING_BORDER_HEIGHT, LOADING_BORDER_WIDTH, LOADING_TEXT_FONT_SIZE, LOADING_TEXT_HEIGHT,
    LOADING_TEXT_RISE, MAX_LOADER_WIDTH, TEXT_FONT_SIZE,
};
use dungeon_quest::scene::SceneState;

fn grown(width: u32) -> LoaderUpdate {
    LoaderUpdate::Grown { width }
}

#[test]
fn bar_geometry() {
    assert_eq!(LOADING_BORDER_WIDTH, 600);
    assert_eq!(LOADING_BORDER_HEIGHT, 60);
    assert_eq!(LOADER_INSET, 5);
    assert_eq!(LOADER_HEIGHT, 48);
    assert_eq!(LOADER_STEP, 100);
    assert_eq!(LOADING_TEXT_HEIGHT, 35);
    assert_eq!(LOADING_TEXT_RISE, 37);
    assert_eq!(LOADING_TEXT_FONT_SIZE, 30);
    assert_eq!(TEXT_FONT_SIZE, 40);
    assert_eq!(MAX_LOADER_WIDTH, u32::MAX - 100);
}

#[test]
fn bar_height_is_four_fifths_of_the_border() {
    let border: f32 = LOADING_BORDER_HEIGHT as f32;
    assert_eq!(LOADER_HEIGHT as f32, border - border * 0.2);
}

#[test]
fn bar_in_border_starts_empty() {
    let loader = Loader::in_border();
    assert_eq!(loader, Loader { max_width: 590, current_width: 0 });
    assert!(loader.is_well_formed());
}

#[test]
fn new_refuses_a_width_that_leaves_no_room_for_a_step() {
    assert_eq!(Loader::new(590), Some(Loader { max_width: 590, current_width: 0 }));
    assert_eq!(Loader::new(0), Some(Loader { max_width: 0, current_width: 0 }));
    assert_eq!(
        Loader::new(MAX_LOADER_WIDTH),
        Some(Loader { max_width: MAX_LOADER_WIDTH, current_width: 0 })
    );
    assert_eq!(Loader::new(MAX_LOADER_WIDTH + 1), None);
    assert_eq!(Loader::new(u32::MAX), None);
}

#[test]
fn well_formedness_is_about_the_full_width_only() {
    assert!(Loader { max_width: 590, current_width: u32::MAX }.is_well_formed());
    assert!(!Loader { max_width: u32::MAX, current_width: 0 }.is_well_formed());
}

#[test]
fn first_frame_grows_the_bar_by_a_step() {
    let mut loader = Loader::in_border();
    let update = update_loader(&mut loader);
    assert_eq!(loader, Loader { max_width: 590, current_width: 100 });
    assert_eq!(update, grown(100));
}

#[test]
fn bar_fills_in_six_frames_and_the_seventh_leaves() {
    let mut loader = Loader::in_border();
    let mut updates = Vec::new();
    for _ in 0..7 {
        updates.push(update_loader(&mut loader));
    }
    assert_eq!(
        updates,
        vec![
            grown(100),
            grown(200),
            grown(300),
            grown(400),
            grown(500),
            grown(600),
            LoaderUpdate::Finished { next: SceneState::MainMenuScene },
        ]
    );
    assert_eq!(loader, Loader { max_width: 590, current_width: 600 });
}

#[test]
fn full_bar_stays_as_it_is() {
    let mut loader = Loader { max_width: 590, current_width: 600 };
    for _ in 0..3 {
        let update = update_loader(&mut loader);
        assert_eq!(update, LoaderUpdate::Finished { next: SceneState::MainMenuScene });
        assert_eq!(loader, Loader { max_width: 590, current_width: 600 });
    }
}

#[test]
fn bar_exactly_at_full_width_is_full() {
    let mut loader = Loader { max_width: 300, current_width: 300 };
    assert_eq!(
        update_loader(&mut loader),
        LoaderUpdate::Finished { next: SceneState::MainMenuScene }
    );
    assert_eq!(loader.current_width, 300);
}

#[test]
fn bar_reaching_full_width_exactly_is_full_on_the_next_frame() {
    let mut loader = Loader { max_width: 300, current_width: 200 };
    assert_eq!(update_loader(&mut loader), grown(300));
    assert_eq!(
        update_loader(&mut loader),
        LoaderUpdate::Finished { next: SceneState::MainMenuScene }
    );
}

#[test]
fn bar_of_no_width_is_full_at_once() {
    let mut loader = Loader { max_width: 0, current_width: 0 };
    assert_eq!(
        update_loader(&mut loader),
        LoaderUpdate::Finished { next: SceneState::MainMenuScene }
    );
    assert_eq!(loader, Loader { max_width: 0, current_width: 0 });
}

#[test]
fn bar_grows_from_any_width_short_of_full() {
    let mut loader = Loader { max_width: 10000, current_width: 499 };
    assert_eq!(update_loader(&mut loader), grown(599));
    assert_eq!(update_loader(&mut loader), grown(699));
    assert_eq!(loader, Loader { max_width: 10000, current_width: 699 });
}

#[test]
fn widest_bar_can_take_its_last_step() {
    let mut loader = Loader { max_width: MAX_LOADER_WIDTH, current_width: MAX_LOADER_WIDTH - 1 };
    assert_eq!(update_loader(&mut loader), grown(u32::MAX - 1));
    assert_eq!(
        update_loader(&mut loader),
        LoaderUpdate::Finished { next: SceneState::MainMenuScene }
    );
}

#[test]
fn narrow_bar_overshoots_by_less_than_a_step() {
    let mut loader = Loader { max_width: 1, current_width: 0 };
    assert_eq!(update_loader(&mut loader), grown(100));
    assert_eq!(
        update_loader(&mut loader),
        LoaderUpdate::Finished { next: SceneState::MainMenuScene }
    );
}

#[test]
fn width_never_shrinks_and_stays_within_a_step_of_full() {
    for max_width in [0u32, 1, 99, 100, 101, 250, 590, 600, 1234] {
        let mut loader = Loader::new(max_width).unwrap();
        let mut last = loader.current_width;
        for _ in 0..20 {
            update_loader(&mut loader);
            assert!(loader.current_width >= last);
            assert!(loader.current_width < max_width + LOADER_STEP);
            assert_eq!(loader.max_width, max_width);
            last = loader.current_width;
        }
    }
}

#[test]
fn growing_frames_are_the_steps_that_fit_below_full_width() {
    for max_width in [0u32, 1, 99, 100, 101, 250, 590, 600, 1234] {
        let mut loader = Loader::new(max_width).unwrap();
        let expected = (max_width + LOADER_STEP - 1) / LOADER_STEP;
        let mut grown_frames = 0u32;
        let mut finished_frames = 0u32;
        for _ in 0..(expected + 3) {
            match update_loader(&mut loader) {
                LoaderUpdate::Grown { width, .. } => {
                    assert_eq!(finished_frames, 0);
                    grown_frames += 1;
                    assert_eq!(width, grown_frames * LOADER_STEP);
                }
                LoaderUpdate::Finished { next } => {
                    assert_eq!(next, SceneState::MainMenuScene);
                    finished_frames += 1;
                }
            }
        }
        assert_eq!(grown_frames, expected);
        assert_eq!(finished_frames, 3);
    }
}
