use rgb_puzzle::color::{
    layers_from_game_color, rgb_from_game_color, GameColor, Rgb, BLUE_LAYER, GREEN_LAYER,
    RED_LAYER,
};
use rgb_puzzle::events::GameEvent;
use rgb_puzzle::grid::{board_cells, GridPos};
use rgb_puzzle::level::LevelInfo;
use rgb_puzzle::presentation::{
    camera_viewport, grid_to_translation, shape_for, sound_for, text_update_system, CameraView,
    TimerText, TokenShape, Translation, Viewport,
};
use rgb_puzzle::world::Role;
use rgb_puzzle::timer::{Countdown, GameTimer};

const SECOND: u64 = 1_000_000_000;

fn rgb(red: bool, green: bool, blue: bool) -> Rgb {
    Rgb { red, green, blue }
}

fn playing() -> LevelInfo {
    LevelInfo { desired_index: Some(0), index: Some(0), total_levels: 2 }
}

fn left(remaining_ns: u64) -> GameTimer {
    GameTimer(Some(Countdown { duration_ns: 25 * SECOND, elapsed_ns: 25 * SECOND - remaining_ns }))
}

#[test]
fn colours_have_their_channels() {
    assert_eq!(rgb_from_game_color(GameColor::Red), rgb(true, false, false));
    assert_eq!(rgb_from_game_color(GameColor::Green), rgb(false, true, false));
    assert_eq!(rgb_from_game_color(GameColor::Blue), rgb(false, false, true));
    assert_eq!(rgb_from_game_color(GameColor::Yellow), rgb(true, true, false));
    assert_eq!(rgb_from_game_color(GameColor::Cyan), rgb(false, true, true));
    assert_eq!(rgb_from_game_color(GameColor::Pink), rgb(true, false, true));
    assert_eq!(rgb_from_game_color(GameColor::White), rgb(true, true, true));
}

#[test]
fn colours_have_their_layers() {
    assert_eq!(layers_from_game_color(GameColor::Red), vec![1]);
    assert_eq!(layers_from_game_color(GameColor::Green), vec![2]);
    assert_eq!(layers_from_game_color(GameColor::Blue), vec![3]);
    assert_eq!(layers_from_game_color(GameColor::Yellow), vec![1, 2]);
    assert_eq!(layers_from_game_color(GameColor::Cyan), vec![2, 3]);
    assert_eq!(layers_from_game_color(GameColor::Pink), vec![1, 3]);
    assert_eq!(layers_from_game_color(GameColor::White), vec![1, 2, 3]);
}

#[test]
fn layers_follow_channels() {
    let all = [
        GameColor::Red,
        GameColor::Green,
        GameColor::Blue,
        GameColor::Yellow,
        GameColor::Cyan,
        GameColor::Pink,
        GameColor::White,
    ];
    for color in all {
        let channels = rgb_from_game_color(color);
        let layers = layers_from_game_color(color);
        assert_eq!(layers.contains(&RED_LAYER), channels.red);
        assert_eq!(layers.contains(&GREEN_LAYER), channels.green);
        assert_eq!(layers.contains(&BLUE_LAYER), channels.blue);
        assert!(layers.iter().all(|l| (1..=3).contains(l)));
    }
}

#[test]
fn scene_position_mirrors_the_row() {
    assert_eq!(grid_to_translation(GridPos { x: 2, y: 3 }), Translation { x: 2, y: 1, z: 8 });
    assert_eq!(grid_to_translation(GridPos { x: 0, y: 0 }), Translation { x: 0, y: 1, z: 11 });
    assert_eq!(grid_to_translation(GridPos { x: 7, y: 11 }), Translation { x: 7, y: 1, z: 0 });
}

#[test]
fn scene_position_of_extreme_cells_does_not_overflow() {
    assert_eq!(
        grid_to_translation(GridPos { x: i32::MIN, y: i32::MIN }),
        Translation { x: -2147483648, y: 1, z: 2147483659 }
    );
    assert_eq!(
        grid_to_translation(GridPos { x: i32::MAX, y: i32::MAX }),
        Translation { x: 2147483647, y: 1, z: -2147483636 }
    );
}

#[test]
fn timer_text_is_white_above_two_seconds() {
    assert_eq!(
        text_update_system(&left(2 * SECOND + 1), &playing()),
        TimerText { seconds: Some(3), color: GameColor::White }
    );
    assert_eq!(
        text_update_system(&left(24_200_000_000), &playing()),
        TimerText { seconds: Some(25), color: GameColor::White }
    );
}

#[test]
fn timer_text_is_yellow_up_to_two_seconds() {
    assert_eq!(
        text_update_system(&left(2 * SECOND), &playing()),
        TimerText { seconds: Some(2), color: GameColor::Yellow }
    );
    assert_eq!(
        text_update_system(&left(SECOND + 1), &playing()),
        TimerText { seconds: Some(2), color: GameColor::Yellow }
    );
}

#[test]
fn timer_text_is_red_up_to_one_second() {
    assert_eq!(
        text_update_system(&left(SECOND), &playing()),
        TimerText { seconds: Some(2), color: GameColor::Red }
    );
    assert_eq!(
        text_update_system(&left(400_000_000), &playing()),
        TimerText { seconds: Some(1), color: GameColor::Red }
    );
    assert_eq!(
        text_update_system(&left(0), &playing()),
        TimerText { seconds: Some(0), color: GameColor::Red }
    );
}

#[test]
fn timer_text_rounds_ties_to_the_even_second() {
    assert_eq!(text_update_system(&left(25 * SECOND), &playing()).seconds, Some(26));
    assert_eq!(text_update_system(&left(24 * SECOND), &playing()).seconds, Some(24));
    assert_eq!(text_update_system(&left(24 * SECOND + 1), &playing()).seconds, Some(25));
    assert_eq!(text_update_system(&left(24 * SECOND - 1), &playing()).seconds, Some(24));
    assert_eq!(text_update_system(&left(23 * SECOND + 500_000_000), &playing()).seconds, Some(24));
}

#[test]
fn timer_text_is_empty_without_a_countdown() {
    assert_eq!(
        text_update_system(&GameTimer(None), &playing()),
        TimerText { seconds: None, color: GameColor::White }
    );
}

#[test]
fn timer_text_is_empty_once_the_game_is_won() {
    let won = LevelInfo { desired_index: Some(2), index: Some(2), total_levels: 2 };
    assert_eq!(
        text_update_system(&left(10 * SECOND), &won),
        TimerText { seconds: None, color: GameColor::White }
    );
    assert_eq!(
        text_update_system(&left(SECOND), &won),
        TimerText { seconds: None, color: GameColor::Red }
    );
}

#[test]
fn timer_text_of_an_overrun_countdown_reads_zero() {
    let timer = GameTimer(Some(Countdown { duration_ns: SECOND, elapsed_ns: 3 * SECOND }));
    assert_eq!(
        text_update_system(&timer, &playing()),
        TimerText { seconds: Some(0), color: GameColor::Red }
    );
}

#[test]
fn timer_text_of_the_longest_countdown_does_not_overflow() {
    let timer = GameTimer(Some(Countdown { duration_ns: u64::MAX, elapsed_ns: 0 }));
    assert_eq!(
        text_update_system(&timer, &playing()),
        TimerText { seconds: Some(18446744074), color: GameColor::White }
    );
}

#[test]
fn cameras_split_the_window_in_three() {
    assert_eq!(
        camera_viewport(CameraView::Red, 1000, 500),
        Viewport { x: 0, y: 0, width: 333, height: 500, layer: 1 }
    );
    assert_eq!(
        camera_viewport(CameraView::Green, 1000, 500),
        Viewport { x: 333, y: 0, width: 333, height: 500, layer: 2 }
    );
    assert_eq!(
        camera_viewport(CameraView::Blue, 1000, 500),
        Viewport { x: 666, y: 0, width: 333, height: 500, layer: 3 }
    );
}

#[test]
fn cameras_of_the_widest_window_do_not_overflow() {
    assert_eq!(
        camera_viewport(CameraView::Blue, u32::MAX, u32::MAX),
        Viewport { x: 2863311530, y: 0, width: 1431655765, height: u32::MAX, layer: 3 }
    );
    assert_eq!(
        camera_viewport(CameraView::Green, 2, 0),
        Viewport { x: 0, y: 0, width: 0, height: 0, layer: 2 }
    );
}

#[test]
fn signals_have_their_sounds() {
    assert_eq!(sound_for(GameEvent::ReachedGoal), "sounds/level-reached.ogg");
    assert_eq!(sound_for(GameEvent::HitTrap), "sounds/hit-trap.ogg");
    assert_eq!(sound_for(GameEvent::PlayerMoved), "sounds/move.ogg");
    assert_eq!(sound_for(GameEvent::TimerExpired), "sounds/hit-trap.ogg");
}

#[test]
fn roles_have_their_shapes() {
    assert_eq!(shape_for(Role::Player), TokenShape::Sphere);
    assert_eq!(shape_for(Role::Trap), TokenShape::Cube);
    assert_eq!(shape_for(Role::Goal), TokenShape::Torus);
}

#[test]
fn label_spells_out_the_seconds() {
    let white = GameColor::White;
    assert_eq!(TimerText { seconds: Some(25), color: white }.label(), "Timer: 25");
    assert_eq!(TimerText { seconds: Some(0), color: white }.label(), "Timer: 0");
    assert_eq!(TimerText { seconds: Some(7), color: white }.label(), "Timer: 7");
    assert_eq!(TimerText { seconds: Some(10), color: white }.label(), "Timer: 10");
    assert_eq!(TimerText { seconds: Some(1203), color: white }.label(), "Timer: 1203");
    assert_eq!(
        TimerText { seconds: Some(u64::MAX), color: white }.label(),
        "Timer: 18446744073709551615"
    );
}

#[test]
fn label_is_empty_without_seconds() {
    assert_eq!(TimerText { seconds: None, color: GameColor::Red }.label(), "");
}

#[test]
fn label_of_a_fresh_countdown() {
    let text = text_update_system(&left(25 * SECOND - 16_000_000), &playing());
    assert_eq!(text.label(), "Timer: 25");
}

#[test]
fn board_cells_lists_every_cell_once() {
    let cells = board_cells();
    assert_eq!(cells.len(), 96);
    assert_eq!(cells[0], GridPos { x: 0, y: 0 });
    assert_eq!(cells[1], GridPos { x: 0, y: 1 });
    assert_eq!(cells[11], GridPos { x: 0, y: 11 });
    assert_eq!(cells[12], GridPos { x: 1, y: 0 });
    assert_eq!(cells[95], GridPos { x: 7, y: 11 });
    for x in 0..8 {
        for y in 0..12 {
            let hits = cells.iter().filter(|c| **c == GridPos { x, y }).count();
            assert_eq!(hits, 1, "cell ({x}, {y})");
        }
    }
}
