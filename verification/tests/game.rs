use rgb_puzzle::color::GameColor;
use rgb_puzzle::events::GameEvent;
use rgb_puzzle::game::Game;
use rgb_puzzle::grid::{GridPos, KeyEdges};
use rgb_puzzle::level::{Level, LevelInfo, Lifecycle, LoadOutcome, Placement};
use rgb_puzzle::timer::{Countdown, GameTimer, LEVEL_TIME_NS};
use rgb_puzzle::world::{GridEntity, Role};

const NONE: KeyEdges = KeyEdges { up: false, left: false, down: false, right: false };
const UP: KeyEdges = KeyEdges { up: true, left: false, down: false, right: false };
const LEFT: KeyEdges = KeyEdges { up: false, left: true, down: false, right: false };
const RIGHT: KeyEdges = KeyEdges { up: false, left: false, down: false, right: true };
const SECOND: u64 = 1_000_000_000;

fn place(x: i32, y: i32) -> Placement {
    Placement { x, y, color: GameColor::White }
}

fn token(role: Role, x: i32, y: i32, changed: bool) -> GridEntity {
    GridEntity { role, pos: GridPos { x, y }, color: GameColor::White, changed }
}

fn info(desired_index: Option<i32>, index: Option<i32>, total_levels: usize) -> LevelInfo {
    LevelInfo { desired_index, index, total_levels }
}

fn running(elapsed_ns: u64) -> GameTimer {
    GameTimer(Some(Countdown { duration_ns: LEVEL_TIME_NS, elapsed_ns }))
}

fn goal_above() -> Level {
    Level { player: place(5, 5), goals: vec![place(5, 6)], traps: vec![] }
}

fn trap_left() -> Level {
    Level { player: place(3, 3), goals: vec![place(7, 7)], traps: vec![place(2, 3)] }
}

fn started(levels: Vec<Level>) -> Game {
    let mut game = Game::new();
    game.set_levels(levels);
    game.load_first_level();
    assert_eq!(game.tick(NONE, 0), LoadOutcome::Spawned);
    game
}

#[test]
fn new_game_is_empty() {
    let game = Game::new();
    assert_eq!(*game.level_info(), info(None, None, 0));
    assert_eq!(*game.timer(), GameTimer(None));
    assert!(game.entities().is_empty());
    assert!(game.events().is_empty());
}

#[test]
fn game_waits_until_the_level_set_arrives() {
    let mut game = Game::new();
    game.load_first_level();
    assert_eq!(game.tick(UP, SECOND), LoadOutcome::Waiting);
    assert_eq!(*game.level_info(), info(Some(0), None, 0));
    assert!(game.entities().is_empty());
    assert_eq!(*game.timer(), GameTimer(None));
    game.set_levels(vec![goal_above()]);
    assert_eq!(game.tick(NONE, SECOND), LoadOutcome::Spawned);
    assert_eq!(*game.level_info(), info(Some(0), Some(0), 1));
    assert_eq!(*game.timer(), running(0));
}

#[test]
fn game_without_a_request_stays_idle() {
    let mut game = Game::new();
    game.set_levels(vec![goal_above()]);
    assert_eq!(game.tick(UP, SECOND), LoadOutcome::Idle);
    assert_eq!(*game.level_info(), info(None, None, 0));
    assert!(game.entities().is_empty());
}

#[test]
fn first_frame_lays_out_level_zero() {
    let game = started(vec![goal_above(), trap_left()]);
    assert_eq!(*game.level_info(), info(Some(0), Some(0), 2));
    assert_eq!(game.level_info().state(), Lifecycle::Loaded(0));
    assert_eq!(
        *game.entities(),
        vec![token(Role::Player, 5, 5, true), token(Role::Goal, 5, 6, true)]
    );
    assert_eq!(*game.timer(), running(0));
    assert!(game.events().is_empty());
}

#[test]
fn idle_frame_only_runs_the_clock() {
    let mut game = started(vec![goal_above(), trap_left()]);
    assert_eq!(game.tick(NONE, 16_000_000), LoadOutcome::Idle);
    assert_eq!(
        *game.entities(),
        vec![token(Role::Player, 5, 5, false), token(Role::Goal, 5, 6, false)]
    );
    assert_eq!(*game.timer(), running(16_000_000));
    assert!(game.events().is_empty());
    assert_eq!(*game.level_info(), info(Some(0), Some(0), 2));
}

#[test]
fn moving_up_to_the_goal_advances_to_level_one() {
    let mut game = started(vec![goal_above(), trap_left()]);
    assert_eq!(game.tick(UP, 16_000_000), LoadOutcome::Spawned);
    assert_eq!(*game.events(), vec![GameEvent::PlayerMoved, GameEvent::ReachedGoal]);
    assert_eq!(*game.level_info(), info(Some(1), Some(1), 2));
    assert_eq!(
        *game.entities(),
        vec![
            token(Role::Player, 3, 3, true),
            token(Role::Goal, 7, 7, true),
            token(Role::Trap, 2, 3, true)
        ]
    );
    assert_eq!(*game.timer(), running(0));
}

#[test]
fn reaching_the_last_goal_wins_the_game() {
    let mut game = started(vec![goal_above()]);
    assert_eq!(game.tick(UP, 16_000_000), LoadOutcome::Finished);
    assert_eq!(*game.events(), vec![GameEvent::PlayerMoved, GameEvent::ReachedGoal]);
    assert_eq!(*game.level_info(), info(Some(1), Some(1), 1));
    assert!(game.level_info().is_won());
    assert!(game.entities().is_empty());
    assert_eq!(*game.timer(), GameTimer(None));
}

#[test]
fn won_game_stays_quiet() {
    let mut game = started(vec![goal_above()]);
    game.tick(UP, 0);
    for _ in 0..40 {
        assert_eq!(game.tick(UP, SECOND), LoadOutcome::Idle);
        assert!(game.events().is_empty());
        assert!(game.entities().is_empty());
        assert_eq!(*game.timer(), GameTimer(None));
        assert!(game.level_info().is_won());
    }
}

#[test]
fn walking_into_the_trap_restarts_the_level() {
    let mut game = started(vec![goal_above(), trap_left()]);
    game.tick(UP, 0);
    assert_eq!(game.tick(RIGHT, 2 * SECOND), LoadOutcome::Idle);
    assert_eq!(game.entities()[0], token(Role::Player, 4, 3, false));
    assert_eq!(*game.timer(), running(2 * SECOND));
    assert_eq!(game.tick(LEFT, SECOND), LoadOutcome::Idle);
    assert_eq!(game.tick(LEFT, SECOND), LoadOutcome::Spawned);
    assert_eq!(*game.events(), vec![GameEvent::PlayerMoved, GameEvent::HitTrap]);
    assert_eq!(*game.level_info(), info(Some(1), Some(1), 2));
    assert_eq!(game.entities()[0], token(Role::Player, 3, 3, true));
    assert_eq!(*game.timer(), running(0));
}

#[test]
fn running_out_of_time_restarts_the_level() {
    let mut game = started(vec![goal_above()]);
    assert_eq!(game.tick(LEFT, 24 * SECOND), LoadOutcome::Idle);
    assert_eq!(game.entities()[0], token(Role::Player, 4, 5, false));
    assert_eq!(game.tick(NONE, SECOND), LoadOutcome::Spawned);
    assert_eq!(*game.events(), vec![GameEvent::TimerExpired]);
    assert_eq!(*game.level_info(), info(Some(0), Some(0), 1));
    assert_eq!(game.entities()[0], token(Role::Player, 5, 5, true));
    assert_eq!(*game.timer(), running(0));
}

#[test]
fn player_laid_out_on_a_goal_reaches_it_in_the_next_frame() {
    let on_goal = Level { player: place(1, 1), goals: vec![place(1, 1)], traps: vec![] };
    let mut game = started(vec![on_goal, trap_left()]);
    assert_eq!(game.tick(NONE, 0), LoadOutcome::Spawned);
    assert_eq!(*game.events(), vec![GameEvent::ReachedGoal]);
    assert_eq!(*game.level_info(), info(Some(1), Some(1), 2));
}

#[test]
fn two_goals_on_one_cell_signal_twice() {
    let twin = Level { player: place(5, 5), goals: vec![place(5, 6), place(5, 6)], traps: vec![] };
    let mut game = started(vec![twin, trap_left()]);
    assert_eq!(game.tick(UP, 0), LoadOutcome::Spawned);
    assert_eq!(
        *game.events(),
        vec![GameEvent::PlayerMoved, GameEvent::ReachedGoal, GameEvent::ReachedGoal]
    );
    assert_eq!(*game.level_info(), info(Some(1), Some(1), 2));
}

#[test]
fn two_traps_on_one_cell_leave_the_level_standing() {
    let twin = Level { player: place(5, 5), goals: vec![], traps: vec![place(5, 6), place(5, 6)] };
    let mut game = started(vec![twin]);
    assert_eq!(game.tick(UP, SECOND), LoadOutcome::Idle);
    assert_eq!(
        *game.events(),
        vec![GameEvent::PlayerMoved, GameEvent::HitTrap, GameEvent::HitTrap]
    );
    assert_eq!(*game.level_info(), info(None, None, 1));
    assert_eq!(game.entities().len(), 3);
    assert_eq!(*game.timer(), running(SECOND));
}

#[test]
fn goal_and_trap_on_one_cell_ask_for_level_one() {
    let both = Level { player: place(5, 5), goals: vec![place(5, 6)], traps: vec![place(5, 6)] };
    let mut game = started(vec![both, trap_left(), goal_above()]);
    assert_eq!(game.tick(UP, 0), LoadOutcome::Spawned);
    assert_eq!(
        *game.events(),
        vec![GameEvent::PlayerMoved, GameEvent::ReachedGoal, GameEvent::HitTrap]
    );
    assert_eq!(*game.level_info(), info(Some(1), Some(1), 3));
}

#[test]
fn signals_are_those_of_the_last_frame_only() {
    let mut game = started(vec![goal_above(), trap_left()]);
    game.tick(LEFT, 0);
    assert_eq!(*game.events(), vec![GameEvent::PlayerMoved]);
    game.tick(NONE, 0);
    assert!(game.events().is_empty());
}

#[test]
fn empty_level_set_is_won_at_once() {
    let mut game = Game::new();
    game.set_levels(Vec::new());
    game.load_first_level();
    assert_eq!(game.tick(NONE, 0), LoadOutcome::Finished);
    assert!(game.level_info().is_won());
    assert!(game.entities().is_empty());
    assert_eq!(*game.timer(), GameTimer(None));
}
