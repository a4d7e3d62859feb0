//! The whole game: level set, progress, countdown, board and signal queue,
//! advanced one frame at a time by running the handlers in a fixed order.

use crate::events::{
    lemma_occurrences_concat, lemma_occurrences_push, lemma_occurrences_repeated, occurrences,
    repeated, GameEvent,
};
use crate::grid::KeyEdges;
use crate::level::{
    go_to_next_level_on_goal, lemma_reloaded_times, load_level_on_level_change,
    reload_level_on_death, reload_level_on_timer_expired, Level, LevelInfo, LevelView,
    LoadOutcome,
};
use crate::timer::{timer_expired, GameTimer};
use crate::world::{
    after_movement, all_checked, collisions, hit_trap, movement_system, player_steps, reach_goal,
    GridEntity, Role, World,
};
use vstd::prelude::*;

verus! {

/// The state of a game.  It is created empty, receives the level set once
/// that is available, and is advanced by [`Game::tick`].
pub struct Game {
    levels: Option<Vec<Level>>,
    level_info: LevelInfo,
    timer: GameTimer,
    world: World,
    events: Vec<GameEvent>,
}

/// The state of a game as a mathematical value.
pub struct GameView {
    /// The level set, once it is available.
    pub levels: Option<Seq<LevelView>>,
    /// Progress through the level set.
    pub level_info: LevelInfo,
    /// The countdown of the level being played.
    pub timer: GameTimer,
    /// The tokens on the board.
    pub entities: Seq<GridEntity>,
    /// The signals raised during the last frame, in the order in which they
    /// were raised.
    pub events: Seq<GameEvent>,
}

/// The level set as a sequence of mathematical values.
pub open spec fn level_views(levels: Option<Vec<Level>>) -> Option<Seq<LevelView>> {
    match levels {
        Some(l) => Some(l@.map_values(|level: Level| level@)),
        None => None,
    }
}

impl View for Game {
    type V = GameView;

    closed spec fn view(&self) -> GameView {
        GameView {
            levels: level_views(self.levels),
            level_info: self.level_info,
            timer: self.timer,
            entities: self.world@,
            events: self.events@,
        }
    }
}

/// The signals that movement and collision raise in a frame that starts on
/// the given board with the given keys: `PlayerMoved` if the player steps,
/// then one `ReachedGoal` for every goal and one `HitTrap` for every trap on
/// the cell where the player then stands.
pub open spec fn board_signals(entities: Seq<GridEntity>, keys: KeyEdges) -> Seq<GameEvent> {
    let moved = after_movement(entities, keys);
    (if player_steps(entities, keys) {
        seq![GameEvent::PlayerMoved]
    } else {
        seq![]
    }) + repeated(GameEvent::ReachedGoal, collisions(moved, Role::Goal)) + repeated(
        GameEvent::HitTrap,
        collisions(moved, Role::Trap),
    )
}

/// Progress after the lifecycle handlers have read a frame's signals: the
/// level is given up once for every `HitTrap` and every `TimerExpired`, then
/// the next level is asked for if there is a `ReachedGoal`.
pub open spec fn after_signals(info: LevelInfo, events: Seq<GameEvent>) -> LevelInfo {
    let given_up = info.reloaded_times(occurrences(events, GameEvent::HitTrap)).reloaded_times(
        occurrences(events, GameEvent::TimerExpired),
    );
    if occurrences(events, GameEvent::ReachedGoal) > 0 {
        given_up.advanced()
    } else {
        given_up
    }
}

impl GameView {
    /// A game at start-up.
    pub open spec fn initial() -> GameView {
        GameView {
            levels: None,
            level_info: LevelInfo { desired_index: None, index: None, total_levels: 0 },
            timer: GameTimer(None),
            entities: Seq::empty(),
            events: Seq::empty(),
        }
    }

    /// What always holds of a game: the level set is small enough for its
    /// indices; before the level set has arrived, and once the game is won,
    /// the board is empty and no countdown runs.
    pub open spec fn wf(self) -> bool {
        &&& self.level_info.total_levels <= i32::MAX
        &&& self.levels matches Some(l) ==> l.len() <= i32::MAX
        &&& self.levels is None ==> self.entities.len() == 0 && self.timer.0 is None
        &&& self.level_info.won() ==> self.entities.len() == 0 && self.timer.0 is None
    }

    /// The signals of a frame: those of the board, then `TimerExpired` if the
    /// countdown runs out.
    pub open spec fn frame_signals(self, keys: KeyEdges, delta_ns: u64) -> Seq<GameEvent> {
        let board = board_signals(self.entities, keys);
        if self.timer.expires(delta_ns) {
            board.push(GameEvent::TimerExpired)
        } else {
            board
        }
    }

    /// What the loader does at the end of the frame.
    pub open spec fn frame_outcome(self, keys: KeyEdges, delta_ns: u64) -> LoadOutcome {
        after_signals(self.level_info, self.frame_signals(keys, delta_ns)).load_outcome(
            match self.levels {
                Some(levels) => Some(levels.len()),
                None => None,
            },
        )
    }

    /// The game one frame later.  The handlers run in this order: movement,
    /// goal and trap detection, countdown, lifecycle, loader.
    pub open spec fn ticked(self, keys: KeyEdges, delta_ns: u64) -> GameView {
        let events = self.frame_signals(keys, delta_ns);
        let info = after_signals(self.level_info, events);
        match self.frame_outcome(keys, delta_ns) {
            LoadOutcome::Idle | LoadOutcome::Waiting => GameView {
                levels: self.levels,
                level_info: info,
                timer: self.timer.ticked(delta_ns),
                entities: all_checked(after_movement(self.entities, keys)),
                events,
            },
            LoadOutcome::Finished => GameView {
                levels: self.levels,
                level_info: info.settled(self.levels->0.len()),
                timer: GameTimer(None),
                entities: Seq::empty(),
                events,
            },
            LoadOutcome::Spawned => GameView {
                levels: self.levels,
                level_info: info.settled(self.levels->0.len()),
                timer: GameTimer::fresh(),
                entities: self.levels->0[info.desired_index->0 as int].tokens(),
                events,
            },
        }
    }
}

/// A board without tokens raises no signal and stays as it is.
pub proof fn lemma_empty_board(keys: KeyEdges)
    ensures
        board_signals(Seq::empty(), keys) == Seq::<GameEvent>::empty(),
        all_checked(after_movement(Seq::empty(), keys)) == Seq::<GridEntity>::empty(),
{
}

/// In the signals of a frame, `ReachedGoal` occurs once for every goal on
/// the player's cell, `HitTrap` once for every trap on it, `PlayerMoved` once
/// if the player stepped, and `TimerExpired` once if the countdown ran out.
pub proof fn lemma_frame_signal_counts(g: GameView, keys: KeyEdges, delta_ns: u64)
    ensures
        occurrences(g.frame_signals(keys, delta_ns), GameEvent::ReachedGoal) == collisions(
            after_movement(g.entities, keys),
            Role::Goal,
        ),
        occurrences(g.frame_signals(keys, delta_ns), GameEvent::HitTrap) == collisions(
            after_movement(g.entities, keys),
            Role::Trap,
        ),
        occurrences(g.frame_signals(keys, delta_ns), GameEvent::PlayerMoved) == if player_steps(
            g.entities,
            keys,
        ) {
            1nat
        } else {
            0nat
        },
        occurrences(g.frame_signals(keys, delta_ns), GameEvent::TimerExpired) == if g.timer.expires(
            delta_ns,
        ) {
            1nat
        } else {
            0nat
        },
{
    let moved = after_movement(g.entities, keys);
    let head: Seq<GameEvent> = if player_steps(g.entities, keys) {
        seq![GameEvent::PlayerMoved]
    } else {
        seq![]
    };
    let goals = repeated(GameEvent::ReachedGoal, collisions(moved, Role::Goal));
    let traps = repeated(GameEvent::HitTrap, collisions(moved, Role::Trap));
    let board = board_signals(g.entities, keys);
    let signals = g.frame_signals(keys, delta_ns);
    assert forall|event: GameEvent|
        #[trigger] occurrences(signals, event) == occurrences(head, event) + occurrences(
            goals,
            event,
        ) + occurrences(traps, event) + if g.timer.expires(delta_ns) && event
            == GameEvent::TimerExpired {
            1nat
        } else {
            0nat
        } by {
        lemma_occurrences_concat(head + goals, traps, event);
        lemma_occurrences_concat(head, goals, event);
        lemma_occurrences_push(board, GameEvent::TimerExpired, event);
    }
    assert forall|event: GameEvent|
        #[trigger] occurrences(head, event) == if player_steps(g.entities, keys) && event
            == GameEvent::PlayerMoved {
            1nat
        } else {
            0nat
        } by {
        lemma_occurrences_push(Seq::empty(), GameEvent::PlayerMoved, event);
    }
    assert forall|event: GameEvent|
        #[trigger] occurrences(goals, event) == if event == GameEvent::ReachedGoal {
            collisions(moved, Role::Goal)
        } else {
            0
        } by {
        lemma_occurrences_repeated(GameEvent::ReachedGoal, collisions(moved, Role::Goal), event);
    }
    assert forall|event: GameEvent|
        #[trigger] occurrences(traps, event) == if event == GameEvent::HitTrap {
            collisions(moved, Role::Trap)
        } else {
            0
        } by {
        lemma_occurrences_repeated(GameEvent::HitTrap, collisions(moved, Role::Trap), event);
    }
}

/// A frame keeps a well-formed game well-formed.
pub proof fn lemma_tick_keeps_wf(g: GameView, keys: KeyEdges, delta_ns: u64)
    requires
        g.wf(),
    ensures
        g.ticked(keys, delta_ns).wf(),
{
    let events = g.frame_signals(keys, delta_ns);
    let traps = occurrences(events, GameEvent::HitTrap);
    let expiries = occurrences(events, GameEvent::TimerExpired);
    lemma_reloaded_times(g.level_info, traps);
    lemma_reloaded_times(g.level_info.reloaded_times(traps), expiries);
    if g.entities.len() == 0 {
        lemma_empty_board(keys);
    }
}

/// No countdown runs between levels or after the game is won: at the end of
/// a frame, a game that still waits for the level it asked for, or that is
/// won, has no countdown.
pub proof fn lemma_no_countdown_between_levels(g: GameView, keys: KeyEdges, delta_ns: u64)
    requires
        g.wf(),
    ensures
        g.ticked(keys, delta_ns).level_info.transition_pending() ==> g.ticked(
            keys,
            delta_ns,
        ).timer.0 is None,
        g.ticked(keys, delta_ns).level_info.won() ==> g.ticked(keys, delta_ns).timer.0 is None,
        g.ticked(keys, delta_ns).level_info.won() ==> g.ticked(keys, delta_ns).entities.len() == 0,
{
    lemma_tick_keeps_wf(g, keys, delta_ns);
}

impl Game {
    #[verifier::type_invariant]
    closed spec fn inv(self) -> bool {
        self@.wf()
    }

    /// A game at start-up: no level set, nothing laid out, nothing asked for.
    pub fn new() -> (game: Game)
        ensures
            game@ == GameView::initial(),
    {
        Game {
            levels: None,
            level_info: LevelInfo::new(),
            timer: GameTimer(None),
            world: World::new(),
            events: Vec::new(),
        }
    }

    /// Hands the level set to the game.
    pub fn set_levels(&mut self, levels: Vec<Level>)
        requires
            levels@.len() <= i32::MAX,
        ensures
            final(self)@ == (GameView { levels: level_views(Some(levels)), ..old(self)@ }),
    {
        proof {
            use_type_invariant(&*self);
        }
        self.levels = Some(levels);
    }

    /// Asks for the first level; run once at start-up.
    pub fn load_first_level(&mut self)
        ensures
            final(self)@ == (GameView {
                level_info: LevelInfo {
                    desired_index: Some(0),
                    index: old(self)@.level_info.index,
                    total_levels: old(self)@.level_info.total_levels,
                },
                ..old(self)@
            }),
    {
        proof {
            use_type_invariant(&*self);
        }
        let mut level_info = self.level_info;
        crate::level::load_first_level(&mut level_info);
        self.level_info = level_info;
    }

    /// Progress through the level set.
    pub fn level_info(&self) -> (info: &LevelInfo)
        ensures
            *info == self@.level_info,
            self@.wf(),
    {
        proof {
            use_type_invariant(self);
        }
        &self.level_info
    }

    /// The countdown of the level being played.
    pub fn timer(&self) -> (timer: &GameTimer)
        ensures
            *timer == self@.timer,
            self@.wf(),
    {
        proof {
            use_type_invariant(self);
        }
        &self.timer
    }

    /// The tokens on the board.
    pub fn entities(&self) -> (entities: &Vec<GridEntity>)
        ensures
            entities@ == self@.entities,
            self@.wf(),
    {
        proof {
            use_type_invariant(self);
        }
        &self.world.entities
    }

    /// The signals raised during the last frame.
    pub fn events(&self) -> (events: &Vec<GameEvent>)
        ensures
            events@ == self@.events,
            self@.wf(),
    {
        proof {
            use_type_invariant(self);
        }
        &self.events
    }

    /// Advances the game by one frame: `keys` are the directional keys that
    /// went down and `delta_ns` is the time that passed.  The signal queue is
    /// emptied, then the handlers run in order: movement, goal and trap
    /// detection, countdown, lifecycle, loader.  Returns what the loader did.
    pub fn tick(&mut self, keys: KeyEdges, delta_ns: u64) -> (outcome: LoadOutcome)
        ensures
            final(self)@ == old(self)@.ticked(keys, delta_ns),
            outcome == old(self)@.frame_outcome(keys, delta_ns),
            final(self)@.wf(),
    {
        let mut current = Game::new();
        std::mem::swap(self, &mut current);
        let (next, outcome) = current.advanced(keys, delta_ns);
        *self = next;
        outcome
    }

    /// Runs the handlers of one frame on a game taken apart into its parts.
    fn advanced(self, keys: KeyEdges, delta_ns: u64) -> (r: (Game, LoadOutcome))
        ensures
            r.0@ == self@.ticked(keys, delta_ns),
            r.1 == self@.frame_outcome(keys, delta_ns),
            r.0@.wf(),
    {
        proof {
            use_type_invariant(&self);
            lemma_tick_keeps_wf(self@, keys, delta_ns);
            lemma_frame_signal_counts(self@, keys, delta_ns);
        }
        let ghost before = self@;
        let Game { levels, mut level_info, mut timer, mut world, mut events } = self;
        events.clear();
        movement_system(&mut world, keys, &mut events);
        reach_goal(&world, &mut events);
        hit_trap(&world, &mut events);
        world.clear_changed();
        timer_expired(&mut timer, delta_ns, &mut events);
        reload_level_on_death(&events, &mut level_info);
        reload_level_on_timer_expired(&events, &mut level_info);
        proof {
            lemma_reloaded_times(before.level_info, occurrences(events@, GameEvent::HitTrap));
            lemma_reloaded_times(
                before.level_info.reloaded_times(occurrences(events@, GameEvent::HitTrap)),
                occurrences(events@, GameEvent::TimerExpired),
            );
            if before.entities.len() == 0 {
                lemma_empty_board(keys);
            }
        }
        go_to_next_level_on_goal(&events, &mut level_info);
        let outcome = load_level_on_level_change(
            &mut level_info,
            &mut world,
            &mut timer,
            levels.as_ref(),
        );
        let next = Game { levels, level_info, timer, world, events };
        proof {
            let want = before.ticked(keys, delta_ns);
            assert(next@.entities =~= want.entities);
        }
        (next, outcome)
    }
}

} // verus!
