//! Level descriptors and the level lifecycle: which level is wanted, which
//! one is laid out, and how the one follows the other.

use crate::color::GameColor;
use crate::events::{occurrences, GameEvent};
use crate::grid::GridPos;
use crate::timer::{Countdown, GameTimer, LEVEL_TIME_NS};
use crate::world::{GridEntity, Role, World};
use vstd::prelude::*;

verus! {

/// Where a token starts in a level, and in which colour.
#[derive(Copy, Clone, PartialEq, Eq, Structural, Debug)]
pub struct Placement {
    pub x: i32,
    pub y: i32,
    pub color: GameColor,
}

/// One level: the player's start, the goals and the traps.
#[derive(Clone, Debug)]
pub struct Level {
    pub player: Placement,
    pub goals: Vec<Placement>,
    pub traps: Vec<Placement>,
}

/// A level as a mathematical value.
pub struct LevelView {
    pub player: Placement,
    pub goals: Seq<Placement>,
    pub traps: Seq<Placement>,
}

impl View for Level {
    type V = LevelView;

    open spec fn view(&self) -> LevelView {
        LevelView { player: self.player, goals: self.goals@, traps: self.traps@ }
    }
}

/// Progress through the level set.  `desired_index` says which level should
/// be on the board, `index` which one is; a level is (re)laid out whenever
/// the two differ.
#[derive(Copy, Clone, PartialEq, Eq, Structural, Debug)]
pub struct LevelInfo {
    pub desired_index: Option<i32>,
    pub index: Option<i32>,
    pub total_levels: usize,
}

/// The four states of the level lifecycle.
#[derive(Copy, Clone, PartialEq, Eq, Structural, Debug)]
pub enum Lifecycle {
    /// Nothing is laid out and nothing is asked for.
    NoLevel,
    /// The level with this index is laid out.
    Loaded(i32),
    /// The level with this index is asked for and not yet laid out.
    Transitioning(i32),
    /// The index that was asked for lies outside the level set: the game is
    /// won.
    Finished,
}

/// What the loader did in a frame.
#[derive(Copy, Clone, PartialEq, Eq, Structural, Debug)]
pub enum LoadOutcome {
    /// No change of level was asked for.
    Idle,
    /// A change was asked for, but the level set is not available yet.
    Waiting,
    /// The board was cleared and the game is won.
    Finished,
    /// The board was cleared and the wanted level laid out.
    Spawned,
}

impl Placement {
    /// The token that this placement puts on the board.  A newly placed
    /// token counts as changed.
    pub open spec fn token(self, role: Role) -> GridEntity {
        GridEntity { role, pos: GridPos { x: self.x, y: self.y }, color: self.color, changed: true }
    }

    /// Builds the token that this placement puts on the board.
    pub fn to_token(&self, role: Role) -> (e: GridEntity)
        ensures
            e == self.token(role),
    {
        GridEntity { role, pos: GridPos { x: self.x, y: self.y }, color: self.color, changed: true }
    }
}

impl LevelView {
    /// The tokens of the level in the order in which they are laid out: the
    /// player, then the goals, then the traps.
    pub open spec fn tokens(self) -> Seq<GridEntity> {
        seq![self.player.token(Role::Player)] + self.goals.map_values(
            |p: Placement| p.token(Role::Goal),
        ) + self.traps.map_values(|p: Placement| p.token(Role::Trap))
    }
}

impl LevelInfo {
    /// `i` names no level of the set.
    pub open spec fn out_of_range(self, i: i32) -> bool {
        i < 0 || i >= self.total_levels
    }

    /// The game is won: the current index lies outside the level set.
    pub open spec fn won(self) -> bool {
        self.index matches Some(i) && self.out_of_range(i)
    }

    /// A level is asked for that is not the one laid out.
    pub open spec fn transition_pending(self) -> bool {
        self.desired_index is Some && self.desired_index != self.index
    }

    /// The state of the lifecycle.
    pub open spec fn lifecycle(self) -> Lifecycle {
        if self.transition_pending() {
            Lifecycle::Transitioning(self.desired_index->0)
        } else {
            match self.index {
                None => Lifecycle::NoLevel,
                Some(i) => if self.out_of_range(i) {
                    Lifecycle::Finished
                } else {
                    Lifecycle::Loaded(i)
                },
            }
        }
    }

    /// Progress after the current level was given up: the level that was
    /// current is asked for again and no level is current.
    pub open spec fn reloaded(self) -> LevelInfo {
        LevelInfo { desired_index: self.index, index: None, total_levels: self.total_levels }
    }

    /// Progress after giving up the current level `n` times in a row.
    pub open spec fn reloaded_times(self, n: nat) -> LevelInfo
        decreases n,
    {
        if n == 0 {
            self
        } else {
            self.reloaded_times((n - 1) as nat).reloaded()
        }
    }

    /// The index asked for when a goal is reached: the one after the current
    /// level, or 1 when no level is current.
    pub open spec fn next_index(self) -> int {
        match self.index {
            Some(i) => i + 1,
            None => 1,
        }
    }

    /// Progress after a goal was reached.
    pub open spec fn advanced(self) -> LevelInfo {
        LevelInfo {
            desired_index: Some(self.next_index() as i32),
            index: self.index,
            total_levels: self.total_levels,
        }
    }

    /// Progress after the loader has acted on a pending transition with a
    /// level set of `total` levels.
    pub open spec fn settled(self, total: nat) -> LevelInfo {
        LevelInfo {
            desired_index: self.desired_index,
            index: self.desired_index,
            total_levels: total as usize,
        }
    }

    /// What the loader does, given the number of levels in the level set if
    /// the set is available.
    pub open spec fn load_outcome(self, available: Option<nat>) -> LoadOutcome {
        if !self.transition_pending() {
            LoadOutcome::Idle
        } else {
            match available {
                None => LoadOutcome::Waiting,
                Some(total) => if 0 <= self.desired_index->0 < total {
                    LoadOutcome::Spawned
                } else {
                    LoadOutcome::Finished
                },
            }
        }
    }

    /// Progress at start-up: no level laid out, none asked for.
    pub fn new() -> (info: LevelInfo)
        ensures
            info == (LevelInfo { desired_index: None, index: None, total_levels: 0 }),
            info.lifecycle() == Lifecycle::NoLevel,
    {
        LevelInfo { desired_index: None, index: None, total_levels: 0 }
    }

    /// Tells whether the game is won.
    pub fn is_won(&self) -> (won: bool)
        ensures
            won == self.won(),
    {
        match self.index {
            Some(i) => i < 0 || i as usize >= self.total_levels,
            None => false,
        }
    }

    /// Classifies the progress as one of the four lifecycle states.
    pub fn state(&self) -> (state: Lifecycle)
        ensures
            state == self.lifecycle(),
    {
        match self.desired_index {
            Some(d) => {
                let same = match self.index {
                    Some(i) => i == d,
                    None => false,
                };
                if !same {
                    return Lifecycle::Transitioning(d);
                }
            },
            None => {},
        }
        match self.index {
            None => Lifecycle::NoLevel,
            Some(i) => if i < 0 || i as usize >= self.total_levels {
                Lifecycle::Finished
            } else {
                Lifecycle::Loaded(i)
            },
        }
    }

    /// Gives up the current level: asks for it again and marks no level as
    /// current.
    pub fn reload(&mut self)
        ensures
            *final(self) == old(self).reloaded(),
            final(self).desired_index == old(self).index,
            final(self).index is None,
    {
        self.desired_index = self.index;
        self.index = None;
    }

    /// Asks for the level after the current one.
    pub fn advance(&mut self)
        requires
            old(self).next_index() <= i32::MAX,
        ensures
            *final(self) == old(self).advanced(),
            final(self).desired_index == Some(old(self).next_index() as i32),
            old(self).index matches Some(i) ==> final(self).desired_index == Some((i + 1) as i32),
    {
        let current: i32 = match self.index {
            Some(i) => i,
            None => 0,
        };
        self.desired_index = Some(current + 1);
    }
}

/// Asks for the first level; run once at start-up.
pub fn load_first_level(level_info: &mut LevelInfo)
    ensures
        *final(level_info) == (LevelInfo {
            desired_index: Some(0),
            index: old(level_info).index,
            total_levels: old(level_info).total_levels,
        }),
{
    level_info.desired_index = Some(0);
}

/// Gives up the current level once for every `signal` in the queue.
fn reload_on(events: &Vec<GameEvent>, signal: GameEvent, level_info: &mut LevelInfo)
    ensures
        *final(level_info) == old(level_info).reloaded_times(occurrences(events@, signal)),
{
    let mut i: usize = 0;
    while i < events.len()
        invariant
            i <= events.len(),
            *level_info == old(level_info).reloaded_times(
                occurrences(events@.take(i as int), signal),
            ),
        decreases events.len() - i,
    {
        assert(events@.take(i + 1).drop_last() =~= events@.take(i as int));
        if events[i] == signal {
            level_info.reload();
        }
        i = i + 1;
    }
    assert(events@.take(i as int) =~= events@);
}

/// Restarts the level for every `HitTrap` signal in the queue.
pub fn reload_level_on_death(events: &Vec<GameEvent>, level_info: &mut LevelInfo)
    ensures
        *final(level_info) == old(level_info).reloaded_times(
            occurrences(events@, GameEvent::HitTrap),
        ),
        occurrences(events@, GameEvent::HitTrap) == 0 ==> *final(level_info) == *old(level_info),
        occurrences(events@, GameEvent::HitTrap) == 1 ==> final(level_info).desired_index
            == old(level_info).index && final(level_info).index is None,
{
    proof {
        lemma_reloaded_times(*old(level_info), occurrences(events@, GameEvent::HitTrap));
    }
    reload_on(events, GameEvent::HitTrap, level_info)
}

/// Restarts the level for every `TimerExpired` signal in the queue.
pub fn reload_level_on_timer_expired(events: &Vec<GameEvent>, level_info: &mut LevelInfo)
    ensures
        *final(level_info) == old(level_info).reloaded_times(
            occurrences(events@, GameEvent::TimerExpired),
        ),
        occurrences(events@, GameEvent::TimerExpired) == 0 ==> *final(level_info) == *old(
            level_info,
        ),
        occurrences(events@, GameEvent::TimerExpired) == 1 ==> final(level_info).desired_index
            == old(level_info).index && final(level_info).index is None,
{
    proof {
        lemma_reloaded_times(*old(level_info), occurrences(events@, GameEvent::TimerExpired));
    }
    reload_on(events, GameEvent::TimerExpired, level_info)
}

/// Asks for the next level if the queue holds a `ReachedGoal` signal.
pub fn go_to_next_level_on_goal(events: &Vec<GameEvent>, level_info: &mut LevelInfo)
    requires
        occurrences(events@, GameEvent::ReachedGoal) > 0 ==> old(level_info).next_index()
            <= i32::MAX,
    ensures
        *final(level_info) == if occurrences(events@, GameEvent::ReachedGoal) > 0 {
            old(level_info).advanced()
        } else {
            *old(level_info)
        },
        occurrences(events@, GameEvent::ReachedGoal) > 0 ==> (old(level_info).index matches Some(i)
            ==> final(level_info).desired_index == Some((i + 1) as i32)),
{
    let mut i: usize = 0;
    while i < events.len()
        invariant
            i <= events.len(),
            occurrences(events@, GameEvent::ReachedGoal) > 0 ==> old(level_info).next_index()
                <= i32::MAX,
            occurrences(events@.take(i as int), GameEvent::ReachedGoal) <= occurrences(
                events@,
                GameEvent::ReachedGoal,
            ),
            *level_info == if occurrences(events@.take(i as int), GameEvent::ReachedGoal) > 0 {
                old(level_info).advanced()
            } else {
                *old(level_info)
            },
        decreases events.len() - i,
    {
        assert(events@.take(i + 1).drop_last() =~= events@.take(i as int));
        proof {
            lemma_occurrences_of_prefix(events@, GameEvent::ReachedGoal, i + 1);
        }
        if events[i] == GameEvent::ReachedGoal {
            level_info.advance();
        }
        i = i + 1;
    }
    assert(events@.take(i as int) =~= events@);
}

/// A prefix of a queue holds no more occurrences of a signal than the queue.
pub proof fn lemma_occurrences_of_prefix(queue: Seq<GameEvent>, event: GameEvent, n: int)
    requires
        0 <= n <= queue.len(),
    ensures
        occurrences(queue.take(n), event) <= occurrences(queue, event),
    decreases queue.len() - n,
{
    if n == queue.len() {
        assert(queue.take(n) =~= queue);
    } else {
        lemma_occurrences_of_prefix(queue, event, n + 1);
        assert(queue.take(n + 1).drop_last() =~= queue.take(n));
    }
}

/// Giving up the current level once asks for it again; doing so twice or
/// more in a row leaves no level asked for.
pub proof fn lemma_reloaded_times(info: LevelInfo, n: nat)
    ensures
        n == 0 ==> info.reloaded_times(n) == info,
        n == 1 ==> info.reloaded_times(n) == info.reloaded(),
        n >= 2 ==> info.reloaded_times(n) == (LevelInfo {
            desired_index: None,
            index: None,
            total_levels: info.total_levels,
        }),
    decreases n,
{
    if n >= 1 {
        lemma_reloaded_times(info, (n - 1) as nat);
        if n == 1 {
        }
    }
}

/// Lays out a level: adds its player, goals and traps to the board, in that
/// order, and starts a fresh countdown.
pub fn spawn_level(world: &mut World, level: &Level, timer: &mut GameTimer)
    ensures
        final(world)@ == old(world)@ + level@.tokens(),
        *final(timer) == GameTimer::fresh(),
{
    let ghost base = world@;
    let ghost goal_tokens = level@.goals.map_values(|p: Placement| p.token(Role::Goal));
    let ghost trap_tokens = level@.traps.map_values(|p: Placement| p.token(Role::Trap));
    world.entities.push(level.player.to_token(Role::Player));
    let ghost with_player = base + seq![level@.player.token(Role::Player)];
    let mut i: usize = 0;
    while i < level.goals.len()
        invariant
            i <= level.goals.len(),
            goal_tokens == level@.goals.map_values(|p: Placement| p.token(Role::Goal)),
            world@ == with_player + goal_tokens.take(i as int),
        decreases level.goals.len() - i,
    {
        world.entities.push(level.goals[i].to_token(Role::Goal));
        i = i + 1;
    }
    let mut k: usize = 0;
    while k < level.traps.len()
        invariant
            k <= level.traps.len(),
            trap_tokens == level@.traps.map_values(|p: Placement| p.token(Role::Trap)),
            world@ == with_player + goal_tokens + trap_tokens.take(k as int),
        decreases level.traps.len() - k,
    {
        world.entities.push(level.traps[k].to_token(Role::Trap));
        k = k + 1;
    }
    timer.0 = Some(Countdown { duration_ns: LEVEL_TIME_NS, elapsed_ns: 0 });
}

/// Acts on a pending change of level.  When a level other than the current
/// one is asked for and the level set is available, the board is cleared and
/// the index asked for becomes current.  If that index names a level, the
/// level is laid out and its countdown started; if it lies outside the set,
/// the board stays empty, no countdown remains, and the game is won.
/// Without a pending change, or without the level set, nothing is touched.
pub fn load_level_on_level_change(
    level_info: &mut LevelInfo,
    world: &mut World,
    timer: &mut GameTimer,
    levels: Option<&Vec<Level>>,
) -> (outcome: LoadOutcome)
    ensures
        outcome == old(level_info).load_outcome(
            match levels {
                Some(l) => Some(l@.len()),
                None => None,
            },
        ),
        match outcome {
            LoadOutcome::Idle | LoadOutcome::Waiting => {
                &&& *final(level_info) == *old(level_info)
                &&& final(world)@ == old(world)@
                &&& *final(timer) == *old(timer)
            },
            LoadOutcome::Finished => {
                &&& *final(level_info) == old(level_info).settled(levels->0@.len())
                &&& final(level_info).won()
                &&& final(world)@.len() == 0
                &&& *final(timer) == GameTimer(None)
            },
            LoadOutcome::Spawned => {
                &&& *final(level_info) == old(level_info).settled(levels->0@.len())
                &&& !final(level_info).won()
                &&& final(world)@ == levels->0@[old(level_info).desired_index->0 as int]@.tokens()
                &&& *final(timer) == GameTimer::fresh()
            },
        },
{
    let desired: i32 = match level_info.desired_index {
        Some(d) => d,
        None => {
            return LoadOutcome::Idle;
        },
    };
    match level_info.index {
        Some(i) => {
            if i == desired {
                return LoadOutcome::Idle;
            }
        },
        None => {},
    }
    let levels = match levels {
        Some(levels) => levels,
        None => {
            return LoadOutcome::Waiting;
        },
    };
    world.entities.clear();
    level_info.total_levels = levels.len();
    level_info.index = level_info.desired_index;
    if desired < 0 || desired as usize >= levels.len() {
        timer.0 = None;
        return LoadOutcome::Finished;
    }
    spawn_level(world, &levels[desired as usize], timer);
    LoadOutcome::Spawned
}

} // verus!
