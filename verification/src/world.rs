//! The tokens on the board, and the handlers that move the player and detect
//! what it stands on.

use crate::color::GameColor;
use crate::events::{push_repeated, repeated, GameEvent};
use crate::grid::{lemma_wall_blocks_step, GridPos, KeyEdges};
use vstd::prelude::*;

verus! {

/// What a token is.
#[derive(Copy, Clone, PartialEq, Eq, Structural, Debug)]
pub enum Role {
    Player,
    Goal,
    Trap,
}

/// A token on the board.
#[derive(Copy, Clone, PartialEq, Eq, Structural, Debug)]
pub struct GridEntity {
    pub role: Role,
    pub pos: GridPos,
    pub color: GameColor,
    /// The position was written (by a step, or by laying the token out) and
    /// the collision handlers have not been run on it since.
    pub changed: bool,
}

/// The table of tokens.  Its view is the sequence of its tokens.
#[derive(Clone, Debug)]
pub struct World {
    pub entities: Vec<GridEntity>,
}

impl View for World {
    type V = Seq<GridEntity>;

    open spec fn view(&self) -> Seq<GridEntity> {
        self.entities@
    }
}

impl GridEntity {
    /// The token is a player; with `changed_only`, one whose position was
    /// written since the last collision check.
    pub open spec fn is_player(self, changed_only: bool) -> bool {
        self.role == Role::Player && (changed_only ==> self.changed)
    }

    /// The token has the given role and stands on the given cell.
    pub open spec fn is_at(self, role: Role, pos: GridPos) -> bool {
        self.role == role && self.pos == pos
    }
}

/// Token `i` is the one and only player of the table (with `changed_only`:
/// the one and only player whose position was written).
pub open spec fn is_sole_player(s: Seq<GridEntity>, changed_only: bool, i: int) -> bool {
    &&& 0 <= i < s.len()
    &&& s[i].is_player(changed_only)
    &&& forall|j: int| 0 <= j < s.len() && #[trigger] s[j].is_player(changed_only) ==> j == i
}

/// Index of the player, if the table holds exactly one (with `changed_only`:
/// exactly one whose position was written).
pub open spec fn sole_player(s: Seq<GridEntity>, changed_only: bool) -> Option<int> {
    if exists|i: int| is_sole_player(s, changed_only, i) {
        Some(choose|i: int| is_sole_player(s, changed_only, i))
    } else {
        None
    }
}

/// Number of tokens of the given role on the given cell.
pub open spec fn count_at(s: Seq<GridEntity>, role: Role, pos: GridPos) -> nat
    decreases s.len(),
{
    if s.len() == 0 {
        0
    } else {
        count_at(s.drop_last(), role, pos) + if s.last().is_at(role, pos) {
            1nat
        } else {
            0nat
        }
    }
}

/// Number of tokens of the given role that the player stands on; counted
/// only when exactly one player has had its position written since the last
/// check, and zero otherwise.
pub open spec fn collisions(s: Seq<GridEntity>, role: Role) -> nat {
    match sole_player(s, true) {
        Some(i) => count_at(s, role, s[i].pos),
        None => 0,
    }
}

/// The player takes the step that the keys ask for and no wall blocks.
pub open spec fn player_steps(s: Seq<GridEntity>, keys: KeyEdges) -> bool {
    sole_player(s, false) matches Some(i) && keys.chosen() matches Some(dir) && s[i].pos.can_step(
        dir,
    )
}

/// The table after the movement handler has run on the given keys.
pub open spec fn after_movement(s: Seq<GridEntity>, keys: KeyEdges) -> Seq<GridEntity> {
    if player_steps(s, keys) {
        let i = sole_player(s, false)->0;
        s.update(
            i,
            GridEntity {
                role: s[i].role,
                pos: s[i].pos.stepped(keys.chosen()->0),
                color: s[i].color,
                changed: true,
            },
        )
    } else {
        s
    }
}

/// The table with every token marked as checked.
pub open spec fn all_checked(s: Seq<GridEntity>) -> Seq<GridEntity> {
    Seq::new(
        s.len(),
        |i: int| GridEntity { role: s[i].role, pos: s[i].pos, color: s[i].color, changed: false },
    )
}

/// Every token stands on the board.
pub open spec fn all_on_board(s: Seq<GridEntity>) -> bool {
    forall|i: int| 0 <= i < s.len() ==> (#[trigger] s[i]).pos.in_bounds()
}

/// The index that satisfies `is_sole_player` is the one `sole_player` names.
pub proof fn lemma_sole_player_is(s: Seq<GridEntity>, changed_only: bool, i: int)
    requires
        is_sole_player(s, changed_only, i),
    ensures
        sole_player(s, changed_only) == Some(i),
{
}

impl World {
    /// An empty table.
    pub fn new() -> (world: World)
        ensures
            world@ == Seq::<GridEntity>::empty(),
    {
        World { entities: Vec::new() }
    }

    /// Finds the player, provided the table holds exactly one (with
    /// `changed_only`: exactly one whose position was written since the last
    /// collision check).
    pub fn single_player(&self, changed_only: bool) -> (found: Option<usize>)
        ensures
            match found {
                Some(i) => sole_player(self@, changed_only) == Some(i as int),
                None => sole_player(self@, changed_only) is None,
            },
    {
        let ghost s = self@;
        let mut found: Option<usize> = None;
        let mut i: usize = 0;
        while i < self.entities.len()
            invariant
                i <= self.entities.len(),
                s == self.entities@,
                match found {
                    Some(p) => p < i && s[p as int].is_player(changed_only) && forall|j: int|
                        0 <= j < i && #[trigger] s[j].is_player(changed_only) ==> j == p,
                    None => forall|j: int| 0 <= j < i ==> !#[trigger] s[j].is_player(changed_only),
                },
            decreases self.entities.len() - i,
        {
            let e = &self.entities[i];
            let is_player = match e.role {
                Role::Player => !changed_only || e.changed,
                _ => false,
            };
            if is_player {
                match found {
                    Some(p) => {
                        proof {
                            assert forall|k: int| !is_sole_player(s, changed_only, k) by {
                                if is_sole_player(s, changed_only, k) {
                                    assert(s[i as int].is_player(changed_only));
                                }
                            }
                        }
                        return None;
                    },
                    None => {
                        found = Some(i);
                    },
                }
            }
            i = i + 1;
        }
        proof {
            match found {
                Some(p) => {
                    lemma_sole_player_is(s, changed_only, p as int);
                },
                None => {
                    assert forall|k: int| !is_sole_player(s, changed_only, k) by {}
                },
            }
        }
        found
    }

    /// Counts the tokens of the given role on the given cell.
    pub fn count_role_at(&self, role: Role, pos: GridPos) -> (n: usize)
        ensures
            n == count_at(self@, role, pos),
    {
        let mut n: usize = 0;
        let mut i: usize = 0;
        while i < self.entities.len()
            invariant
                i <= self.entities.len(),
                n <= i,
                n == count_at(self@.take(i as int), role, pos),
            decreases self.entities.len() - i,
        {
            assert(self@.take(i + 1).drop_last() =~= self@.take(i as int));
            let e = &self.entities[i];
            if e.role == role && e.pos == pos {
                n = n + 1;
            }
            i = i + 1;
        }
        assert(self@.take(i as int) =~= self@);
        n
    }

    /// Marks every token as checked by the collision handlers.
    pub fn clear_changed(&mut self)
        ensures
            final(self)@ == all_checked(old(self)@),
    {
        let ghost before = self@;
        let mut i: usize = 0;
        while i < self.entities.len()
            invariant
                i <= self.entities.len(),
                self@.len() == before.len(),
                forall|j: int| 0 <= j < i ==> self@[j] == all_checked(before)[j],
                forall|j: int| i <= j < self@.len() ==> self@[j] == before[j],
            decreases self.entities.len() - i,
        {
            let e = self.entities[i];
            self.entities.set(
                i,
                GridEntity { role: e.role, pos: e.pos, color: e.color, changed: false },
            );
            i = i + 1;
        }
    }
}

/// Applies the directional keys of a frame to the player.  The first key in
/// the order up, left, down, right is honoured; if no wall blocks it the
/// player moves one cell, is marked as changed, and one `PlayerMoved` signal
/// is raised.  Without exactly one player, without a key, or against a wall,
/// nothing happens.
pub fn movement_system(world: &mut World, keys: KeyEdges, events: &mut Vec<GameEvent>)
    ensures
        final(world)@ == after_movement(old(world)@, keys),
        final(events)@ == if player_steps(old(world)@, keys) {
            old(events)@.push(GameEvent::PlayerMoved)
        } else {
            old(events)@
        },
        !player_steps(old(world)@, keys) ==> final(world)@ == old(world)@ && final(events)@ == old(
            events,
        )@,
        all_on_board(old(world)@) ==> all_on_board(final(world)@),
{
    proof {
        if all_on_board(old(world)@) {
            lemma_movement_stays_on_board(old(world)@, keys);
        }
    }
    let i = match world.single_player(false) {
        Some(i) => i,
        None => {
            return ;
        },
    };
    let dir = match keys.direction() {
        Some(dir) => dir,
        None => {
            return ;
        },
    };
    let e = world.entities[i];
    let mut pos = e.pos;
    let moved = pos.step(dir);
    if moved {
        world.entities.set(i, GridEntity { role: e.role, pos, color: e.color, changed: true });
        events.push(GameEvent::PlayerMoved);
    }
}

/// Raises `signal` once for every token of the given role that shares its
/// cell with the player, provided exactly one player has had its position
/// written since the last check.
fn raise_collisions(world: &World, role: Role, signal: GameEvent, events: &mut Vec<GameEvent>)
    ensures
        final(events)@ == old(events)@ + repeated(signal, collisions(world@, role)),
{
    match world.single_player(true) {
        Some(i) => {
            let n = world.count_role_at(role, world.entities[i].pos);
            push_repeated(events, signal, n);
        },
        None => {
        },
    }
}

/// Raises one `ReachedGoal` signal for every goal on the player's cell.
pub fn reach_goal(world: &World, events: &mut Vec<GameEvent>)
    ensures
        final(events)@ == old(events)@ + repeated(
            GameEvent::ReachedGoal,
            collisions(world@, Role::Goal),
        ),
{
    raise_collisions(world, Role::Goal, GameEvent::ReachedGoal, events)
}

/// Raises one `HitTrap` signal for every trap on the player's cell.
pub fn hit_trap(world: &World, events: &mut Vec<GameEvent>)
    ensures
        final(events)@ == old(events)@ + repeated(
            GameEvent::HitTrap,
            collisions(world@, Role::Trap),
        ),
{
    raise_collisions(world, Role::Trap, GameEvent::HitTrap, events)
}

/// The movement handler keeps every token on the board.
pub proof fn lemma_movement_stays_on_board(s: Seq<GridEntity>, keys: KeyEdges)
    requires
        all_on_board(s),
    ensures
        all_on_board(after_movement(s, keys)),
{
    let t = after_movement(s, keys);
    assert forall|i: int| 0 <= i < t.len() implies (#[trigger] t[i]).pos.in_bounds() by {
    }
}

/// A player on the board that walks into a wall stays where it is, and no
/// `PlayerMoved` signal is raised: the movement handler changes nothing.
pub proof fn lemma_wall_blocks(s: Seq<GridEntity>, keys: KeyEdges)
    requires
        sole_player(s, false) matches Some(i) && keys.chosen() matches Some(dir)
            && s[i].pos.in_bounds() && s[i].pos.faces_wall(dir),
    ensures
        !player_steps(s, keys),
        after_movement(s, keys) == s,
{
    lemma_wall_blocks_step(s[sole_player(s, false)->0].pos, keys.chosen()->0);
}

} // verus!
